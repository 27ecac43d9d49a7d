//! Result definitions of the IPC layer.

use vstd::prelude::*;
use crate::rc::RESULT_MODULE;
use crate::result::ResultBase;

verus! {

/// Result submodule of the IPC results.
pub const RESULT_SUBMODULE: u32 = 600;

/// No room is left for another copy handle.
pub struct ResultCopyHandlesFull;

impl ResultBase for ResultCopyHandlesFull {
    open spec fn spec_module() -> u32 {
        RESULT_MODULE
    }

    open spec fn spec_description() -> u32 {
        (RESULT_SUBMODULE + 1) as u32
    }

    proof fn lemma_in_range() {
    }

    fn get_module() -> (m: u32) {
        RESULT_MODULE
    }

    fn get_description() -> (d: u32) {
        RESULT_SUBMODULE + 1
    }
}

/// No room is left for another move handle.
pub struct ResultMoveHandlesFull;

impl ResultBase for ResultMoveHandlesFull {
    open spec fn spec_module() -> u32 {
        RESULT_MODULE
    }

    open spec fn spec_description() -> u32 {
        (RESULT_SUBMODULE + 2) as u32
    }

    proof fn lemma_in_range() {
    }

    fn get_module() -> (m: u32) {
        RESULT_MODULE
    }

    fn get_description() -> (d: u32) {
        RESULT_SUBMODULE + 2
    }
}

/// No room is left for another domain object id.
pub struct ResultDomainObjectsFull;

impl ResultBase for ResultDomainObjectsFull {
    open spec fn spec_module() -> u32 {
        RESULT_MODULE
    }

    open spec fn spec_description() -> u32 {
        (RESULT_SUBMODULE + 3) as u32
    }

    proof fn lemma_in_range() {
    }

    fn get_module() -> (m: u32) {
        RESULT_MODULE
    }

    fn get_description() -> (d: u32) {
        RESULT_SUBMODULE + 3
    }
}

/// An id names no object of a domain.
pub struct ResultInvalidDomainObject;

impl ResultBase for ResultInvalidDomainObject {
    open spec fn spec_module() -> u32 {
        RESULT_MODULE
    }

    open spec fn spec_description() -> u32 {
        (RESULT_SUBMODULE + 4) as u32
    }

    proof fn lemma_in_range() {
    }

    fn get_module() -> (m: u32) {
        RESULT_MODULE
    }

    fn get_description() -> (d: u32) {
        RESULT_SUBMODULE + 4
    }
}

/// No room is left for another out-pointer size.
pub struct ResultPointerSizesFull;

impl ResultBase for ResultPointerSizesFull {
    open spec fn spec_module() -> u32 {
        RESULT_MODULE
    }

    open spec fn spec_description() -> u32 {
        (RESULT_SUBMODULE + 5) as u32
    }

    proof fn lemma_in_range() {
    }

    fn get_module() -> (m: u32) {
        RESULT_MODULE
    }

    fn get_description() -> (d: u32) {
        RESULT_SUBMODULE + 5
    }
}

/// No room is left for another send-static descriptor.
pub struct ResultSendStaticsFull;

impl ResultBase for ResultSendStaticsFull {
    open spec fn spec_module() -> u32 {
        RESULT_MODULE
    }

    open spec fn spec_description() -> u32 {
        (RESULT_SUBMODULE + 6) as u32
    }

    proof fn lemma_in_range() {
    }

    fn get_module() -> (m: u32) {
        RESULT_MODULE
    }

    fn get_description() -> (d: u32) {
        RESULT_SUBMODULE + 6
    }
}

/// No room is left for another receive-static descriptor.
pub struct ResultReceiveStaticsFull;

impl ResultBase for ResultReceiveStaticsFull {
    open spec fn spec_module() -> u32 {
        RESULT_MODULE
    }

    open spec fn spec_description() -> u32 {
        (RESULT_SUBMODULE + 7) as u32
    }

    proof fn lemma_in_range() {
    }

    fn get_module() -> (m: u32) {
        RESULT_MODULE
    }

    fn get_description() -> (d: u32) {
        RESULT_SUBMODULE + 7
    }
}

/// No room is left for another send-buffer descriptor.
pub struct ResultSendBuffersFull;

impl ResultBase for ResultSendBuffersFull {
    open spec fn spec_module() -> u32 {
        RESULT_MODULE
    }

    open spec fn spec_description() -> u32 {
        (RESULT_SUBMODULE + 8) as u32
    }

    proof fn lemma_in_range() {
    }

    fn get_module() -> (m: u32) {
        RESULT_MODULE
    }

    fn get_description() -> (d: u32) {
        RESULT_SUBMODULE + 8
    }
}

/// No room is left for another receive-buffer descriptor.
pub struct ResultReceiveBuffersFull;

impl ResultBase for ResultReceiveBuffersFull {
    open spec fn spec_module() -> u32 {
        RESULT_MODULE
    }

    open spec fn spec_description() -> u32 {
        (RESULT_SUBMODULE + 9) as u32
    }

    proof fn lemma_in_range() {
    }

    fn get_module() -> (m: u32) {
        RESULT_MODULE
    }

    fn get_description() -> (d: u32) {
        RESULT_SUBMODULE + 9
    }
}

/// No room is left for another exchange-buffer descriptor.
pub struct ResultExchangeBuffersFull;

impl ResultBase for ResultExchangeBuffersFull {
    open spec fn spec_module() -> u32 {
        RESULT_MODULE
    }

    open spec fn spec_description() -> u32 {
        (RESULT_SUBMODULE + 10) as u32
    }

    proof fn lemma_in_range() {
    }

    fn get_module() -> (m: u32) {
        RESULT_MODULE
    }

    fn get_description() -> (d: u32) {
        RESULT_SUBMODULE + 10
    }
}

/// The capabilities of a buffer name no transfer mode, or no direction.
pub struct ResultInvalidBufferAttributes;

impl ResultBase for ResultInvalidBufferAttributes {
    open spec fn spec_module() -> u32 {
        RESULT_MODULE
    }

    open spec fn spec_description() -> u32 {
        (RESULT_SUBMODULE + 16) as u32
    }

    proof fn lemma_in_range() {
    }

    fn get_module() -> (m: u32) {
        RESULT_MODULE
    }

    fn get_description() -> (d: u32) {
        RESULT_SUBMODULE + 16
    }
}

/// The command does not exist in the protocol of the target object.
pub struct ResultInvalidProtocol;

impl ResultBase for ResultInvalidProtocol {
    open spec fn spec_module() -> u32 {
        RESULT_MODULE
    }

    open spec fn spec_description() -> u32 {
        (RESULT_SUBMODULE + 17) as u32
    }

    proof fn lemma_in_range() {
    }

    fn get_module() -> (m: u32) {
        RESULT_MODULE
    }

    fn get_description() -> (d: u32) {
        RESULT_SUBMODULE + 17
    }
}

/// A view was asked of a buffer whose address is null or misaligned.
pub struct ResultInvalidBufferPointer;

impl ResultBase for ResultInvalidBufferPointer {
    open spec fn spec_module() -> u32 {
        RESULT_MODULE
    }

    open spec fn spec_description() -> u32 {
        (RESULT_SUBMODULE + 18) as u32
    }

    proof fn lemma_in_range() {
    }

    fn get_module() -> (m: u32) {
        RESULT_MODULE
    }

    fn get_description() -> (d: u32) {
        RESULT_SUBMODULE + 18
    }
}

/// A seconds and nanoseconds pair does not fit a duration.
pub struct ResultInvalidDuration;

impl ResultBase for ResultInvalidDuration {
    open spec fn spec_module() -> u32 {
        RESULT_MODULE
    }

    open spec fn spec_description() -> u32 {
        (RESULT_SUBMODULE + 19) as u32
    }

    proof fn lemma_in_range() {
    }

    fn get_module() -> (m: u32) {
        RESULT_MODULE
    }

    fn get_description() -> (d: u32) {
        RESULT_SUBMODULE + 19
    }
}

} // verus!
