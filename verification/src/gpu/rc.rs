//! Result definitions of the graphics layer.

use vstd::prelude::*;
use crate::rc::RESULT_MODULE;
use crate::result::ResultBase;

verus! {

/// Result submodule of the graphics results.
pub const RESULT_SUBMODULE: u32 = 500;

/// The driver answered with an error code that has no name here.
pub struct ResultNvErrorCodeInvalid;

impl ResultBase for ResultNvErrorCodeInvalid {
    open spec fn spec_module() -> u32 {
        RESULT_MODULE
    }

    open spec fn spec_description() -> u32 {
        (RESULT_SUBMODULE + 1) as u32
    }

    proof fn lemma_in_range() {
    }

    fn get_module() -> (m: u32) {
        RESULT_MODULE
    }

    fn get_description() -> (d: u32) {
        RESULT_SUBMODULE + 1
    }
}

/// The driver answered `NotImplemented`.
pub struct ResultNvErrorCodeNotImplemented;

impl ResultBase for ResultNvErrorCodeNotImplemented {
    open spec fn spec_module() -> u32 {
        RESULT_MODULE
    }

    open spec fn spec_description() -> u32 {
        (RESULT_SUBMODULE + 2) as u32
    }

    proof fn lemma_in_range() {
    }

    fn get_module() -> (m: u32) {
        RESULT_MODULE
    }

    fn get_description() -> (d: u32) {
        RESULT_SUBMODULE + 2
    }
}

/// The driver answered `NotSupported`.
pub struct ResultNvErrorCodeNotSupported;

impl ResultBase for ResultNvErrorCodeNotSupported {
    open spec fn spec_module() -> u32 {
        RESULT_MODULE
    }

    open spec fn spec_description() -> u32 {
        (RESULT_SUBMODULE + 3) as u32
    }

    proof fn lemma_in_range() {
    }

    fn get_module() -> (m: u32) {
        RESULT_MODULE
    }

    fn get_description() -> (d: u32) {
        RESULT_SUBMODULE + 3
    }
}

/// The driver answered `NotInitialized`.
pub struct ResultNvErrorCodeNotInitialized;

impl ResultBase for ResultNvErrorCodeNotInitialized {
    open spec fn spec_module() -> u32 {
        RESULT_MODULE
    }

    open spec fn spec_description() -> u32 {
        (RESULT_SUBMODULE + 4) as u32
    }

    proof fn lemma_in_range() {
    }

    fn get_module() -> (m: u32) {
        RESULT_MODULE
    }

    fn get_description() -> (d: u32) {
        RESULT_SUBMODULE + 4
    }
}

/// The driver answered `InvalidParameter`.
pub struct ResultNvErrorCodeInvalidParameter;

impl ResultBase for ResultNvErrorCodeInvalidParameter {
    open spec fn spec_module() -> u32 {
        RESULT_MODULE
    }

    open spec fn spec_description() -> u32 {
        (RESULT_SUBMODULE + 5) as u32
    }

    proof fn lemma_in_range() {
    }

    fn get_module() -> (m: u32) {
        RESULT_MODULE
    }

    fn get_description() -> (d: u32) {
        RESULT_SUBMODULE + 5
    }
}

/// The driver answered `TimeOut`.
pub struct ResultNvErrorCodeTimeOut;

impl ResultBase for ResultNvErrorCodeTimeOut {
    open spec fn spec_module() -> u32 {
        RESULT_MODULE
    }

    open spec fn spec_description() -> u32 {
        (RESULT_SUBMODULE + 6) as u32
    }

    proof fn lemma_in_range() {
    }

    fn get_module() -> (m: u32) {
        RESULT_MODULE
    }

    fn get_description() -> (d: u32) {
        RESULT_SUBMODULE + 6
    }
}

/// The driver answered `InsufficientMemory`.
pub struct ResultNvErrorCodeInsufficientMemory;

impl ResultBase for ResultNvErrorCodeInsufficientMemory {
    open spec fn spec_module() -> u32 {
        RESULT_MODULE
    }

    open spec fn spec_description() -> u32 {
        (RESULT_SUBMODULE + 7) as u32
    }

    proof fn lemma_in_range() {
    }

    fn get_module() -> (m: u32) {
        RESULT_MODULE
    }

    fn get_description() -> (d: u32) {
        RESULT_SUBMODULE + 7
    }
}

/// The driver answered `ReadOnlyAttribute`.
pub struct ResultNvErrorCodeReadOnlyAttribute;

impl ResultBase for ResultNvErrorCodeReadOnlyAttribute {
    open spec fn spec_module() -> u32 {
        RESULT_MODULE
    }

    open spec fn spec_description() -> u32 {
        (RESULT_SUBMODULE + 8) as u32
    }

    proof fn lemma_in_range() {
    }

    fn get_module() -> (m: u32) {
        RESULT_MODULE
    }

    fn get_description() -> (d: u32) {
        RESULT_SUBMODULE + 8
    }
}

/// The driver answered `InvalidState`.
pub struct ResultNvErrorCodeInvalidState;

impl ResultBase for ResultNvErrorCodeInvalidState {
    open spec fn spec_module() -> u32 {
        RESULT_MODULE
    }

    open spec fn spec_description() -> u32 {
        (RESULT_SUBMODULE + 9) as u32
    }

    proof fn lemma_in_range() {
    }

    fn get_module() -> (m: u32) {
        RESULT_MODULE
    }

    fn get_description() -> (d: u32) {
        RESULT_SUBMODULE + 9
    }
}

/// The driver answered `InvalidAddress`.
pub struct ResultNvErrorCodeInvalidAddress;

impl ResultBase for ResultNvErrorCodeInvalidAddress {
    open spec fn spec_module() -> u32 {
        RESULT_MODULE
    }

    open spec fn spec_description() -> u32 {
        (RESULT_SUBMODULE + 10) as u32
    }

    proof fn lemma_in_range() {
    }

    fn get_module() -> (m: u32) {
        RESULT_MODULE
    }

    fn get_description() -> (d: u32) {
        RESULT_SUBMODULE + 10
    }
}

/// The driver answered `InvalidSize`.
pub struct ResultNvErrorCodeInvalidSize;

impl ResultBase for ResultNvErrorCodeInvalidSize {
    open spec fn spec_module() -> u32 {
        RESULT_MODULE
    }

    open spec fn spec_description() -> u32 {
        (RESULT_SUBMODULE + 11) as u32
    }

    proof fn lemma_in_range() {
    }

    fn get_module() -> (m: u32) {
        RESULT_MODULE
    }

    fn get_description() -> (d: u32) {
        RESULT_SUBMODULE + 11
    }
}

/// The driver answered `InvalidValue`.
pub struct ResultNvErrorCodeInvalidValue;

impl ResultBase for ResultNvErrorCodeInvalidValue {
    open spec fn spec_module() -> u32 {
        RESULT_MODULE
    }

    open spec fn spec_description() -> u32 {
        (RESULT_SUBMODULE + 12) as u32
    }

    proof fn lemma_in_range() {
    }

    fn get_module() -> (m: u32) {
        RESULT_MODULE
    }

    fn get_description() -> (d: u32) {
        RESULT_SUBMODULE + 12
    }
}

/// The driver answered `AlreadyAllocated`.
pub struct ResultNvErrorCodeAlreadyAllocated;

impl ResultBase for ResultNvErrorCodeAlreadyAllocated {
    open spec fn spec_module() -> u32 {
        RESULT_MODULE
    }

    open spec fn spec_description() -> u32 {
        (RESULT_SUBMODULE + 13) as u32
    }

    proof fn lemma_in_range() {
    }

    fn get_module() -> (m: u32) {
        RESULT_MODULE
    }

    fn get_description() -> (d: u32) {
        RESULT_SUBMODULE + 13
    }
}

/// The driver answered `Busy`.
pub struct ResultNvErrorCodeBusy;

impl ResultBase for ResultNvErrorCodeBusy {
    open spec fn spec_module() -> u32 {
        RESULT_MODULE
    }

    open spec fn spec_description() -> u32 {
        (RESULT_SUBMODULE + 14) as u32
    }

    proof fn lemma_in_range() {
    }

    fn get_module() -> (m: u32) {
        RESULT_MODULE
    }

    fn get_description() -> (d: u32) {
        RESULT_SUBMODULE + 14
    }
}

/// The driver answered `ResourceError`.
pub struct ResultNvErrorCodeResourceError;

impl ResultBase for ResultNvErrorCodeResourceError {
    open spec fn spec_module() -> u32 {
        RESULT_MODULE
    }

    open spec fn spec_description() -> u32 {
        (RESULT_SUBMODULE + 15) as u32
    }

    proof fn lemma_in_range() {
    }

    fn get_module() -> (m: u32) {
        RESULT_MODULE
    }

    fn get_description() -> (d: u32) {
        RESULT_SUBMODULE + 15
    }
}

/// The driver answered `CountMismatch`.
pub struct ResultNvErrorCodeCountMismatch;

impl ResultBase for ResultNvErrorCodeCountMismatch {
    open spec fn spec_module() -> u32 {
        RESULT_MODULE
    }

    open spec fn spec_description() -> u32 {
        (RESULT_SUBMODULE + 16) as u32
    }

    proof fn lemma_in_range() {
    }

    fn get_module() -> (m: u32) {
        RESULT_MODULE
    }

    fn get_description() -> (d: u32) {
        RESULT_SUBMODULE + 16
    }
}

/// The driver answered `SharedMemoryTooSmall`.
pub struct ResultNvErrorCodeSharedMemoryTooSmall;

impl ResultBase for ResultNvErrorCodeSharedMemoryTooSmall {
    open spec fn spec_module() -> u32 {
        RESULT_MODULE
    }

    open spec fn spec_description() -> u32 {
        (RESULT_SUBMODULE + 17) as u32
    }

    proof fn lemma_in_range() {
    }

    fn get_module() -> (m: u32) {
        RESULT_MODULE
    }

    fn get_description() -> (d: u32) {
        RESULT_SUBMODULE + 17
    }
}

/// The driver answered `FileOperationFailed`.
pub struct ResultNvErrorCodeFileOperationFailed;

impl ResultBase for ResultNvErrorCodeFileOperationFailed {
    open spec fn spec_module() -> u32 {
        RESULT_MODULE
    }

    open spec fn spec_description() -> u32 {
        (RESULT_SUBMODULE + 18) as u32
    }

    proof fn lemma_in_range() {
    }

    fn get_module() -> (m: u32) {
        RESULT_MODULE
    }

    fn get_description() -> (d: u32) {
        RESULT_SUBMODULE + 18
    }
}

/// The driver answered `IoctlFailed`.
pub struct ResultNvErrorCodeIoctlFailed;

impl ResultBase for ResultNvErrorCodeIoctlFailed {
    open spec fn spec_module() -> u32 {
        RESULT_MODULE
    }

    open spec fn spec_description() -> u32 {
        (RESULT_SUBMODULE + 19) as u32
    }

    proof fn lemma_in_range() {
    }

    fn get_module() -> (m: u32) {
        RESULT_MODULE
    }

    fn get_description() -> (d: u32) {
        RESULT_SUBMODULE + 19
    }
}

} // verus!
