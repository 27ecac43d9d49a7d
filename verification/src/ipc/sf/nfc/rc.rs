//! Result definitions of the NFC services.

use vstd::prelude::*;
use crate::result::ResultBase;

verus! {

/// Result module of the NFC services.
pub const RESULT_MODULE: u32 = 161;

/// No NFC device answers to the handle.
pub struct ResultDeviceNotFound;

impl ResultBase for ResultDeviceNotFound {
    open spec fn spec_module() -> u32 {
        RESULT_MODULE
    }

    open spec fn spec_description() -> u32 {
        64
    }

    proof fn lemma_in_range() {
    }

    fn get_module() -> (m: u32) {
        RESULT_MODULE
    }

    fn get_description() -> (d: u32) {
        64
    }
}

/// An argument is not acceptable.
pub struct ResultWrongArgument;

impl ResultBase for ResultWrongArgument {
    open spec fn spec_module() -> u32 {
        RESULT_MODULE
    }

    open spec fn spec_description() -> u32 {
        65
    }

    proof fn lemma_in_range() {
    }

    fn get_module() -> (m: u32) {
        RESULT_MODULE
    }

    fn get_description() -> (d: u32) {
        65
    }
}

/// The device is not in a state that allows the command.
pub struct ResultWrongDeviceState;

impl ResultBase for ResultWrongDeviceState {
    open spec fn spec_module() -> u32 {
        RESULT_MODULE
    }

    open spec fn spec_description() -> u32 {
        73
    }

    proof fn lemma_in_range() {
    }

    fn get_module() -> (m: u32) {
        RESULT_MODULE
    }

    fn get_description() -> (d: u32) {
        73
    }
}

/// NFC is switched off.
pub struct ResultNFCDisabled;

impl ResultBase for ResultNFCDisabled {
    open spec fn spec_module() -> u32 {
        RESULT_MODULE
    }

    open spec fn spec_description() -> u32 {
        80
    }

    proof fn lemma_in_range() {
    }

    fn get_module() -> (m: u32) {
        RESULT_MODULE
    }

    fn get_description() -> (d: u32) {
        80
    }
}

/// No tag is in range.
pub struct ResultTagNotFound;

impl ResultBase for ResultTagNotFound {
    open spec fn spec_module() -> u32 {
        RESULT_MODULE
    }

    open spec fn spec_description() -> u32 {
        97
    }

    proof fn lemma_in_range() {
    }

    fn get_module() -> (m: u32) {
        RESULT_MODULE
    }

    fn get_description() -> (d: u32) {
        97
    }
}

/// A Mifare sector could not be accessed.
pub struct ResultMifareAccessError;

impl ResultBase for ResultMifareAccessError {
    open spec fn spec_module() -> u32 {
        RESULT_MODULE
    }

    open spec fn spec_description() -> u32 {
        288
    }

    proof fn lemma_in_range() {
    }

    fn get_module() -> (m: u32) {
        RESULT_MODULE
    }

    fn get_description() -> (d: u32) {
        288
    }
}

} // verus!
