//! Result definitions of the primary protocol.

use vstd::prelude::*;
use crate::result::ResultBase;

verus! {

/// Result module of the primary protocol.
pub const RESULT_MODULE: u32 = 10;

/// The message is too short for the headers it announces.
pub struct ResultInvalidHeaderSize;

impl ResultBase for ResultInvalidHeaderSize {
    open spec fn spec_module() -> u32 {
        RESULT_MODULE
    }

    open spec fn spec_description() -> u32 {
        202
    }

    proof fn lemma_in_range() {
    }

    fn get_module() -> (m: u32) {
        RESULT_MODULE
    }

    fn get_description() -> (d: u32) {
        202
    }
}

/// The data header of a response does not carry the response magic.
pub struct ResultInvalidOutputHeader;

impl ResultBase for ResultInvalidOutputHeader {
    open spec fn spec_module() -> u32 {
        RESULT_MODULE
    }

    open spec fn spec_description() -> u32 {
        212
    }

    proof fn lemma_in_range() {
    }

    fn get_module() -> (m: u32) {
        RESULT_MODULE
    }

    fn get_description() -> (d: u32) {
        212
    }
}

/// A response announces more domain objects than a command can carry.
pub struct ResultInvalidOutObjectCount;

impl ResultBase for ResultInvalidOutObjectCount {
    open spec fn spec_module() -> u32 {
        RESULT_MODULE
    }

    open spec fn spec_description() -> u32 {
        236
    }

    proof fn lemma_in_range() {
    }

    fn get_module() -> (m: u32) {
        RESULT_MODULE
    }

    fn get_description() -> (d: u32) {
        236
    }
}

} // verus!
