//! Thread-specific result definitions.

use vstd::prelude::*;
use crate::rc::RESULT_MODULE;
use crate::result::ResultBase;

verus! {

/// Result submodule of the thread results.
pub const RESULT_SUBMODULE: u32 = 900;

/// The stack handed to a thread is not usable.
pub struct ResultInvalidStack;

impl ResultBase for ResultInvalidStack {
    open spec fn spec_module() -> u32 {
        RESULT_MODULE
    }

    open spec fn spec_description() -> u32 {
        (RESULT_SUBMODULE + 1) as u32
    }

    proof fn lemma_in_range() {
    }

    fn get_module() -> (m: u32) {
        RESULT_MODULE
    }

    fn get_description() -> (d: u32) {
        RESULT_SUBMODULE + 1
    }
}

/// The thread is not in a state that allows the operation.
pub struct ResultInvalidState;

impl ResultBase for ResultInvalidState {
    open spec fn spec_module() -> u32 {
        RESULT_MODULE
    }

    open spec fn spec_description() -> u32 {
        (RESULT_SUBMODULE + 2) as u32
    }

    proof fn lemma_in_range() {
    }

    fn get_module() -> (m: u32) {
        RESULT_MODULE
    }

    fn get_description() -> (d: u32) {
        RESULT_SUBMODULE + 2
    }
}

/// The priority is outside the range the kernel accepts.
pub struct ResultInvalidPriority;

impl ResultBase for ResultInvalidPriority {
    open spec fn spec_module() -> u32 {
        RESULT_MODULE
    }

    open spec fn spec_description() -> u32 {
        (RESULT_SUBMODULE + 112) as u32
    }

    proof fn lemma_in_range() {
    }

    fn get_module() -> (m: u32) {
        RESULT_MODULE
    }

    fn get_description() -> (d: u32) {
        RESULT_SUBMODULE + 112
    }
}

} // verus!
