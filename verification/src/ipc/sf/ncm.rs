//! The content manager: the ids of programs.

use vstd::prelude::*;

verus! {

/// The id of a program.
#[derive(Copy, Clone, PartialEq, Eq, Structural, Debug)]
pub struct ProgramId(pub u64);

} // verus!
