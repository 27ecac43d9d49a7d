//! The result module of this library.

use vstd::prelude::*;

verus! {

/// Result module of every result that this library defines for itself.
pub const RESULT_MODULE: u32 = 430;

} // verus!
