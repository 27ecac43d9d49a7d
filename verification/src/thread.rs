//! Thread support: the result definitions.

pub mod rc;
