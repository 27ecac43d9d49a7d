//! The Mii services: the layouts of their records, as the bytes they take.

use vstd::prelude::*;

verus! {

/// The description of a character.
#[derive(Copy, Clone, PartialEq, Eq, Debug)]
pub struct CharInfo {
    pub data: [u8; 0x58],
}

/// A character as the database stores it.
#[derive(Copy, Clone, PartialEq, Eq, Debug)]
pub struct StoreData {
    pub data: [u8; 0x44],
}

/// A character as version 3 of the database stored it.
#[derive(Copy, Clone, PartialEq, Eq, Debug)]
pub struct Ver3StoreData {
    pub data: [u8; 0x60],
}

/// What a tag stores of a character beyond version 3.
#[derive(Copy, Clone, PartialEq, Eq, Debug)]
pub struct NfpStoreDataExtension {
    pub data: [u8; 0x8],
}

} // verus!
