//! Fixed-size strings as they stand in the layouts of commands.

use crate::ipc::sf::string_image;
use vstd::prelude::*;
use vstd::string::StringSliceAdditionalSpecFns;

verus! {

/// A string in `S` bytes: its text, then zeros.
#[derive(Copy, Clone, PartialEq, Eq, Debug)]
pub struct ArrayString<const S: usize> {
    pub c_str: [u8; S],
}

impl<const S: usize> ArrayString<S> {
    /// The empty string.
    pub fn new() -> (s: Self)
        ensures
            s.c_str@ == Seq::new(S as nat, |i: int| 0u8),
    {
        let s = Self { c_str: [0u8; S] };
        assert(s.c_str@ =~= Seq::new(S as nat, |i: int| 0u8));
        s
    }

    /// The string `text`, cut where it does not leave room for a terminator.
    pub fn from_str(text: &str) -> (s: Self)
        requires
            S >= 1,
        ensures
            s.c_str@ == string_image(S as nat, text.spec_bytes()),
    {
        let bytes = text.as_bytes();
        let mut c_str: [u8; S] = [0u8; S];
        let mut i: usize = 0;
        while i < S - 1 && i < bytes.len()
            invariant
                S >= 1,
                i <= S - 1,
                i <= bytes@.len(),
                forall|j: int| 0 <= j < i ==> c_str@[j] == bytes@[j],
                forall|j: int| i <= j < S ==> c_str@[j] == 0u8,
            decreases S - i,
        {
            c_str[i] = bytes[i];
            i = i + 1;
        }
        assert(c_str@ =~= string_image(S as nat, bytes@));
        Self { c_str }
    }

    /// The number of bytes before the first zero, or `S` where there is
    /// none.
    pub fn len(&self) -> (n: usize)
        ensures
            n <= S,
            forall|j: int| 0 <= j < n ==> self.c_str@[j] != 0,
            n < S ==> self.c_str@[n as int] == 0,
    {
        let mut i: usize = 0;
        while i < S && self.c_str[i] != 0
            invariant
                i <= S,
                forall|j: int| 0 <= j < i ==> self.c_str@[j] != 0,
            decreases S - i,
        {
            i = i + 1;
        }
        i
    }
}

/// A string of 16-bit units in `S` units: its text, then zeros.
#[derive(Copy, Clone, PartialEq, Eq, Debug)]
pub struct ArrayWideString<const S: usize> {
    pub c_wstr: [u16; S],
}

impl<const S: usize> ArrayWideString<S> {
    /// The empty string.
    pub fn new() -> (s: Self)
        ensures
            s.c_wstr@ == Seq::new(S as nat, |i: int| 0u16),
    {
        let s = Self { c_wstr: [0u16; S] };
        assert(s.c_wstr@ =~= Seq::new(S as nat, |i: int| 0u16));
        s
    }
}

} // verus!
