//! The service manager: the names under which services are registered.

use crate::ipc::raw::le_value_u64;
use vstd::prelude::*;
use vstd::string::StringSliceAdditionalSpecFns;

verus! {

/// The name of a service: up to eight bytes, zero-filled.
#[derive(Copy, Clone, PartialEq, Eq, Debug)]
pub struct ServiceName {
    pub name: [u8; 8],
}

impl ServiceName {
    /// The eight bytes that stand for the name `text`: its first eight
    /// bytes, or all of them and zeros.
    pub open spec fn bytes_of(text: Seq<u8>) -> Seq<u8> {
        Seq::new(
            8,
            |i: int|
                if i < text.len() {
                    text[i]
                } else {
                    0u8
                },
        )
    }

    /// The name as the number that travels in a command.
    pub open spec fn spec_value(&self) -> u64 {
        le_value_u64(self.name@)
    }

    /// The name of the service `name`; what is beyond eight bytes is cut.
    pub fn new(name: &str) -> (n: Self)
        ensures
            n.name@ == Self::bytes_of(name.spec_bytes()),
    {
        let bytes = name.as_bytes();
        let mut raw: [u8; 8] = [0u8; 8];
        let mut i: usize = 0;
        while i < 8 && i < bytes.len()
            invariant
                i <= 8,
                i <= bytes@.len(),
                forall|j: int| 0 <= j < i ==> raw@[j] == bytes@[j],
                forall|j: int| i <= j < 8 ==> raw@[j] == 0u8,
            decreases 8 - i,
        {
            raw[i] = bytes[i];
            i = i + 1;
        }
        assert(raw@ =~= Self::bytes_of(bytes@));
        Self { name: raw }
    }

    /// The name that names nothing.
    pub fn empty() -> (n: Self)
        ensures
            n.name@ == Self::bytes_of(Seq::<u8>::empty()),
    {
        let n = Self { name: [0u8; 8] };
        assert(n.name@ =~= Self::bytes_of(Seq::<u8>::empty()));
        n
    }

    pub fn is_empty(&self) -> (b: bool)
        ensures
            b == (self.name@[0] == 0),
    {
        self.name[0] == 0
    }
}

} // verus!
