//! The input services: the values of their commands.

use crate::ipc::sf::PrimitiveEnum;
use vstd::prelude::*;

verus! {

/// The places at which a controller can be connected.
#[derive(Copy, Clone, PartialEq, Eq, Structural, Debug)]
pub enum NpadIdType {
    No1,
    No2,
    No3,
    No4,
    No5,
    No6,
    No7,
    No8,
    Other,
    Handheld,
}

impl NpadIdType {
    /// The number that stands for the variant.
    pub open spec fn spec_value(self) -> u32 {
        match self {
            NpadIdType::No1 => 0,
            NpadIdType::No2 => 1,
            NpadIdType::No3 => 2,
            NpadIdType::No4 => 3,
            NpadIdType::No5 => 4,
            NpadIdType::No6 => 5,
            NpadIdType::No7 => 6,
            NpadIdType::No8 => 7,
            NpadIdType::Other => 0x10,
            NpadIdType::Handheld => 0x20,
        }
    }

    /// The variant that `value` stands for, if it stands for one.
    pub open spec fn spec_from_value(value: u32) -> Option<Self> {
        if value == 0 {
            Some(NpadIdType::No1)
        } else if value == 1 {
            Some(NpadIdType::No2)
        } else if value == 2 {
            Some(NpadIdType::No3)
        } else if value == 3 {
            Some(NpadIdType::No4)
        } else if value == 4 {
            Some(NpadIdType::No5)
        } else if value == 5 {
            Some(NpadIdType::No6)
        } else if value == 6 {
            Some(NpadIdType::No7)
        } else if value == 7 {
            Some(NpadIdType::No8)
        } else if value == 0x10 {
            Some(NpadIdType::Other)
        } else if value == 0x20 {
            Some(NpadIdType::Handheld)
        } else {
            None
        }
    }

    pub fn value(self) -> (value: u32)
        ensures
            value == self.spec_value(),
    {
        match self {
            NpadIdType::No1 => 0,
            NpadIdType::No2 => 1,
            NpadIdType::No3 => 2,
            NpadIdType::No4 => 3,
            NpadIdType::No5 => 4,
            NpadIdType::No6 => 5,
            NpadIdType::No7 => 6,
            NpadIdType::No8 => 7,
            NpadIdType::Other => 0x10,
            NpadIdType::Handheld => 0x20,
        }
    }

    /// The variant that `value` stands for, if it stands for one.
    pub fn from_value(value: u32) -> (variant: Option<Self>)
        ensures
            variant == Self::spec_from_value(value),
    {
        if value == 0 {
            Some(NpadIdType::No1)
        } else if value == 1 {
            Some(NpadIdType::No2)
        } else if value == 2 {
            Some(NpadIdType::No3)
        } else if value == 3 {
            Some(NpadIdType::No4)
        } else if value == 4 {
            Some(NpadIdType::No5)
        } else if value == 5 {
            Some(NpadIdType::No6)
        } else if value == 6 {
            Some(NpadIdType::No7)
        } else if value == 7 {
            Some(NpadIdType::No8)
        } else if value == 0x10 {
            Some(NpadIdType::Other)
        } else if value == 0x20 {
            Some(NpadIdType::Handheld)
        } else {
            None
        }
    }
}

impl PrimitiveEnum<u32> for NpadIdType {
    open spec fn spec_to_primitive(self) -> u32 {
        self.spec_value()
    }

    open spec fn spec_from_primitive(value: u32) -> Option<Self> {
        Self::spec_from_value(value)
    }

    proof fn lemma_round_trip(self) {
    }

    fn to_primitive(self) -> (value: u32) {
        self.value()
    }

    fn from_primitive(value: u32) -> (variant: Option<Self>) {
        Self::from_value(value)
    }
}

} // verus!
