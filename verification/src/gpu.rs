//! Graphics support: the layouts that the display driver exchanges, and the
//! order in which a graphics context is set up and torn down.

use crate::ipc::sf::nv;
use crate::ipc::sf::vi::DisplayServiceMode;
use crate::ipc::sf::{PrimitiveEnum, Session};
use crate::result::{code_of, ResultBase, ResultCode};
use crate::svc::{Handle, CURRENT_PROCESS_PSEUDO_HANDLE};
use vstd::prelude::*;

pub mod rc;

verus! {

/// Represents layout types
#[derive(Copy, Clone, PartialEq, Eq, Structural, Debug)]
pub enum Layout {
    Invalid,
    Pitch,
    Tiled,
    BlockLinear,
}

impl Layout {
    /// The number that stands for the variant.
    pub open spec fn spec_value(self) -> u32 {
        match self {
            Layout::Invalid => 0,
            Layout::Pitch => 1,
            Layout::Tiled => 2,
            Layout::BlockLinear => 3,
        }
    }

    /// The variant that `value` stands for, if it stands for one.
    pub open spec fn spec_from_value(value: u32) -> Option<Self> {
        if value == 0 {
            Some(Layout::Invalid)
        } else if value == 1 {
            Some(Layout::Pitch)
        } else if value == 2 {
            Some(Layout::Tiled)
        } else if value == 3 {
            Some(Layout::BlockLinear)
        } else {
            None
        }
    }

    pub fn value(self) -> (value: u32)
        ensures
            value == self.spec_value(),
    {
        match self {
            Layout::Invalid => 0,
            Layout::Pitch => 1,
            Layout::Tiled => 2,
            Layout::BlockLinear => 3,
        }
    }

    /// The variant that `value` stands for, if it stands for one.
    pub fn from_value(value: u32) -> (variant: Option<Self>)
        ensures
            variant == Self::spec_from_value(value),
    {
        if value == 0 {
            Some(Layout::Invalid)
        } else if value == 1 {
            Some(Layout::Pitch)
        } else if value == 2 {
            Some(Layout::Tiled)
        } else if value == 3 {
            Some(Layout::BlockLinear)
        } else {
            None
        }
    }
}

impl Default for Layout {
    fn default() -> (variant: Self)
        ensures
            variant == Layout::Invalid,
    {
        Layout::Invalid
    }
}

impl PrimitiveEnum<u32> for Layout {
    open spec fn spec_to_primitive(self) -> u32 {
        self.spec_value()
    }

    open spec fn spec_from_primitive(value: u32) -> Option<Self> {
        Self::spec_from_value(value)
    }

    proof fn lemma_round_trip(self) {
    }

    fn to_primitive(self) -> (value: u32) {
        self.value()
    }

    fn from_primitive(value: u32) -> (variant: Option<Self>) {
        Self::from_value(value)
    }
}

/// Represents display scan format types
#[derive(Copy, Clone, PartialEq, Eq, Structural, Debug)]
pub enum DisplayScanFormat {
    Progressive,
    Interlaced,
}

impl DisplayScanFormat {
    /// The number that stands for the variant.
    pub open spec fn spec_value(self) -> u32 {
        match self {
            DisplayScanFormat::Progressive => 0,
            DisplayScanFormat::Interlaced => 1,
        }
    }

    /// The variant that `value` stands for, if it stands for one.
    pub open spec fn spec_from_value(value: u32) -> Option<Self> {
        if value == 0 {
            Some(DisplayScanFormat::Progressive)
        } else if value == 1 {
            Some(DisplayScanFormat::Interlaced)
        } else {
            None
        }
    }

    pub fn value(self) -> (value: u32)
        ensures
            value == self.spec_value(),
    {
        match self {
            DisplayScanFormat::Progressive => 0,
            DisplayScanFormat::Interlaced => 1,
        }
    }

    /// The variant that `value` stands for, if it stands for one.
    pub fn from_value(value: u32) -> (variant: Option<Self>)
        ensures
            variant == Self::spec_from_value(value),
    {
        if value == 0 {
            Some(DisplayScanFormat::Progressive)
        } else if value == 1 {
            Some(DisplayScanFormat::Interlaced)
        } else {
            None
        }
    }
}

impl Default for DisplayScanFormat {
    fn default() -> (variant: Self)
        ensures
            variant == DisplayScanFormat::Progressive,
    {
        DisplayScanFormat::Progressive
    }
}

impl PrimitiveEnum<u32> for DisplayScanFormat {
    open spec fn spec_to_primitive(self) -> u32 {
        self.spec_value()
    }

    open spec fn spec_from_primitive(value: u32) -> Option<Self> {
        Self::spec_from_value(value)
    }

    proof fn lemma_round_trip(self) {
    }

    fn to_primitive(self) -> (value: u32) {
        self.value()
    }

    fn from_primitive(value: u32) -> (variant: Option<Self>) {
        Self::from_value(value)
    }
}

/// Represents kinds
#[allow(non_camel_case_types)]
#[derive(Copy, Clone, PartialEq, Eq, Structural, Debug)]
pub enum Kind {
    Pitch,
    Z16,
    Z16_2C,
    Z16_MS2_2C,
    Z16_MS4_2C,
    Z16_MS8_2C,
    Z16_MS16_2C,
    Z16_2Z,
    Z16_MS2_2Z,
    Z16_MS4_2Z,
    Z16_MS8_2Z,
    Z16_MS16_2Z,
    Z16_4CZ,
    Z16_MS2_4CZ,
    Z16_MS4_4CZ,
    Z16_MS8_4CZ,
    Z16_MS16_4CZ,
    S8Z24,
    S8Z24_1Z,
    S8Z24_MS2_1Z,
    S8Z24_MS4_1Z,
    S8Z24_MS8_1Z,
    S8Z24_MS16_1Z,
    S8Z24_2CZ,
    S8Z24_MS2_2CZ,
    S8Z24_MS4_2CZ,
    S8Z24_MS8_2CZ,
    S8Z24_MS16_2CZ,
    S8Z24_2CS,
    S8Z24_MS2_2CS,
    S8Z24_MS4_2CS,
    S8Z24_MS8_2CS,
    S8Z24_MS16_2CS,
    S8Z24_4CSZV,
    S8Z24_MS2_4CSZV,
    S8Z24_MS4_4CSZV,
    S8Z24_MS8_4CSZV,
    S8Z24_MS16_4CSZV,
    V8Z24_MS4_VC12,
    V8Z24_MS4_VC4,
    V8Z24_MS8_VC8,
    V8Z24_MS8_VC24,
    S8,
    S8_2S,
    V8Z24_MS4_VC12_1ZV,
    V8Z24_MS4_VC4_1ZV,
    V8Z24_MS8_VC8_1ZV,
    V8Z24_MS8_VC24_1ZV,
    V8Z24_MS4_VC12_2CS,
    V8Z24_MS4_VC4_2CS,
    V8Z24_MS8_VC8_2CS,
    V8Z24_MS8_VC24_2CS,
    V8Z24_MS4_VC12_2CZV,
    V8Z24_MS4_VC4_2CZV,
    V8Z24_MS8_VC8_2CZV,
    V8Z24_MS8_VC24_2CZV,
    V8Z24_MS4_VC12_2ZV,
    V8Z24_MS4_VC4_2ZV,
    V8Z24_MS8_VC8_2ZV,
    V8Z24_MS8_VC24_2ZV,
    V8Z24_MS4_VC12_4CSZV,
    V8Z24_MS4_VC4_4CSZV,
    V8Z24_MS8_VC8_4CSZV,
    V8Z24_MS8_VC24_4CSZV,
    Z24S8,
    Z24S8_1Z,
    Z24S8_MS2_1Z,
    Z24S8_MS4_1Z,
    Z24S8_MS8_1Z,
    Z24S8_MS16_1Z,
    Z24S8_2CS,
    Z24S8_MS2_2CS,
    Z24S8_MS4_2CS,
    Z24S8_MS8_2CS,
    Z24S8_MS16_2CS,
    Z24S8_2CZ,
    Z24S8_MS2_2CZ,
    Z24S8_MS4_2CZ,
    Z24S8_MS8_2CZ,
    Z24S8_MS16_2CZ,
    Z24S8_4CSZV,
    Z24S8_MS2_4CSZV,
    Z24S8_MS4_4CSZV,
    Z24S8_MS8_4CSZV,
    Z24S8_MS16_4CSZV,
    Z24V8_MS4_VC12,
    Z24V8_MS4_VC4,
    Z24V8_MS8_VC8,
    Z24V8_MS8_VC24,
    Z24V8_MS4_VC12_1ZV,
    Z24V8_MS4_VC4_1ZV,
    Z24V8_MS8_VC8_1ZV,
    Z24V8_MS8_VC24_1ZV,
    Z24V8_MS4_VC12_2CS,
    Z24V8_MS4_VC4_2CS,
    Z24V8_MS8_VC8_2CS,
    Z24V8_MS8_VC24_2CS,
    Z24V8_MS4_VC12_2CZV,
    Z24V8_MS4_VC4_2CZV,
    Z24V8_MS8_VC8_2CZV,
    Z24V8_MS8_VC24_2CZV,
    Z24V8_MS4_VC12_2ZV,
    Z24V8_MS4_VC4_2ZV,
    Z24V8_MS8_VC8_2ZV,
    Z24V8_MS8_VC24_2ZV,
    Z24V8_MS4_VC12_4CSZV,
    Z24V8_MS4_VC4_4CSZV,
    Z24V8_MS8_VC8_4CSZV,
    Z24V8_MS8_VC24_4CSZV,
    ZF32,
    ZF32_1Z,
    ZF32_MS2_1Z,
    ZF32_MS4_1Z,
    ZF32_MS8_1Z,
    ZF32_MS16_1Z,
    ZF32_2CS,
    ZF32_MS2_2CS,
    ZF32_MS4_2CS,
    ZF32_MS8_2CS,
    ZF32_MS16_2CS,
    ZF32_2CZ,
    ZF32_MS2_2CZ,
    ZF32_MS4_2CZ,
    ZF32_MS8_2CZ,
    ZF32_MS16_2CZ,
    X8Z24_X16V8S8_MS4_VC12,
    X8Z24_X16V8S8_MS4_VC4,
    X8Z24_X16V8S8_MS8_VC8,
    X8Z24_X16V8S8_MS8_VC24,
    X8Z24_X16V8S8_MS4_VC12_1CS,
    X8Z24_X16V8S8_MS4_VC4_1CS,
    X8Z24_X16V8S8_MS8_VC8_1CS,
    X8Z24_X16V8S8_MS8_VC24_1CS,
    X8Z24_X16V8S8_MS4_VC12_1ZV,
    X8Z24_X16V8S8_MS4_VC4_1ZV,
    X8Z24_X16V8S8_MS8_VC8_1ZV,
    X8Z24_X16V8S8_MS8_VC24_1ZV,
    X8Z24_X16V8S8_MS4_VC12_1CZV,
    X8Z24_X16V8S8_MS4_VC4_1CZV,
    X8Z24_X16V8S8_MS8_VC8_1CZV,
    X8Z24_X16V8S8_MS8_VC24_1CZV,
    X8Z24_X16V8S8_MS4_VC12_2CS,
    X8Z24_X16V8S8_MS4_VC4_2CS,
    X8Z24_X16V8S8_MS8_VC8_2CS,
    X8Z24_X16V8S8_MS8_VC24_2CS,
    X8Z24_X16V8S8_MS4_VC12_2CSZV,
    X8Z24_X16V8S8_MS4_VC4_2CSZV,
    X8Z24_X16V8S8_MS8_VC8_2CSZV,
    X8Z24_X16V8S8_MS8_VC24_2CSZV,
    ZF32_X16V8S8_MS4_VC12,
    ZF32_X16V8S8_MS4_VC4,
    ZF32_X16V8S8_MS8_VC8,
    ZF32_X16V8S8_MS8_VC24,
    ZF32_X16V8S8_MS4_VC12_1CS,
    ZF32_X16V8S8_MS4_VC4_1CS,
    ZF32_X16V8S8_MS8_VC8_1CS,
    ZF32_X16V8S8_MS8_VC24_1CS,
    ZF32_X16V8S8_MS4_VC12_1ZV,
    ZF32_X16V8S8_MS4_VC4_1ZV,
    ZF32_X16V8S8_MS8_VC8_1ZV,
    ZF32_X16V8S8_MS8_VC24_1ZV,
    ZF32_X16V8S8_MS4_VC12_1CZV,
    ZF32_X16V8S8_MS4_VC4_1CZV,
    ZF32_X16V8S8_MS8_VC8_1CZV,
    ZF32_X16V8S8_MS8_VC24_1CZV,
    ZF32_X16V8S8_MS4_VC12_2CS,
    ZF32_X16V8S8_MS4_VC4_2CS,
    ZF32_X16V8S8_MS8_VC8_2CS,
    ZF32_X16V8S8_MS8_VC24_2CS,
    ZF32_X16V8S8_MS4_VC12_2CSZV,
    ZF32_X16V8S8_MS4_VC4_2CSZV,
    ZF32_X16V8S8_MS8_VC8_2CSZV,
    ZF32_X16V8S8_MS8_VC24_2CSZV,
    ZF32_X24S8,
    ZF32_X24S8_1CS,
    ZF32_X24S8_MS2_1CS,
    ZF32_X24S8_MS4_1CS,
    ZF32_X24S8_MS8_1CS,
    ZF32_X24S8_MS16_1CS,
    SmskedMessage,
    SmhostMessage,
    C64_MS2_2CRA,
    ZF32_X24S8_2CSZV,
    ZF32_X24S8_MS2_2CSZV,
    ZF32_X24S8_MS4_2CSZV,
    ZF32_X24S8_MS8_2CSZV,
    ZF32_X24S8_MS16_2CSZV,
    ZF32_X24S8_2CS,
    ZF32_X24S8_MS2_2CS,
    ZF32_X24S8_MS4_2CS,
    ZF32_X24S8_MS8_2CS,
    ZF32_X24S8_MS16_2CS,
    C32_2C,
    C32_2CBR,
    C32_2CBA,
    C32_2CRA,
    C32_2BRA,
    C32_MS2_2C,
    C32_MS2_2CBR,
    C32_MS2_2CRA,
    C32_MS4_2C,
    C32_MS4_2CBR,
    C32_MS4_2CBA,
    C32_MS4_2CRA,
    C32_MS4_2BRA,
    C32_MS8_MS16_2C,
    C32_MS8_MS16_2CRA,
    C64_2C,
    C64_2CBR,
    C64_2CBA,
    C64_2CRA,
    C64_2BRA,
    C64_MS2_2C,
    C64_MS2_2CBR,
    C64_MS4_2C,
    C64_MS4_2CBR,
    C64_MS4_2CBA,
    C64_MS4_2CRA,
    C64_MS4_2BRA,
    C64_MS8_MS16_2C,
    C64_MS8_MS16_2CRA,
    C128_2C,
    C128_2CR,
    C128_MS2_2C,
    C128_MS2_2CR,
    C128_MS4_2C,
    C128_MS4_2CR,
    C128_MS8_MS16_2C,
    C128_MS8_MS16_2CR,
    X8C24,
    PitchNoSwizzle,
    Generic_16BX2,
    Invalid,
}

impl Kind {
    /// The number that stands for the variant.
    pub open spec fn spec_value(self) -> u32 {
        match self {
            Kind::Pitch => 0,
            Kind::Z16 => 1,
            Kind::Z16_2C => 2,
            Kind::Z16_MS2_2C => 3,
            Kind::Z16_MS4_2C => 4,
            Kind::Z16_MS8_2C => 5,
            Kind::Z16_MS16_2C => 6,
            Kind::Z16_2Z => 7,
            Kind::Z16_MS2_2Z => 8,
            Kind::Z16_MS4_2Z => 9,
            Kind::Z16_MS8_2Z => 0xa,
            Kind::Z16_MS16_2Z => 0xb,
            Kind::Z16_4CZ => 0xc,
            Kind::Z16_MS2_4CZ => 0xd,
            Kind::Z16_MS4_4CZ => 0xe,
            Kind::Z16_MS8_4CZ => 0xf,
            Kind::Z16_MS16_4CZ => 0x10,
            Kind::S8Z24 => 0x11,
            Kind::S8Z24_1Z => 0x12,
            Kind::S8Z24_MS2_1Z => 0x13,
            Kind::S8Z24_MS4_1Z => 0x14,
            Kind::S8Z24_MS8_1Z => 0x15,
            Kind::S8Z24_MS16_1Z => 0x16,
            Kind::S8Z24_2CZ => 0x17,
            Kind::S8Z24_MS2_2CZ => 0x18,
            Kind::S8Z24_MS4_2CZ => 0x19,
            Kind::S8Z24_MS8_2CZ => 0x1a,
            Kind::S8Z24_MS16_2CZ => 0x1b,
            Kind::S8Z24_2CS => 0x1c,
            Kind::S8Z24_MS2_2CS => 0x1d,
            Kind::S8Z24_MS4_2CS => 0x1e,
            Kind::S8Z24_MS8_2CS => 0x1f,
            Kind::S8Z24_MS16_2CS => 0x20,
            Kind::S8Z24_4CSZV => 0x21,
            Kind::S8Z24_MS2_4CSZV => 0x22,
            Kind::S8Z24_MS4_4CSZV => 0x23,
            Kind::S8Z24_MS8_4CSZV => 0x24,
            Kind::S8Z24_MS16_4CSZV => 0x25,
            Kind::V8Z24_MS4_VC12 => 0x26,
            Kind::V8Z24_MS4_VC4 => 0x27,
            Kind::V8Z24_MS8_VC8 => 0x28,
            Kind::V8Z24_MS8_VC24 => 0x29,
            Kind::S8 => 0x2a,
            Kind::S8_2S => 0x2b,
            Kind::V8Z24_MS4_VC12_1ZV => 0x2e,
            Kind::V8Z24_MS4_VC4_1ZV => 0x2f,
            Kind::V8Z24_MS8_VC8_1ZV => 0x30,
            Kind::V8Z24_MS8_VC24_1ZV => 0x31,
            Kind::V8Z24_MS4_VC12_2CS => 0x32,
            Kind::V8Z24_MS4_VC4_2CS => 0x33,
            Kind::V8Z24_MS8_VC8_2CS => 0x34,
            Kind::V8Z24_MS8_VC24_2CS => 0x35,
            Kind::V8Z24_MS4_VC12_2CZV => 0x3a,
            Kind::V8Z24_MS4_VC4_2CZV => 0x3b,
            Kind::V8Z24_MS8_VC8_2CZV => 0x3c,
            Kind::V8Z24_MS8_VC24_2CZV => 0x3d,
            Kind::V8Z24_MS4_VC12_2ZV => 0x3e,
            Kind::V8Z24_MS4_VC4_2ZV => 0x3f,
            Kind::V8Z24_MS8_VC8_2ZV => 0x40,
            Kind::V8Z24_MS8_VC24_2ZV => 0x41,
            Kind::V8Z24_MS4_VC12_4CSZV => 0x42,
            Kind::V8Z24_MS4_VC4_4CSZV => 0x43,
            Kind::V8Z24_MS8_VC8_4CSZV => 0x44,
            Kind::V8Z24_MS8_VC24_4CSZV => 0x45,
            Kind::Z24S8 => 0x46,
            Kind::Z24S8_1Z => 0x47,
            Kind::Z24S8_MS2_1Z => 0x48,
            Kind::Z24S8_MS4_1Z => 0x49,
            Kind::Z24S8_MS8_1Z => 0x4a,
            Kind::Z24S8_MS16_1Z => 0x4b,
            Kind::Z24S8_2CS => 0x4c,
            Kind::Z24S8_MS2_2CS => 0x4d,
            Kind::Z24S8_MS4_2CS => 0x4e,
            Kind::Z24S8_MS8_2CS => 0x4f,
            Kind::Z24S8_MS16_2CS => 0x50,
            Kind::Z24S8_2CZ => 0x51,
            Kind::Z24S8_MS2_2CZ => 0x52,
            Kind::Z24S8_MS4_2CZ => 0x53,
            Kind::Z24S8_MS8_2CZ => 0x54,
            Kind::Z24S8_MS16_2CZ => 0x55,
            Kind::Z24S8_4CSZV => 0x56,
            Kind::Z24S8_MS2_4CSZV => 0x57,
            Kind::Z24S8_MS4_4CSZV => 0x58,
            Kind::Z24S8_MS8_4CSZV => 0x59,
            Kind::Z24S8_MS16_4CSZV => 0x5a,
            Kind::Z24V8_MS4_VC12 => 0x5b,
            Kind::Z24V8_MS4_VC4 => 0x5c,
            Kind::Z24V8_MS8_VC8 => 0x5d,
            Kind::Z24V8_MS8_VC24 => 0x5e,
            Kind::Z24V8_MS4_VC12_1ZV => 0x63,
            Kind::Z24V8_MS4_VC4_1ZV => 0x64,
            Kind::Z24V8_MS8_VC8_1ZV => 0x65,
            Kind::Z24V8_MS8_VC24_1ZV => 0x66,
            Kind::Z24V8_MS4_VC12_2CS => 0x67,
            Kind::Z24V8_MS4_VC4_2CS => 0x68,
            Kind::Z24V8_MS8_VC8_2CS => 0x69,
            Kind::Z24V8_MS8_VC24_2CS => 0x6a,
            Kind::Z24V8_MS4_VC12_2CZV => 0x6f,
            Kind::Z24V8_MS4_VC4_2CZV => 0x70,
            Kind::Z24V8_MS8_VC8_2CZV => 0x71,
            Kind::Z24V8_MS8_VC24_2CZV => 0x72,
            Kind::Z24V8_MS4_VC12_2ZV => 0x73,
            Kind::Z24V8_MS4_VC4_2ZV => 0x74,
            Kind::Z24V8_MS8_VC8_2ZV => 0x75,
            Kind::Z24V8_MS8_VC24_2ZV => 0x76,
            Kind::Z24V8_MS4_VC12_4CSZV => 0x77,
            Kind::Z24V8_MS4_VC4_4CSZV => 0x78,
            Kind::Z24V8_MS8_VC8_4CSZV => 0x79,
            Kind::Z24V8_MS8_VC24_4CSZV => 0x7a,
            Kind::ZF32 => 0x7b,
            Kind::ZF32_1Z => 0x7c,
            Kind::ZF32_MS2_1Z => 0x7d,
            Kind::ZF32_MS4_1Z => 0x7e,
            Kind::ZF32_MS8_1Z => 0x7f,
            Kind::ZF32_MS16_1Z => 0x80,
            Kind::ZF32_2CS => 0x81,
            Kind::ZF32_MS2_2CS => 0x82,
            Kind::ZF32_MS4_2CS => 0x83,
            Kind::ZF32_MS8_2CS => 0x84,
            Kind::ZF32_MS16_2CS => 0x85,
            Kind::ZF32_2CZ => 0x86,
            Kind::ZF32_MS2_2CZ => 0x87,
            Kind::ZF32_MS4_2CZ => 0x88,
            Kind::ZF32_MS8_2CZ => 0x89,
            Kind::ZF32_MS16_2CZ => 0x8a,
            Kind::X8Z24_X16V8S8_MS4_VC12 => 0x8b,
            Kind::X8Z24_X16V8S8_MS4_VC4 => 0x8c,
            Kind::X8Z24_X16V8S8_MS8_VC8 => 0x8d,
            Kind::X8Z24_X16V8S8_MS8_VC24 => 0x8e,
            Kind::X8Z24_X16V8S8_MS4_VC12_1CS => 0x8f,
            Kind::X8Z24_X16V8S8_MS4_VC4_1CS => 0x90,
            Kind::X8Z24_X16V8S8_MS8_VC8_1CS => 0x91,
            Kind::X8Z24_X16V8S8_MS8_VC24_1CS => 0x92,
            Kind::X8Z24_X16V8S8_MS4_VC12_1ZV => 0x97,
            Kind::X8Z24_X16V8S8_MS4_VC4_1ZV => 0x98,
            Kind::X8Z24_X16V8S8_MS8_VC8_1ZV => 0x99,
            Kind::X8Z24_X16V8S8_MS8_VC24_1ZV => 0x9a,
            Kind::X8Z24_X16V8S8_MS4_VC12_1CZV => 0x9b,
            Kind::X8Z24_X16V8S8_MS4_VC4_1CZV => 0x9c,
            Kind::X8Z24_X16V8S8_MS8_VC8_1CZV => 0x9d,
            Kind::X8Z24_X16V8S8_MS8_VC24_1CZV => 0x9e,
            Kind::X8Z24_X16V8S8_MS4_VC12_2CS => 0x9f,
            Kind::X8Z24_X16V8S8_MS4_VC4_2CS => 0xa0,
            Kind::X8Z24_X16V8S8_MS8_VC8_2CS => 0xa1,
            Kind::X8Z24_X16V8S8_MS8_VC24_2CS => 0xa2,
            Kind::X8Z24_X16V8S8_MS4_VC12_2CSZV => 0xa3,
            Kind::X8Z24_X16V8S8_MS4_VC4_2CSZV => 0xa4,
            Kind::X8Z24_X16V8S8_MS8_VC8_2CSZV => 0xa5,
            Kind::X8Z24_X16V8S8_MS8_VC24_2CSZV => 0xa6,
            Kind::ZF32_X16V8S8_MS4_VC12 => 0xa7,
            Kind::ZF32_X16V8S8_MS4_VC4 => 0xa8,
            Kind::ZF32_X16V8S8_MS8_VC8 => 0xa9,
            Kind::ZF32_X16V8S8_MS8_VC24 => 0xaa,
            Kind::ZF32_X16V8S8_MS4_VC12_1CS => 0xab,
            Kind::ZF32_X16V8S8_MS4_VC4_1CS => 0xac,
            Kind::ZF32_X16V8S8_MS8_VC8_1CS => 0xad,
            Kind::ZF32_X16V8S8_MS8_VC24_1CS => 0xae,
            Kind::ZF32_X16V8S8_MS4_VC12_1ZV => 0xb3,
            Kind::ZF32_X16V8S8_MS4_VC4_1ZV => 0xb4,
            Kind::ZF32_X16V8S8_MS8_VC8_1ZV => 0xb5,
            Kind::ZF32_X16V8S8_MS8_VC24_1ZV => 0xb6,
            Kind::ZF32_X16V8S8_MS4_VC12_1CZV => 0xb7,
            Kind::ZF32_X16V8S8_MS4_VC4_1CZV => 0xb8,
            Kind::ZF32_X16V8S8_MS8_VC8_1CZV => 0xb9,
            Kind::ZF32_X16V8S8_MS8_VC24_1CZV => 0xba,
            Kind::ZF32_X16V8S8_MS4_VC12_2CS => 0xbb,
            Kind::ZF32_X16V8S8_MS4_VC4_2CS => 0xbc,
            Kind::ZF32_X16V8S8_MS8_VC8_2CS => 0xbd,
            Kind::ZF32_X16V8S8_MS8_VC24_2CS => 0xbe,
            Kind::ZF32_X16V8S8_MS4_VC12_2CSZV => 0xbf,
            Kind::ZF32_X16V8S8_MS4_VC4_2CSZV => 0xc0,
            Kind::ZF32_X16V8S8_MS8_VC8_2CSZV => 0xc1,
            Kind::ZF32_X16V8S8_MS8_VC24_2CSZV => 0xc2,
            Kind::ZF32_X24S8 => 0xc3,
            Kind::ZF32_X24S8_1CS => 0xc4,
            Kind::ZF32_X24S8_MS2_1CS => 0xc5,
            Kind::ZF32_X24S8_MS4_1CS => 0xc6,
            Kind::ZF32_X24S8_MS8_1CS => 0xc7,
            Kind::ZF32_X24S8_MS16_1CS => 0xc8,
            Kind::SmskedMessage => 0xca,
            Kind::SmhostMessage => 0xcb,
            Kind::C64_MS2_2CRA => 0xcd,
            Kind::ZF32_X24S8_2CSZV => 0xce,
            Kind::ZF32_X24S8_MS2_2CSZV => 0xcf,
            Kind::ZF32_X24S8_MS4_2CSZV => 0xd0,
            Kind::ZF32_X24S8_MS8_2CSZV => 0xd1,
            Kind::ZF32_X24S8_MS16_2CSZV => 0xd2,
            Kind::ZF32_X24S8_2CS => 0xd3,
            Kind::ZF32_X24S8_MS2_2CS => 0xd4,
            Kind::ZF32_X24S8_MS4_2CS => 0xd5,
            Kind::ZF32_X24S8_MS8_2CS => 0xd6,
            Kind::ZF32_X24S8_MS16_2CS => 0xd7,
            Kind::C32_2C => 0xd8,
            Kind::C32_2CBR => 0xd9,
            Kind::C32_2CBA => 0xda,
            Kind::C32_2CRA => 0xdb,
            Kind::C32_2BRA => 0xdc,
            Kind::C32_MS2_2C => 0xdd,
            Kind::C32_MS2_2CBR => 0xde,
            Kind::C32_MS2_2CRA => 0xcc,
            Kind::C32_MS4_2C => 0xdf,
            Kind::C32_MS4_2CBR => 0xe0,
            Kind::C32_MS4_2CBA => 0xe1,
            Kind::C32_MS4_2CRA => 0xe2,
            Kind::C32_MS4_2BRA => 0xe3,
            Kind::C32_MS8_MS16_2C => 0xe4,
            Kind::C32_MS8_MS16_2CRA => 0xe5,
            Kind::C64_2C => 0xe6,
            Kind::C64_2CBR => 0xe7,
            Kind::C64_2CBA => 0xe8,
            Kind::C64_2CRA => 0xe9,
            Kind::C64_2BRA => 0xea,
            Kind::C64_MS2_2C => 0xeb,
            Kind::C64_MS2_2CBR => 0xec,
            Kind::C64_MS4_2C => 0xed,
            Kind::C64_MS4_2CBR => 0xee,
            Kind::C64_MS4_2CBA => 0xef,
            Kind::C64_MS4_2CRA => 0xf0,
            Kind::C64_MS4_2BRA => 0xf1,
            Kind::C64_MS8_MS16_2C => 0xf2,
            Kind::C64_MS8_MS16_2CRA => 0xf3,
            Kind::C128_2C => 0xf4,
            Kind::C128_2CR => 0xf5,
            Kind::C128_MS2_2C => 0xf6,
            Kind::C128_MS2_2CR => 0xf7,
            Kind::C128_MS4_2C => 0xf8,
            Kind::C128_MS4_2CR => 0xf9,
            Kind::C128_MS8_MS16_2C => 0xfa,
            Kind::C128_MS8_MS16_2CR => 0xfb,
            Kind::X8C24 => 0xfc,
            Kind::PitchNoSwizzle => 0xfd,
            Kind::Generic_16BX2 => 0xfe,
            Kind::Invalid => 0xff,
        }
    }

    /// The variant that `value` stands for, if it stands for one.
    pub open spec fn spec_from_value(value: u32) -> Option<Self> {
        if value == 0 {
            Some(Kind::Pitch)
        } else if value == 1 {
            Some(Kind::Z16)
        } else if value == 2 {
            Some(Kind::Z16_2C)
        } else if value == 3 {
            Some(Kind::Z16_MS2_2C)
        } else if value == 4 {
            Some(Kind::Z16_MS4_2C)
        } else if value == 5 {
            Some(Kind::Z16_MS8_2C)
        } else if value == 6 {
            Some(Kind::Z16_MS16_2C)
        } else if value == 7 {
            Some(Kind::Z16_2Z)
        } else if value == 8 {
            Some(Kind::Z16_MS2_2Z)
        } else if value == 9 {
            Some(Kind::Z16_MS4_2Z)
        } else if value == 0xa {
            Some(Kind::Z16_MS8_2Z)
        } else if value == 0xb {
            Some(Kind::Z16_MS16_2Z)
        } else if value == 0xc {
            Some(Kind::Z16_4CZ)
        } else if value == 0xd {
            Some(Kind::Z16_MS2_4CZ)
        } else if value == 0xe {
            Some(Kind::Z16_MS4_4CZ)
        } else if value == 0xf {
            Some(Kind::Z16_MS8_4CZ)
        } else if value == 0x10 {
            Some(Kind::Z16_MS16_4CZ)
        } else if value == 0x11 {
            Some(Kind::S8Z24)
        } else if value == 0x12 {
            Some(Kind::S8Z24_1Z)
        } else if value == 0x13 {
            Some(Kind::S8Z24_MS2_1Z)
        } else if value == 0x14 {
            Some(Kind::S8Z24_MS4_1Z)
        } else if value == 0x15 {
            Some(Kind::S8Z24_MS8_1Z)
        } else if value == 0x16 {
            Some(Kind::S8Z24_MS16_1Z)
        } else if value == 0x17 {
            Some(Kind::S8Z24_2CZ)
        } else if value == 0x18 {
            Some(Kind::S8Z24_MS2_2CZ)
        } else if value == 0x19 {
            Some(Kind::S8Z24_MS4_2CZ)
        } else if value == 0x1a {
            Some(Kind::S8Z24_MS8_2CZ)
        } else if value == 0x1b {
            Some(Kind::S8Z24_MS16_2CZ)
        } else if value == 0x1c {
            Some(Kind::S8Z24_2CS)
        } else if value == 0x1d {
            Some(Kind::S8Z24_MS2_2CS)
        } else if value == 0x1e {
            Some(Kind::S8Z24_MS4_2CS)
        } else if value == 0x1f {
            Some(Kind::S8Z24_MS8_2CS)
        } else if value == 0x20 {
            Some(Kind::S8Z24_MS16_2CS)
        } else if value == 0x21 {
            Some(Kind::S8Z24_4CSZV)
        } else if value == 0x22 {
            Some(Kind::S8Z24_MS2_4CSZV)
        } else if value == 0x23 {
            Some(Kind::S8Z24_MS4_4CSZV)
        } else if value == 0x24 {
            Some(Kind::S8Z24_MS8_4CSZV)
        } else if value == 0x25 {
            Some(Kind::S8Z24_MS16_4CSZV)
        } else if value == 0x26 {
            Some(Kind::V8Z24_MS4_VC12)
        } else if value == 0x27 {
            Some(Kind::V8Z24_MS4_VC4)
        } else if value == 0x28 {
            Some(Kind::V8Z24_MS8_VC8)
        } else if value == 0x29 {
            Some(Kind::V8Z24_MS8_VC24)
        } else if value == 0x2a {
            Some(Kind::S8)
        } else if value == 0x2b {
            Some(Kind::S8_2S)
        } else if value == 0x2e {
            Some(Kind::V8Z24_MS4_VC12_1ZV)
        } else if value == 0x2f {
            Some(Kind::V8Z24_MS4_VC4_1ZV)
        } else if value == 0x30 {
            Some(Kind::V8Z24_MS8_VC8_1ZV)
        } else if value == 0x31 {
            Some(Kind::V8Z24_MS8_VC24_1ZV)
        } else if value == 0x32 {
            Some(Kind::V8Z24_MS4_VC12_2CS)
        } else if value == 0x33 {
            Some(Kind::V8Z24_MS4_VC4_2CS)
        } else if value == 0x34 {
            Some(Kind::V8Z24_MS8_VC8_2CS)
        } else if value == 0x35 {
            Some(Kind::V8Z24_MS8_VC24_2CS)
        } else if value == 0x3a {
            Some(Kind::V8Z24_MS4_VC12_2CZV)
        } else if value == 0x3b {
            Some(Kind::V8Z24_MS4_VC4_2CZV)
        } else if value == 0x3c {
            Some(Kind::V8Z24_MS8_VC8_2CZV)
        } else if value == 0x3d {
            Some(Kind::V8Z24_MS8_VC24_2CZV)
        } else if value == 0x3e {
            Some(Kind::V8Z24_MS4_VC12_2ZV)
        } else if value == 0x3f {
            Some(Kind::V8Z24_MS4_VC4_2ZV)
        } else if value == 0x40 {
            Some(Kind::V8Z24_MS8_VC8_2ZV)
        } else if value == 0x41 {
            Some(Kind::V8Z24_MS8_VC24_2ZV)
        } else if value == 0x42 {
            Some(Kind::V8Z24_MS4_VC12_4CSZV)
        } else if value == 0x43 {
            Some(Kind::V8Z24_MS4_VC4_4CSZV)
        } else if value == 0x44 {
            Some(Kind::V8Z24_MS8_VC8_4CSZV)
        } else if value == 0x45 {
            Some(Kind::V8Z24_MS8_VC24_4CSZV)
        } else if value == 0x46 {
            Some(Kind::Z24S8)
        } else if value == 0x47 {
            Some(Kind::Z24S8_1Z)
        } else if value == 0x48 {
            Some(Kind::Z24S8_MS2_1Z)
        } else if value == 0x49 {
            Some(Kind::Z24S8_MS4_1Z)
        } else if value == 0x4a {
            Some(Kind::Z24S8_MS8_1Z)
        } else if value == 0x4b {
            Some(Kind::Z24S8_MS16_1Z)
        } else if value == 0x4c {
            Some(Kind::Z24S8_2CS)
        } else if value == 0x4d {
            Some(Kind::Z24S8_MS2_2CS)
        } else if value == 0x4e {
            Some(Kind::Z24S8_MS4_2CS)
        } else if value == 0x4f {
            Some(Kind::Z24S8_MS8_2CS)
        } else if value == 0x50 {
            Some(Kind::Z24S8_MS16_2CS)
        } else if value == 0x51 {
            Some(Kind::Z24S8_2CZ)
        } else if value == 0x52 {
            Some(Kind::Z24S8_MS2_2CZ)
        } else if value == 0x53 {
            Some(Kind::Z24S8_MS4_2CZ)
        } else if value == 0x54 {
            Some(Kind::Z24S8_MS8_2CZ)
        } else if value == 0x55 {
            Some(Kind::Z24S8_MS16_2CZ)
        } else if value == 0x56 {
            Some(Kind::Z24S8_4CSZV)
        } else if value == 0x57 {
            Some(Kind::Z24S8_MS2_4CSZV)
        } else if value == 0x58 {
            Some(Kind::Z24S8_MS4_4CSZV)
        } else if value == 0x59 {
            Some(Kind::Z24S8_MS8_4CSZV)
        } else if value == 0x5a {
            Some(Kind::Z24S8_MS16_4CSZV)
        } else if value == 0x5b {
            Some(Kind::Z24V8_MS4_VC12)
        } else if value == 0x5c {
            Some(Kind::Z24V8_MS4_VC4)
        } else if value == 0x5d {
            Some(Kind::Z24V8_MS8_VC8)
        } else if value == 0x5e {
            Some(Kind::Z24V8_MS8_VC24)
        } else if value == 0x63 {
            Some(Kind::Z24V8_MS4_VC12_1ZV)
        } else if value == 0x64 {
            Some(Kind::Z24V8_MS4_VC4_1ZV)
        } else if value == 0x65 {
            Some(Kind::Z24V8_MS8_VC8_1ZV)
        } else if value == 0x66 {
            Some(Kind::Z24V8_MS8_VC24_1ZV)
        } else if value == 0x67 {
            Some(Kind::Z24V8_MS4_VC12_2CS)
        } else if value == 0x68 {
            Some(Kind::Z24V8_MS4_VC4_2CS)
        } else if value == 0x69 {
            Some(Kind::Z24V8_MS8_VC8_2CS)
        } else if value == 0x6a {
            Some(Kind::Z24V8_MS8_VC24_2CS)
        } else if value == 0x6f {
            Some(Kind::Z24V8_MS4_VC12_2CZV)
        } else if value == 0x70 {
            Some(Kind::Z24V8_MS4_VC4_2CZV)
        } else if value == 0x71 {
            Some(Kind::Z24V8_MS8_VC8_2CZV)
        } else if value == 0x72 {
            Some(Kind::Z24V8_MS8_VC24_2CZV)
        } else if value == 0x73 {
            Some(Kind::Z24V8_MS4_VC12_2ZV)
        } else if value == 0x74 {
            Some(Kind::Z24V8_MS4_VC4_2ZV)
        } else if value == 0x75 {
            Some(Kind::Z24V8_MS8_VC8_2ZV)
        } else if value == 0x76 {
            Some(Kind::Z24V8_MS8_VC24_2ZV)
        } else if value == 0x77 {
            Some(Kind::Z24V8_MS4_VC12_4CSZV)
        } else if value == 0x78 {
            Some(Kind::Z24V8_MS4_VC4_4CSZV)
        } else if value == 0x79 {
            Some(Kind::Z24V8_MS8_VC8_4CSZV)
        } else if value == 0x7a {
            Some(Kind::Z24V8_MS8_VC24_4CSZV)
        } else if value == 0x7b {
            Some(Kind::ZF32)
        } else if value == 0x7c {
            Some(Kind::ZF32_1Z)
        } else if value == 0x7d {
            Some(Kind::ZF32_MS2_1Z)
        } else if value == 0x7e {
            Some(Kind::ZF32_MS4_1Z)
        } else if value == 0x7f {
            Some(Kind::ZF32_MS8_1Z)
        } else if value == 0x80 {
            Some(Kind::ZF32_MS16_1Z)
        } else if value == 0x81 {
            Some(Kind::ZF32_2CS)
        } else if value == 0x82 {
            Some(Kind::ZF32_MS2_2CS)
        } else if value == 0x83 {
            Some(Kind::ZF32_MS4_2CS)
        } else if value == 0x84 {
            Some(Kind::ZF32_MS8_2CS)
        } else if value == 0x85 {
            Some(Kind::ZF32_MS16_2CS)
        } else if value == 0x86 {
            Some(Kind::ZF32_2CZ)
        } else if value == 0x87 {
            Some(Kind::ZF32_MS2_2CZ)
        } else if value == 0x88 {
            Some(Kind::ZF32_MS4_2CZ)
        } else if value == 0x89 {
            Some(Kind::ZF32_MS8_2CZ)
        } else if value == 0x8a {
            Some(Kind::ZF32_MS16_2CZ)
        } else if value == 0x8b {
            Some(Kind::X8Z24_X16V8S8_MS4_VC12)
        } else if value == 0x8c {
            Some(Kind::X8Z24_X16V8S8_MS4_VC4)
        } else if value == 0x8d {
            Some(Kind::X8Z24_X16V8S8_MS8_VC8)
        } else if value == 0x8e {
            Some(Kind::X8Z24_X16V8S8_MS8_VC24)
        } else if value == 0x8f {
            Some(Kind::X8Z24_X16V8S8_MS4_VC12_1CS)
        } else if value == 0x90 {
            Some(Kind::X8Z24_X16V8S8_MS4_VC4_1CS)
        } else if value == 0x91 {
            Some(Kind::X8Z24_X16V8S8_MS8_VC8_1CS)
        } else if value == 0x92 {
            Some(Kind::X8Z24_X16V8S8_MS8_VC24_1CS)
        } else if value == 0x97 {
            Some(Kind::X8Z24_X16V8S8_MS4_VC12_1ZV)
        } else if value == 0x98 {
            Some(Kind::X8Z24_X16V8S8_MS4_VC4_1ZV)
        } else if value == 0x99 {
            Some(Kind::X8Z24_X16V8S8_MS8_VC8_1ZV)
        } else if value == 0x9a {
            Some(Kind::X8Z24_X16V8S8_MS8_VC24_1ZV)
        } else if value == 0x9b {
            Some(Kind::X8Z24_X16V8S8_MS4_VC12_1CZV)
        } else if value == 0x9c {
            Some(Kind::X8Z24_X16V8S8_MS4_VC4_1CZV)
        } else if value == 0x9d {
            Some(Kind::X8Z24_X16V8S8_MS8_VC8_1CZV)
        } else if value == 0x9e {
            Some(Kind::X8Z24_X16V8S8_MS8_VC24_1CZV)
        } else if value == 0x9f {
            Some(Kind::X8Z24_X16V8S8_MS4_VC12_2CS)
        } else if value == 0xa0 {
            Some(Kind::X8Z24_X16V8S8_MS4_VC4_2CS)
        } else if value == 0xa1 {
            Some(Kind::X8Z24_X16V8S8_MS8_VC8_2CS)
        } else if value == 0xa2 {
            Some(Kind::X8Z24_X16V8S8_MS8_VC24_2CS)
        } else if value == 0xa3 {
            Some(Kind::X8Z24_X16V8S8_MS4_VC12_2CSZV)
        } else if value == 0xa4 {
            Some(Kind::X8Z24_X16V8S8_MS4_VC4_2CSZV)
        } else if value == 0xa5 {
            Some(Kind::X8Z24_X16V8S8_MS8_VC8_2CSZV)
        } else if value == 0xa6 {
            Some(Kind::X8Z24_X16V8S8_MS8_VC24_2CSZV)
        } else if value == 0xa7 {
            Some(Kind::ZF32_X16V8S8_MS4_VC12)
        } else if value == 0xa8 {
            Some(Kind::ZF32_X16V8S8_MS4_VC4)
        } else if value == 0xa9 {
            Some(Kind::ZF32_X16V8S8_MS8_VC8)
        } else if value == 0xaa {
            Some(Kind::ZF32_X16V8S8_MS8_VC24)
        } else if value == 0xab {
            Some(Kind::ZF32_X16V8S8_MS4_VC12_1CS)
        } else if value == 0xac {
            Some(Kind::ZF32_X16V8S8_MS4_VC4_1CS)
        } else if value == 0xad {
            Some(Kind::ZF32_X16V8S8_MS8_VC8_1CS)
        } else if value == 0xae {
            Some(Kind::ZF32_X16V8S8_MS8_VC24_1CS)
        } else if value == 0xb3 {
            Some(Kind::ZF32_X16V8S8_MS4_VC12_1ZV)
        } else if value == 0xb4 {
            Some(Kind::ZF32_X16V8S8_MS4_VC4_1ZV)
        } else if value == 0xb5 {
            Some(Kind::ZF32_X16V8S8_MS8_VC8_1ZV)
        } else if value == 0xb6 {
            Some(Kind::ZF32_X16V8S8_MS8_VC24_1ZV)
        } else if value == 0xb7 {
            Some(Kind::ZF32_X16V8S8_MS4_VC12_1CZV)
        } else if value == 0xb8 {
            Some(Kind::ZF32_X16V8S8_MS4_VC4_1CZV)
        } else if value == 0xb9 {
            Some(Kind::ZF32_X16V8S8_MS8_VC8_1CZV)
        } else if value == 0xba {
            Some(Kind::ZF32_X16V8S8_MS8_VC24_1CZV)
        } else if value == 0xbb {
            Some(Kind::ZF32_X16V8S8_MS4_VC12_2CS)
        } else if value == 0xbc {
            Some(Kind::ZF32_X16V8S8_MS4_VC4_2CS)
        } else if value == 0xbd {
            Some(Kind::ZF32_X16V8S8_MS8_VC8_2CS)
        } else if value == 0xbe {
            Some(Kind::ZF32_X16V8S8_MS8_VC24_2CS)
        } else if value == 0xbf {
            Some(Kind::ZF32_X16V8S8_MS4_VC12_2CSZV)
        } else if value == 0xc0 {
            Some(Kind::ZF32_X16V8S8_MS4_VC4_2CSZV)
        } else if value == 0xc1 {
            Some(Kind::ZF32_X16V8S8_MS8_VC8_2CSZV)
        } else if value == 0xc2 {
            Some(Kind::ZF32_X16V8S8_MS8_VC24_2CSZV)
        } else if value == 0xc3 {
            Some(Kind::ZF32_X24S8)
        } else if value == 0xc4 {
            Some(Kind::ZF32_X24S8_1CS)
        } else if value == 0xc5 {
            Some(Kind::ZF32_X24S8_MS2_1CS)
        } else if value == 0xc6 {
            Some(Kind::ZF32_X24S8_MS4_1CS)
        } else if value == 0xc7 {
            Some(Kind::ZF32_X24S8_MS8_1CS)
        } else if value == 0xc8 {
            Some(Kind::ZF32_X24S8_MS16_1CS)
        } else if value == 0xca {
            Some(Kind::SmskedMessage)
        } else if value == 0xcb {
            Some(Kind::SmhostMessage)
        } else if value == 0xcd {
            Some(Kind::C64_MS2_2CRA)
        } else if value == 0xce {
            Some(Kind::ZF32_X24S8_2CSZV)
        } else if value == 0xcf {
            Some(Kind::ZF32_X24S8_MS2_2CSZV)
        } else if value == 0xd0 {
            Some(Kind::ZF32_X24S8_MS4_2CSZV)
        } else if value == 0xd1 {
            Some(Kind::ZF32_X24S8_MS8_2CSZV)
        } else if value == 0xd2 {
            Some(Kind::ZF32_X24S8_MS16_2CSZV)
        } else if value == 0xd3 {
            Some(Kind::ZF32_X24S8_2CS)
        } else if value == 0xd4 {
            Some(Kind::ZF32_X24S8_MS2_2CS)
        } else if value == 0xd5 {
            Some(Kind::ZF32_X24S8_MS4_2CS)
        } else if value == 0xd6 {
            Some(Kind::ZF32_X24S8_MS8_2CS)
        } else if value == 0xd7 {
            Some(Kind::ZF32_X24S8_MS16_2CS)
        } else if value == 0xd8 {
            Some(Kind::C32_2C)
        } else if value == 0xd9 {
            Some(Kind::C32_2CBR)
        } else if value == 0xda {
            Some(Kind::C32_2CBA)
        } else if value == 0xdb {
            Some(Kind::C32_2CRA)
        } else if value == 0xdc {
            Some(Kind::C32_2BRA)
        } else if value == 0xdd {
            Some(Kind::C32_MS2_2C)
        } else if value == 0xde {
            Some(Kind::C32_MS2_2CBR)
        } else if value == 0xcc {
            Some(Kind::C32_MS2_2CRA)
        } else if value == 0xdf {
            Some(Kind::C32_MS4_2C)
        } else if value == 0xe0 {
            Some(Kind::C32_MS4_2CBR)
        } else if value == 0xe1 {
            Some(Kind::C32_MS4_2CBA)
        } else if value == 0xe2 {
            Some(Kind::C32_MS4_2CRA)
        } else if value == 0xe3 {
            Some(Kind::C32_MS4_2BRA)
        } else if value == 0xe4 {
            Some(Kind::C32_MS8_MS16_2C)
        } else if value == 0xe5 {
            Some(Kind::C32_MS8_MS16_2CRA)
        } else if value == 0xe6 {
            Some(Kind::C64_2C)
        } else if value == 0xe7 {
            Some(Kind::C64_2CBR)
        } else if value == 0xe8 {
            Some(Kind::C64_2CBA)
        } else if value == 0xe9 {
            Some(Kind::C64_2CRA)
        } else if value == 0xea {
            Some(Kind::C64_2BRA)
        } else if value == 0xeb {
            Some(Kind::C64_MS2_2C)
        } else if value == 0xec {
            Some(Kind::C64_MS2_2CBR)
        } else if value == 0xed {
            Some(Kind::C64_MS4_2C)
        } else if value == 0xee {
            Some(Kind::C64_MS4_2CBR)
        } else if value == 0xef {
            Some(Kind::C64_MS4_2CBA)
        } else if value == 0xf0 {
            Some(Kind::C64_MS4_2CRA)
        } else if value == 0xf1 {
            Some(Kind::C64_MS4_2BRA)
        } else if value == 0xf2 {
            Some(Kind::C64_MS8_MS16_2C)
        } else if value == 0xf3 {
            Some(Kind::C64_MS8_MS16_2CRA)
        } else if value == 0xf4 {
            Some(Kind::C128_2C)
        } else if value == 0xf5 {
            Some(Kind::C128_2CR)
        } else if value == 0xf6 {
            Some(Kind::C128_MS2_2C)
        } else if value == 0xf7 {
            Some(Kind::C128_MS2_2CR)
        } else if value == 0xf8 {
            Some(Kind::C128_MS4_2C)
        } else if value == 0xf9 {
            Some(Kind::C128_MS4_2CR)
        } else if value == 0xfa {
            Some(Kind::C128_MS8_MS16_2C)
        } else if value == 0xfb {
            Some(Kind::C128_MS8_MS16_2CR)
        } else if value == 0xfc {
            Some(Kind::X8C24)
        } else if value == 0xfd {
            Some(Kind::PitchNoSwizzle)
        } else if value == 0xfe {
            Some(Kind::Generic_16BX2)
        } else if value == 0xff {
            Some(Kind::Invalid)
        } else {
            None
        }
    }

    pub fn value(self) -> (value: u32)
        ensures
            value == self.spec_value(),
    {
        match self {
            Kind::Pitch => 0,
            Kind::Z16 => 1,
            Kind::Z16_2C => 2,
            Kind::Z16_MS2_2C => 3,
            Kind::Z16_MS4_2C => 4,
            Kind::Z16_MS8_2C => 5,
            Kind::Z16_MS16_2C => 6,
            Kind::Z16_2Z => 7,
            Kind::Z16_MS2_2Z => 8,
            Kind::Z16_MS4_2Z => 9,
            Kind::Z16_MS8_2Z => 0xa,
            Kind::Z16_MS16_2Z => 0xb,
            Kind::Z16_4CZ => 0xc,
            Kind::Z16_MS2_4CZ => 0xd,
            Kind::Z16_MS4_4CZ => 0xe,
            Kind::Z16_MS8_4CZ => 0xf,
            Kind::Z16_MS16_4CZ => 0x10,
            Kind::S8Z24 => 0x11,
            Kind::S8Z24_1Z => 0x12,
            Kind::S8Z24_MS2_1Z => 0x13,
            Kind::S8Z24_MS4_1Z => 0x14,
            Kind::S8Z24_MS8_1Z => 0x15,
            Kind::S8Z24_MS16_1Z => 0x16,
            Kind::S8Z24_2CZ => 0x17,
            Kind::S8Z24_MS2_2CZ => 0x18,
            Kind::S8Z24_MS4_2CZ => 0x19,
            Kind::S8Z24_MS8_2CZ => 0x1a,
            Kind::S8Z24_MS16_2CZ => 0x1b,
            Kind::S8Z24_2CS => 0x1c,
            Kind::S8Z24_MS2_2CS => 0x1d,
            Kind::S8Z24_MS4_2CS => 0x1e,
            Kind::S8Z24_MS8_2CS => 0x1f,
            Kind::S8Z24_MS16_2CS => 0x20,
            Kind::S8Z24_4CSZV => 0x21,
            Kind::S8Z24_MS2_4CSZV => 0x22,
            Kind::S8Z24_MS4_4CSZV => 0x23,
            Kind::S8Z24_MS8_4CSZV => 0x24,
            Kind::S8Z24_MS16_4CSZV => 0x25,
            Kind::V8Z24_MS4_VC12 => 0x26,
            Kind::V8Z24_MS4_VC4 => 0x27,
            Kind::V8Z24_MS8_VC8 => 0x28,
            Kind::V8Z24_MS8_VC24 => 0x29,
            Kind::S8 => 0x2a,
            Kind::S8_2S => 0x2b,
            Kind::V8Z24_MS4_VC12_1ZV => 0x2e,
            Kind::V8Z24_MS4_VC4_1ZV => 0x2f,
            Kind::V8Z24_MS8_VC8_1ZV => 0x30,
            Kind::V8Z24_MS8_VC24_1ZV => 0x31,
            Kind::V8Z24_MS4_VC12_2CS => 0x32,
            Kind::V8Z24_MS4_VC4_2CS => 0x33,
            Kind::V8Z24_MS8_VC8_2CS => 0x34,
            Kind::V8Z24_MS8_VC24_2CS => 0x35,
            Kind::V8Z24_MS4_VC12_2CZV => 0x3a,
            Kind::V8Z24_MS4_VC4_2CZV => 0x3b,
            Kind::V8Z24_MS8_VC8_2CZV => 0x3c,
            Kind::V8Z24_MS8_VC24_2CZV => 0x3d,
            Kind::V8Z24_MS4_VC12_2ZV => 0x3e,
            Kind::V8Z24_MS4_VC4_2ZV => 0x3f,
            Kind::V8Z24_MS8_VC8_2ZV => 0x40,
            Kind::V8Z24_MS8_VC24_2ZV => 0x41,
            Kind::V8Z24_MS4_VC12_4CSZV => 0x42,
            Kind::V8Z24_MS4_VC4_4CSZV => 0x43,
            Kind::V8Z24_MS8_VC8_4CSZV => 0x44,
            Kind::V8Z24_MS8_VC24_4CSZV => 0x45,
            Kind::Z24S8 => 0x46,
            Kind::Z24S8_1Z => 0x47,
            Kind::Z24S8_MS2_1Z => 0x48,
            Kind::Z24S8_MS4_1Z => 0x49,
            Kind::Z24S8_MS8_1Z => 0x4a,
            Kind::Z24S8_MS16_1Z => 0x4b,
            Kind::Z24S8_2CS => 0x4c,
            Kind::Z24S8_MS2_2CS => 0x4d,
            Kind::Z24S8_MS4_2CS => 0x4e,
            Kind::Z24S8_MS8_2CS => 0x4f,
            Kind::Z24S8_MS16_2CS => 0x50,
            Kind::Z24S8_2CZ => 0x51,
            Kind::Z24S8_MS2_2CZ => 0x52,
            Kind::Z24S8_MS4_2CZ => 0x53,
            Kind::Z24S8_MS8_2CZ => 0x54,
            Kind::Z24S8_MS16_2CZ => 0x55,
            Kind::Z24S8_4CSZV => 0x56,
            Kind::Z24S8_MS2_4CSZV => 0x57,
            Kind::Z24S8_MS4_4CSZV => 0x58,
            Kind::Z24S8_MS8_4CSZV => 0x59,
            Kind::Z24S8_MS16_4CSZV => 0x5a,
            Kind::Z24V8_MS4_VC12 => 0x5b,
            Kind::Z24V8_MS4_VC4 => 0x5c,
            Kind::Z24V8_MS8_VC8 => 0x5d,
            Kind::Z24V8_MS8_VC24 => 0x5e,
            Kind::Z24V8_MS4_VC12_1ZV => 0x63,
            Kind::Z24V8_MS4_VC4_1ZV => 0x64,
            Kind::Z24V8_MS8_VC8_1ZV => 0x65,
            Kind::Z24V8_MS8_VC24_1ZV => 0x66,
            Kind::Z24V8_MS4_VC12_2CS => 0x67,
            Kind::Z24V8_MS4_VC4_2CS => 0x68,
            Kind::Z24V8_MS8_VC8_2CS => 0x69,
            Kind::Z24V8_MS8_VC24_2CS => 0x6a,
            Kind::Z24V8_MS4_VC12_2CZV => 0x6f,
            Kind::Z24V8_MS4_VC4_2CZV => 0x70,
            Kind::Z24V8_MS8_VC8_2CZV => 0x71,
            Kind::Z24V8_MS8_VC24_2CZV => 0x72,
            Kind::Z24V8_MS4_VC12_2ZV => 0x73,
            Kind::Z24V8_MS4_VC4_2ZV => 0x74,
            Kind::Z24V8_MS8_VC8_2ZV => 0x75,
            Kind::Z24V8_MS8_VC24_2ZV => 0x76,
            Kind::Z24V8_MS4_VC12_4CSZV => 0x77,
            Kind::Z24V8_MS4_VC4_4CSZV => 0x78,
            Kind::Z24V8_MS8_VC8_4CSZV => 0x79,
            Kind::Z24V8_MS8_VC24_4CSZV => 0x7a,
            Kind::ZF32 => 0x7b,
            Kind::ZF32_1Z => 0x7c,
            Kind::ZF32_MS2_1Z => 0x7d,
            Kind::ZF32_MS4_1Z => 0x7e,
            Kind::ZF32_MS8_1Z => 0x7f,
            Kind::ZF32_MS16_1Z => 0x80,
            Kind::ZF32_2CS => 0x81,
            Kind::ZF32_MS2_2CS => 0x82,
            Kind::ZF32_MS4_2CS => 0x83,
            Kind::ZF32_MS8_2CS => 0x84,
            Kind::ZF32_MS16_2CS => 0x85,
            Kind::ZF32_2CZ => 0x86,
            Kind::ZF32_MS2_2CZ => 0x87,
            Kind::ZF32_MS4_2CZ => 0x88,
            Kind::ZF32_MS8_2CZ => 0x89,
            Kind::ZF32_MS16_2CZ => 0x8a,
            Kind::X8Z24_X16V8S8_MS4_VC12 => 0x8b,
            Kind::X8Z24_X16V8S8_MS4_VC4 => 0x8c,
            Kind::X8Z24_X16V8S8_MS8_VC8 => 0x8d,
            Kind::X8Z24_X16V8S8_MS8_VC24 => 0x8e,
            Kind::X8Z24_X16V8S8_MS4_VC12_1CS => 0x8f,
            Kind::X8Z24_X16V8S8_MS4_VC4_1CS => 0x90,
            Kind::X8Z24_X16V8S8_MS8_VC8_1CS => 0x91,
            Kind::X8Z24_X16V8S8_MS8_VC24_1CS => 0x92,
            Kind::X8Z24_X16V8S8_MS4_VC12_1ZV => 0x97,
            Kind::X8Z24_X16V8S8_MS4_VC4_1ZV => 0x98,
            Kind::X8Z24_X16V8S8_MS8_VC8_1ZV => 0x99,
            Kind::X8Z24_X16V8S8_MS8_VC24_1ZV => 0x9a,
            Kind::X8Z24_X16V8S8_MS4_VC12_1CZV => 0x9b,
            Kind::X8Z24_X16V8S8_MS4_VC4_1CZV => 0x9c,
            Kind::X8Z24_X16V8S8_MS8_VC8_1CZV => 0x9d,
            Kind::X8Z24_X16V8S8_MS8_VC24_1CZV => 0x9e,
            Kind::X8Z24_X16V8S8_MS4_VC12_2CS => 0x9f,
            Kind::X8Z24_X16V8S8_MS4_VC4_2CS => 0xa0,
            Kind::X8Z24_X16V8S8_MS8_VC8_2CS => 0xa1,
            Kind::X8Z24_X16V8S8_MS8_VC24_2CS => 0xa2,
            Kind::X8Z24_X16V8S8_MS4_VC12_2CSZV => 0xa3,
            Kind::X8Z24_X16V8S8_MS4_VC4_2CSZV => 0xa4,
            Kind::X8Z24_X16V8S8_MS8_VC8_2CSZV => 0xa5,
            Kind::X8Z24_X16V8S8_MS8_VC24_2CSZV => 0xa6,
            Kind::ZF32_X16V8S8_MS4_VC12 => 0xa7,
            Kind::ZF32_X16V8S8_MS4_VC4 => 0xa8,
            Kind::ZF32_X16V8S8_MS8_VC8 => 0xa9,
            Kind::ZF32_X16V8S8_MS8_VC24 => 0xaa,
            Kind::ZF32_X16V8S8_MS4_VC12_1CS => 0xab,
            Kind::ZF32_X16V8S8_MS4_VC4_1CS => 0xac,
            Kind::ZF32_X16V8S8_MS8_VC8_1CS => 0xad,
            Kind::ZF32_X16V8S8_MS8_VC24_1CS => 0xae,
            Kind::ZF32_X16V8S8_MS4_VC12_1ZV => 0xb3,
            Kind::ZF32_X16V8S8_MS4_VC4_1ZV => 0xb4,
            Kind::ZF32_X16V8S8_MS8_VC8_1ZV => 0xb5,
            Kind::ZF32_X16V8S8_MS8_VC24_1ZV => 0xb6,
            Kind::ZF32_X16V8S8_MS4_VC12_1CZV => 0xb7,
            Kind::ZF32_X16V8S8_MS4_VC4_1CZV => 0xb8,
            Kind::ZF32_X16V8S8_MS8_VC8_1CZV => 0xb9,
            Kind::ZF32_X16V8S8_MS8_VC24_1CZV => 0xba,
            Kind::ZF32_X16V8S8_MS4_VC12_2CS => 0xbb,
            Kind::ZF32_X16V8S8_MS4_VC4_2CS => 0xbc,
            Kind::ZF32_X16V8S8_MS8_VC8_2CS => 0xbd,
            Kind::ZF32_X16V8S8_MS8_VC24_2CS => 0xbe,
            Kind::ZF32_X16V8S8_MS4_VC12_2CSZV => 0xbf,
            Kind::ZF32_X16V8S8_MS4_VC4_2CSZV => 0xc0,
            Kind::ZF32_X16V8S8_MS8_VC8_2CSZV => 0xc1,
            Kind::ZF32_X16V8S8_MS8_VC24_2CSZV => 0xc2,
            Kind::ZF32_X24S8 => 0xc3,
            Kind::ZF32_X24S8_1CS => 0xc4,
            Kind::ZF32_X24S8_MS2_1CS => 0xc5,
            Kind::ZF32_X24S8_MS4_1CS => 0xc6,
            Kind::ZF32_X24S8_MS8_1CS => 0xc7,
            Kind::ZF32_X24S8_MS16_1CS => 0xc8,
            Kind::SmskedMessage => 0xca,
            Kind::SmhostMessage => 0xcb,
            Kind::C64_MS2_2CRA => 0xcd,
            Kind::ZF32_X24S8_2CSZV => 0xce,
            Kind::ZF32_X24S8_MS2_2CSZV => 0xcf,
            Kind::ZF32_X24S8_MS4_2CSZV => 0xd0,
            Kind::ZF32_X24S8_MS8_2CSZV => 0xd1,
            Kind::ZF32_X24S8_MS16_2CSZV => 0xd2,
            Kind::ZF32_X24S8_2CS => 0xd3,
            Kind::ZF32_X24S8_MS2_2CS => 0xd4,
            Kind::ZF32_X24S8_MS4_2CS => 0xd5,
            Kind::ZF32_X24S8_MS8_2CS => 0xd6,
            Kind::ZF32_X24S8_MS16_2CS => 0xd7,
            Kind::C32_2C => 0xd8,
            Kind::C32_2CBR => 0xd9,
            Kind::C32_2CBA => 0xda,
            Kind::C32_2CRA => 0xdb,
            Kind::C32_2BRA => 0xdc,
            Kind::C32_MS2_2C => 0xdd,
            Kind::C32_MS2_2CBR => 0xde,
            Kind::C32_MS2_2CRA => 0xcc,
            Kind::C32_MS4_2C => 0xdf,
            Kind::C32_MS4_2CBR => 0xe0,
            Kind::C32_MS4_2CBA => 0xe1,
            Kind::C32_MS4_2CRA => 0xe2,
            Kind::C32_MS4_2BRA => 0xe3,
            Kind::C32_MS8_MS16_2C => 0xe4,
            Kind::C32_MS8_MS16_2CRA => 0xe5,
            Kind::C64_2C => 0xe6,
            Kind::C64_2CBR => 0xe7,
            Kind::C64_2CBA => 0xe8,
            Kind::C64_2CRA => 0xe9,
            Kind::C64_2BRA => 0xea,
            Kind::C64_MS2_2C => 0xeb,
            Kind::C64_MS2_2CBR => 0xec,
            Kind::C64_MS4_2C => 0xed,
            Kind::C64_MS4_2CBR => 0xee,
            Kind::C64_MS4_2CBA => 0xef,
            Kind::C64_MS4_2CRA => 0xf0,
            Kind::C64_MS4_2BRA => 0xf1,
            Kind::C64_MS8_MS16_2C => 0xf2,
            Kind::C64_MS8_MS16_2CRA => 0xf3,
            Kind::C128_2C => 0xf4,
            Kind::C128_2CR => 0xf5,
            Kind::C128_MS2_2C => 0xf6,
            Kind::C128_MS2_2CR => 0xf7,
            Kind::C128_MS4_2C => 0xf8,
            Kind::C128_MS4_2CR => 0xf9,
            Kind::C128_MS8_MS16_2C => 0xfa,
            Kind::C128_MS8_MS16_2CR => 0xfb,
            Kind::X8C24 => 0xfc,
            Kind::PitchNoSwizzle => 0xfd,
            Kind::Generic_16BX2 => 0xfe,
            Kind::Invalid => 0xff,
        }
    }

    /// The variant that `value` stands for, if it stands for one.
    #[verifier::rlimit(50)]
    pub fn from_value(value: u32) -> (variant: Option<Self>)
        ensures
            variant == Self::spec_from_value(value),
    {
        if value == 0 {
            Some(Kind::Pitch)
        } else if value == 1 {
            Some(Kind::Z16)
        } else if value == 2 {
            Some(Kind::Z16_2C)
        } else if value == 3 {
            Some(Kind::Z16_MS2_2C)
        } else if value == 4 {
            Some(Kind::Z16_MS4_2C)
        } else if value == 5 {
            Some(Kind::Z16_MS8_2C)
        } else if value == 6 {
            Some(Kind::Z16_MS16_2C)
        } else if value == 7 {
            Some(Kind::Z16_2Z)
        } else if value == 8 {
            Some(Kind::Z16_MS2_2Z)
        } else if value == 9 {
            Some(Kind::Z16_MS4_2Z)
        } else if value == 0xa {
            Some(Kind::Z16_MS8_2Z)
        } else if value == 0xb {
            Some(Kind::Z16_MS16_2Z)
        } else if value == 0xc {
            Some(Kind::Z16_4CZ)
        } else if value == 0xd {
            Some(Kind::Z16_MS2_4CZ)
        } else if value == 0xe {
            Some(Kind::Z16_MS4_4CZ)
        } else if value == 0xf {
            Some(Kind::Z16_MS8_4CZ)
        } else if value == 0x10 {
            Some(Kind::Z16_MS16_4CZ)
        } else if value == 0x11 {
            Some(Kind::S8Z24)
        } else if value == 0x12 {
            Some(Kind::S8Z24_1Z)
        } else if value == 0x13 {
            Some(Kind::S8Z24_MS2_1Z)
        } else if value == 0x14 {
            Some(Kind::S8Z24_MS4_1Z)
        } else if value == 0x15 {
            Some(Kind::S8Z24_MS8_1Z)
        } else if value == 0x16 {
            Some(Kind::S8Z24_MS16_1Z)
        } else if value == 0x17 {
            Some(Kind::S8Z24_2CZ)
        } else if value == 0x18 {
            Some(Kind::S8Z24_MS2_2CZ)
        } else if value == 0x19 {
            Some(Kind::S8Z24_MS4_2CZ)
        } else if value == 0x1a {
            Some(Kind::S8Z24_MS8_2CZ)
        } else if value == 0x1b {
            Some(Kind::S8Z24_MS16_2CZ)
        } else if value == 0x1c {
            Some(Kind::S8Z24_2CS)
        } else if value == 0x1d {
            Some(Kind::S8Z24_MS2_2CS)
        } else if value == 0x1e {
            Some(Kind::S8Z24_MS4_2CS)
        } else if value == 0x1f {
            Some(Kind::S8Z24_MS8_2CS)
        } else if value == 0x20 {
            Some(Kind::S8Z24_MS16_2CS)
        } else if value == 0x21 {
            Some(Kind::S8Z24_4CSZV)
        } else if value == 0x22 {
            Some(Kind::S8Z24_MS2_4CSZV)
        } else if value == 0x23 {
            Some(Kind::S8Z24_MS4_4CSZV)
        } else if value == 0x24 {
            Some(Kind::S8Z24_MS8_4CSZV)
        } else if value == 0x25 {
            Some(Kind::S8Z24_MS16_4CSZV)
        } else if value == 0x26 {
            Some(Kind::V8Z24_MS4_VC12)
        } else if value == 0x27 {
            Some(Kind::V8Z24_MS4_VC4)
        } else if value == 0x28 {
            Some(Kind::V8Z24_MS8_VC8)
        } else if value == 0x29 {
            Some(Kind::V8Z24_MS8_VC24)
        } else if value == 0x2a {
            Some(Kind::S8)
        } else if value == 0x2b {
            Some(Kind::S8_2S)
        } else if value == 0x2e {
            Some(Kind::V8Z24_MS4_VC12_1ZV)
        } else if value == 0x2f {
            Some(Kind::V8Z24_MS4_VC4_1ZV)
        } else if value == 0x30 {
            Some(Kind::V8Z24_MS8_VC8_1ZV)
        } else if value == 0x31 {
            Some(Kind::V8Z24_MS8_VC24_1ZV)
        } else if value == 0x32 {
            Some(Kind::V8Z24_MS4_VC12_2CS)
        } else if value == 0x33 {
            Some(Kind::V8Z24_MS4_VC4_2CS)
        } else if value == 0x34 {
            Some(Kind::V8Z24_MS8_VC8_2CS)
        } else if value == 0x35 {
            Some(Kind::V8Z24_MS8_VC24_2CS)
        } else if value == 0x3a {
            Some(Kind::V8Z24_MS4_VC12_2CZV)
        } else if value == 0x3b {
            Some(Kind::V8Z24_MS4_VC4_2CZV)
        } else if value == 0x3c {
            Some(Kind::V8Z24_MS8_VC8_2CZV)
        } else if value == 0x3d {
            Some(Kind::V8Z24_MS8_VC24_2CZV)
        } else if value == 0x3e {
            Some(Kind::V8Z24_MS4_VC12_2ZV)
        } else if value == 0x3f {
            Some(Kind::V8Z24_MS4_VC4_2ZV)
        } else if value == 0x40 {
            Some(Kind::V8Z24_MS8_VC8_2ZV)
        } else if value == 0x41 {
            Some(Kind::V8Z24_MS8_VC24_2ZV)
        } else if value == 0x42 {
            Some(Kind::V8Z24_MS4_VC12_4CSZV)
        } else if value == 0x43 {
            Some(Kind::V8Z24_MS4_VC4_4CSZV)
        } else if value == 0x44 {
            Some(Kind::V8Z24_MS8_VC8_4CSZV)
        } else if value == 0x45 {
            Some(Kind::V8Z24_MS8_VC24_4CSZV)
        } else if value == 0x46 {
            Some(Kind::Z24S8)
        } else if value == 0x47 {
            Some(Kind::Z24S8_1Z)
        } else if value == 0x48 {
            Some(Kind::Z24S8_MS2_1Z)
        } else if value == 0x49 {
            Some(Kind::Z24S8_MS4_1Z)
        } else if value == 0x4a {
            Some(Kind::Z24S8_MS8_1Z)
        } else if value == 0x4b {
            Some(Kind::Z24S8_MS16_1Z)
        } else if value == 0x4c {
            Some(Kind::Z24S8_2CS)
        } else if value == 0x4d {
            Some(Kind::Z24S8_MS2_2CS)
        } else if value == 0x4e {
            Some(Kind::Z24S8_MS4_2CS)
        } else if value == 0x4f {
            Some(Kind::Z24S8_MS8_2CS)
        } else if value == 0x50 {
            Some(Kind::Z24S8_MS16_2CS)
        } else if value == 0x51 {
            Some(Kind::Z24S8_2CZ)
        } else if value == 0x52 {
            Some(Kind::Z24S8_MS2_2CZ)
        } else if value == 0x53 {
            Some(Kind::Z24S8_MS4_2CZ)
        } else if value == 0x54 {
            Some(Kind::Z24S8_MS8_2CZ)
        } else if value == 0x55 {
            Some(Kind::Z24S8_MS16_2CZ)
        } else if value == 0x56 {
            Some(Kind::Z24S8_4CSZV)
        } else if value == 0x57 {
            Some(Kind::Z24S8_MS2_4CSZV)
        } else if value == 0x58 {
            Some(Kind::Z24S8_MS4_4CSZV)
        } else if value == 0x59 {
            Some(Kind::Z24S8_MS8_4CSZV)
        } else if value == 0x5a {
            Some(Kind::Z24S8_MS16_4CSZV)
        } else if value == 0x5b {
            Some(Kind::Z24V8_MS4_VC12)
        } else if value == 0x5c {
            Some(Kind::Z24V8_MS4_VC4)
        } else if value == 0x5d {
            Some(Kind::Z24V8_MS8_VC8)
        } else if value == 0x5e {
            Some(Kind::Z24V8_MS8_VC24)
        } else if value == 0x63 {
            Some(Kind::Z24V8_MS4_VC12_1ZV)
        } else if value == 0x64 {
            Some(Kind::Z24V8_MS4_VC4_1ZV)
        } else if value == 0x65 {
            Some(Kind::Z24V8_MS8_VC8_1ZV)
        } else if value == 0x66 {
            Some(Kind::Z24V8_MS8_VC24_1ZV)
        } else if value == 0x67 {
            Some(Kind::Z24V8_MS4_VC12_2CS)
        } else if value == 0x68 {
            Some(Kind::Z24V8_MS4_VC4_2CS)
        } else if value == 0x69 {
            Some(Kind::Z24V8_MS8_VC8_2CS)
        } else if value == 0x6a {
            Some(Kind::Z24V8_MS8_VC24_2CS)
        } else if value == 0x6f {
            Some(Kind::Z24V8_MS4_VC12_2CZV)
        } else if value == 0x70 {
            Some(Kind::Z24V8_MS4_VC4_2CZV)
        } else if value == 0x71 {
            Some(Kind::Z24V8_MS8_VC8_2CZV)
        } else if value == 0x72 {
            Some(Kind::Z24V8_MS8_VC24_2CZV)
        } else if value == 0x73 {
            Some(Kind::Z24V8_MS4_VC12_2ZV)
        } else if value == 0x74 {
            Some(Kind::Z24V8_MS4_VC4_2ZV)
        } else if value == 0x75 {
            Some(Kind::Z24V8_MS8_VC8_2ZV)
        } else if value == 0x76 {
            Some(Kind::Z24V8_MS8_VC24_2ZV)
        } else if value == 0x77 {
            Some(Kind::Z24V8_MS4_VC12_4CSZV)
        } else if value == 0x78 {
            Some(Kind::Z24V8_MS4_VC4_4CSZV)
        } else if value == 0x79 {
            Some(Kind::Z24V8_MS8_VC8_4CSZV)
        } else if value == 0x7a {
            Some(Kind::Z24V8_MS8_VC24_4CSZV)
        } else if value == 0x7b {
            Some(Kind::ZF32)
        } else if value == 0x7c {
            Some(Kind::ZF32_1Z)
        } else if value == 0x7d {
            Some(Kind::ZF32_MS2_1Z)
        } else if value == 0x7e {
            Some(Kind::ZF32_MS4_1Z)
        } else if value == 0x7f {
            Some(Kind::ZF32_MS8_1Z)
        } else if value == 0x80 {
            Some(Kind::ZF32_MS16_1Z)
        } else if value == 0x81 {
            Some(Kind::ZF32_2CS)
        } else if value == 0x82 {
            Some(Kind::ZF32_MS2_2CS)
        } else if value == 0x83 {
            Some(Kind::ZF32_MS4_2CS)
        } else if value == 0x84 {
            Some(Kind::ZF32_MS8_2CS)
        } else if value == 0x85 {
            Some(Kind::ZF32_MS16_2CS)
        } else if value == 0x86 {
            Some(Kind::ZF32_2CZ)
        } else if value == 0x87 {
            Some(Kind::ZF32_MS2_2CZ)
        } else if value == 0x88 {
            Some(Kind::ZF32_MS4_2CZ)
        } else if value == 0x89 {
            Some(Kind::ZF32_MS8_2CZ)
        } else if value == 0x8a {
            Some(Kind::ZF32_MS16_2CZ)
        } else if value == 0x8b {
            Some(Kind::X8Z24_X16V8S8_MS4_VC12)
        } else if value == 0x8c {
            Some(Kind::X8Z24_X16V8S8_MS4_VC4)
        } else if value == 0x8d {
            Some(Kind::X8Z24_X16V8S8_MS8_VC8)
        } else if value == 0x8e {
            Some(Kind::X8Z24_X16V8S8_MS8_VC24)
        } else if value == 0x8f {
            Some(Kind::X8Z24_X16V8S8_MS4_VC12_1CS)
        } else if value == 0x90 {
            Some(Kind::X8Z24_X16V8S8_MS4_VC4_1CS)
        } else if value == 0x91 {
            Some(Kind::X8Z24_X16V8S8_MS8_VC8_1CS)
        } else if value == 0x92 {
            Some(Kind::X8Z24_X16V8S8_MS8_VC24_1CS)
        } else if value == 0x97 {
            Some(Kind::X8Z24_X16V8S8_MS4_VC12_1ZV)
        } else if value == 0x98 {
            Some(Kind::X8Z24_X16V8S8_MS4_VC4_1ZV)
        } else if value == 0x99 {
            Some(Kind::X8Z24_X16V8S8_MS8_VC8_1ZV)
        } else if value == 0x9a {
            Some(Kind::X8Z24_X16V8S8_MS8_VC24_1ZV)
        } else if value == 0x9b {
            Some(Kind::X8Z24_X16V8S8_MS4_VC12_1CZV)
        } else if value == 0x9c {
            Some(Kind::X8Z24_X16V8S8_MS4_VC4_1CZV)
        } else if value == 0x9d {
            Some(Kind::X8Z24_X16V8S8_MS8_VC8_1CZV)
        } else if value == 0x9e {
            Some(Kind::X8Z24_X16V8S8_MS8_VC24_1CZV)
        } else if value == 0x9f {
            Some(Kind::X8Z24_X16V8S8_MS4_VC12_2CS)
        } else if value == 0xa0 {
            Some(Kind::X8Z24_X16V8S8_MS4_VC4_2CS)
        } else if value == 0xa1 {
            Some(Kind::X8Z24_X16V8S8_MS8_VC8_2CS)
        } else if value == 0xa2 {
            Some(Kind::X8Z24_X16V8S8_MS8_VC24_2CS)
        } else if value == 0xa3 {
            Some(Kind::X8Z24_X16V8S8_MS4_VC12_2CSZV)
        } else if value == 0xa4 {
            Some(Kind::X8Z24_X16V8S8_MS4_VC4_2CSZV)
        } else if value == 0xa5 {
            Some(Kind::X8Z24_X16V8S8_MS8_VC8_2CSZV)
        } else if value == 0xa6 {
            Some(Kind::X8Z24_X16V8S8_MS8_VC24_2CSZV)
        } else if value == 0xa7 {
            Some(Kind::ZF32_X16V8S8_MS4_VC12)
        } else if value == 0xa8 {
            Some(Kind::ZF32_X16V8S8_MS4_VC4)
        } else if value == 0xa9 {
            Some(Kind::ZF32_X16V8S8_MS8_VC8)
        } else if value == 0xaa {
            Some(Kind::ZF32_X16V8S8_MS8_VC24)
        } else if value == 0xab {
            Some(Kind::ZF32_X16V8S8_MS4_VC12_1CS)
        } else if value == 0xac {
            Some(Kind::ZF32_X16V8S8_MS4_VC4_1CS)
        } else if value == 0xad {
            Some(Kind::ZF32_X16V8S8_MS8_VC8_1CS)
        } else if value == 0xae {
            Some(Kind::ZF32_X16V8S8_MS8_VC24_1CS)
        } else if value == 0xb3 {
            Some(Kind::ZF32_X16V8S8_MS4_VC12_1ZV)
        } else if value == 0xb4 {
            Some(Kind::ZF32_X16V8S8_MS4_VC4_1ZV)
        } else if value == 0xb5 {
            Some(Kind::ZF32_X16V8S8_MS8_VC8_1ZV)
        } else if value == 0xb6 {
            Some(Kind::ZF32_X16V8S8_MS8_VC24_1ZV)
        } else if value == 0xb7 {
            Some(Kind::ZF32_X16V8S8_MS4_VC12_1CZV)
        } else if value == 0xb8 {
            Some(Kind::ZF32_X16V8S8_MS4_VC4_1CZV)
        } else if value == 0xb9 {
            Some(Kind::ZF32_X16V8S8_MS8_VC8_1CZV)
        } else if value == 0xba {
            Some(Kind::ZF32_X16V8S8_MS8_VC24_1CZV)
        } else if value == 0xbb {
            Some(Kind::ZF32_X16V8S8_MS4_VC12_2CS)
        } else if value == 0xbc {
            Some(Kind::ZF32_X16V8S8_MS4_VC4_2CS)
        } else if value == 0xbd {
            Some(Kind::ZF32_X16V8S8_MS8_VC8_2CS)
        } else if value == 0xbe {
            Some(Kind::ZF32_X16V8S8_MS8_VC24_2CS)
        } else if value == 0xbf {
            Some(Kind::ZF32_X16V8S8_MS4_VC12_2CSZV)
        } else if value == 0xc0 {
            Some(Kind::ZF32_X16V8S8_MS4_VC4_2CSZV)
        } else if value == 0xc1 {
            Some(Kind::ZF32_X16V8S8_MS8_VC8_2CSZV)
        } else if value == 0xc2 {
            Some(Kind::ZF32_X16V8S8_MS8_VC24_2CSZV)
        } else if value == 0xc3 {
            Some(Kind::ZF32_X24S8)
        } else if value == 0xc4 {
            Some(Kind::ZF32_X24S8_1CS)
        } else if value == 0xc5 {
            Some(Kind::ZF32_X24S8_MS2_1CS)
        } else if value == 0xc6 {
            Some(Kind::ZF32_X24S8_MS4_1CS)
        } else if value == 0xc7 {
            Some(Kind::ZF32_X24S8_MS8_1CS)
        } else if value == 0xc8 {
            Some(Kind::ZF32_X24S8_MS16_1CS)
        } else if value == 0xca {
            Some(Kind::SmskedMessage)
        } else if value == 0xcb {
            Some(Kind::SmhostMessage)
        } else if value == 0xcd {
            Some(Kind::C64_MS2_2CRA)
        } else if value == 0xce {
            Some(Kind::ZF32_X24S8_2CSZV)
        } else if value == 0xcf {
            Some(Kind::ZF32_X24S8_MS2_2CSZV)
        } else if value == 0xd0 {
            Some(Kind::ZF32_X24S8_MS4_2CSZV)
        } else if value == 0xd1 {
            Some(Kind::ZF32_X24S8_MS8_2CSZV)
        } else if value == 0xd2 {
            Some(Kind::ZF32_X24S8_MS16_2CSZV)
        } else if value == 0xd3 {
            Some(Kind::ZF32_X24S8_2CS)
        } else if value == 0xd4 {
            Some(Kind::ZF32_X24S8_MS2_2CS)
        } else if value == 0xd5 {
            Some(Kind::ZF32_X24S8_MS4_2CS)
        } else if value == 0xd6 {
            Some(Kind::ZF32_X24S8_MS8_2CS)
        } else if value == 0xd7 {
            Some(Kind::ZF32_X24S8_MS16_2CS)
        } else if value == 0xd8 {
            Some(Kind::C32_2C)
        } else if value == 0xd9 {
            Some(Kind::C32_2CBR)
        } else if value == 0xda {
            Some(Kind::C32_2CBA)
        } else if value == 0xdb {
            Some(Kind::C32_2CRA)
        } else if value == 0xdc {
            Some(Kind::C32_2BRA)
        } else if value == 0xdd {
            Some(Kind::C32_MS2_2C)
        } else if value == 0xde {
            Some(Kind::C32_MS2_2CBR)
        } else if value == 0xcc {
            Some(Kind::C32_MS2_2CRA)
        } else if value == 0xdf {
            Some(Kind::C32_MS4_2C)
        } else if value == 0xe0 {
            Some(Kind::C32_MS4_2CBR)
        } else if value == 0xe1 {
            Some(Kind::C32_MS4_2CBA)
        } else if value == 0xe2 {
            Some(Kind::C32_MS4_2CRA)
        } else if value == 0xe3 {
            Some(Kind::C32_MS4_2BRA)
        } else if value == 0xe4 {
            Some(Kind::C32_MS8_MS16_2C)
        } else if value == 0xe5 {
            Some(Kind::C32_MS8_MS16_2CRA)
        } else if value == 0xe6 {
            Some(Kind::C64_2C)
        } else if value == 0xe7 {
            Some(Kind::C64_2CBR)
        } else if value == 0xe8 {
            Some(Kind::C64_2CBA)
        } else if value == 0xe9 {
            Some(Kind::C64_2CRA)
        } else if value == 0xea {
            Some(Kind::C64_2BRA)
        } else if value == 0xeb {
            Some(Kind::C64_MS2_2C)
        } else if value == 0xec {
            Some(Kind::C64_MS2_2CBR)
        } else if value == 0xed {
            Some(Kind::C64_MS4_2C)
        } else if value == 0xee {
            Some(Kind::C64_MS4_2CBR)
        } else if value == 0xef {
            Some(Kind::C64_MS4_2CBA)
        } else if value == 0xf0 {
            Some(Kind::C64_MS4_2CRA)
        } else if value == 0xf1 {
            Some(Kind::C64_MS4_2BRA)
        } else if value == 0xf2 {
            Some(Kind::C64_MS8_MS16_2C)
        } else if value == 0xf3 {
            Some(Kind::C64_MS8_MS16_2CRA)
        } else if value == 0xf4 {
            Some(Kind::C128_2C)
        } else if value == 0xf5 {
            Some(Kind::C128_2CR)
        } else if value == 0xf6 {
            Some(Kind::C128_MS2_2C)
        } else if value == 0xf7 {
            Some(Kind::C128_MS2_2CR)
        } else if value == 0xf8 {
            Some(Kind::C128_MS4_2C)
        } else if value == 0xf9 {
            Some(Kind::C128_MS4_2CR)
        } else if value == 0xfa {
            Some(Kind::C128_MS8_MS16_2C)
        } else if value == 0xfb {
            Some(Kind::C128_MS8_MS16_2CR)
        } else if value == 0xfc {
            Some(Kind::X8C24)
        } else if value == 0xfd {
            Some(Kind::PitchNoSwizzle)
        } else if value == 0xfe {
            Some(Kind::Generic_16BX2)
        } else if value == 0xff {
            Some(Kind::Invalid)
        } else {
            None
        }
    }
}

impl Default for Kind {
    fn default() -> (variant: Self)
        ensures
            variant == Kind::Pitch,
    {
        Kind::Pitch
    }
}

impl PrimitiveEnum<u32> for Kind {
    open spec fn spec_to_primitive(self) -> u32 {
        self.spec_value()
    }

    open spec fn spec_from_primitive(value: u32) -> Option<Self> {
        Self::spec_from_value(value)
    }

    #[verifier::rlimit(50)]
    proof fn lemma_round_trip(self) {
    }

    fn to_primitive(self) -> (value: u32) {
        self.value()
    }

    fn from_primitive(value: u32) -> (variant: Option<Self>) {
        Self::from_value(value)
    }
}

/// Represents supported color formats
#[allow(non_camel_case_types)]
#[derive(Copy, Clone, PartialEq, Eq, Structural, Debug)]
pub enum ColorFormat {
    Unspecified,
    NonColor8,
    NonColor16,
    NonColor24,
    NonColor32,
    X4C4,
    A4L4,
    A8L8,
    Float_A16L16,
    A1B5G5R5,
    A4B4G4R4,
    A5B5G5R1,
    A2B10G10R10,
    A8B8G8R8,
    A16B16G16R16,
    Float_A16B16G16R16,
    A1R5G5B5,
    A4R4G4B4,
    A5R1G5B5,
    A2R10G10B10,
    A8R8G8B8,
    A1,
    A2,
    A4,
    A8,
    A16,
    A32,
    Float_A16,
    L4A4,
    L8A8,
    B4G4R4A4,
    B5G5R1A5,
    B5G5R5A1,
    B8G8R8A8,
    B10G10R10A2,
    R1G5B5A5,
    R4G4B4A4,
    R5G5B5A1,
    R8G8B8A8,
    R10G10B10A2,
    L1,
    L2,
    L4,
    L8,
    L16,
    L32,
    Float_L16,
    B5G6R5,
    B6G5R5,
    B5G5R5X1,
    B8_G8_R8,
    B8G8R8X8,
    Float_B10G11R11,
    X1B5G5R5,
    X8B8G8R8,
    X16B16G16R16,
    Float_X16B16G16R16,
    R3G3B2,
    R5G5B6,
    R5G6B5,
    R5G5B5X1,
    R8_G8_B8,
    R8G8B8X8,
    X1R5G5B5,
    X8R8G8B8,
    RG8,
    R16G16,
    Float_R16G16,
    R8,
    R16,
    Float_R16,
    A2B10G10R10_sRGB,
    A8B8G8R8_sRGB,
    A16B16G16R16_sRGB,
    A2R10G10B10_sRGB,
    B10G10R10A2_sRGB,
    R10G10B10A2_sRGB,
    X8B8G8R8_sRGB,
    X16B16G16R16_sRGB,
    A2B10G10R10_709,
    A8B8G8R8_709,
    A16B16G16R16_709,
    A2R10G10B10_709,
    B10G10R10A2_709,
    R10G10B10A2_709,
    X8B8G8R8_709,
    X16B16G16R16_709,
    A2B10G10R10_709_Linear,
    A8B8G8R8_709_Linear,
    A16B16G16R16_709_Linear,
    A2R10G10B10_709_Linear,
    B10G10R10A2_709_Linear,
    R10G10B10A2_709_Linear,
    X8B8G8R8_709_Linear,
    X16B16G16R16_709_Linear,
    Float_A16B16G16R16_scRGB_Linear,
    A2B10G10R10_2020,
    A8B8G8R8_2020,
    A16B16G16R16_2020,
    A2R10G10B10_2020,
    B10G10R10A2_2020,
    R10G10B10A2_2020,
    X8B8G8R8_2020,
    X16B16G16R16_2020,
    A2B10G10R10_2020_Linear,
    A8B8G8R8_2020_Linear,
    A16B16G16R16_2020_Linear,
    Float_A16B16G16R16_2020_Linear,
    A2R10G10B10_2020_Linear,
    B10G10R10A2_2020_Linear,
    R10G10B10A2_2020_Linear,
    X8B8G8R8_2020_Linear,
    X16B16G16R16_2020_Linear,
    Float_A16B16G16R16_2020_PQ,
    A4I4,
    A8I8,
    I4A4,
    I8A8,
    I1,
    I2,
    I4,
    I8,
    A8Y8U8V8,
    A16Y16U16V16,
    Y8U8V8A8,
    V8_U8,
    V8U8,
    V10U10,
    V12U12,
    V8,
    V10,
    V12,
    U8_V8,
    U8V8,
    U10V10,
    U12V12,
    U8,
    U10,
    U12,
    Y8,
    Y10,
    Y12,
    YVYU,
    VYUY,
    YUYV,
    UYVY,
    Y8_U8_V8,
    V8_U8_RR,
    V8U8_RR,
    V8_RR,
    U8_V8_RR,
    U8V8_RR,
    U8_RR,
    Y8_RR,
    V8_U8_ER,
    V8U8_ER,
    V8_ER,
    U8_V8_ER,
    U8V8_ER,
    U8_ER,
    Y8_ER,
    V8_U8_709,
    V8U8_709,
    V10U10_709,
    V12U12_709,
    V8_709,
    V10_709,
    V12_709,
    U8_V8_709,
    U8V8_709,
    U10V10_709,
    U12V12_709,
    U8_709,
    U10_709,
    U12_709,
    Y8_709,
    Y10_709,
    Y12_709,
    V8_U8_709_ER,
    V8U8_709_ER,
    V10U10_709_ER,
    V12U12_709_ER,
    V8_709_ER,
    V10_709_ER,
    V12_709_ER,
    U8_V8_709_ER,
    U8V8_709_ER,
    U10V10_709_ER,
    U12V12_709_ER,
    U8_709_ER,
    U10_709_ER,
    U12_709_ER,
    Y8_709_ER,
    Y10_709_ER,
    Y12_709_ER,
    V10U10_2020,
    V12U12_2020,
    V10_2020,
    V12_2020,
    U10V10_2020,
    U12V12_2020,
    U10_2020,
    U12_2020,
    Y10_2020,
    Y12_2020,
    Bayer8RGGB,
    Bayer16RGGB,
    BayerS16RGGB,
    X2Bayer14RGGB,
    X4Bayer12RGGB,
    X6Bayer10RGGB,
    Bayer8BGGR,
    Bayer16BGGR,
    BayerS16BGGR,
    X2Bayer14BGGR,
    X4Bayer12BGGR,
    X6Bayer10BGGR,
    Bayer8GRBG,
    Bayer16GRBG,
    BayerS16GRBG,
    X2Bayer14GRBG,
    X4Bayer12GRBG,
    X6Bayer10GRBG,
    Bayer8GBRG,
    Bayer16GBRG,
    BayerS16GBRG,
    X2Bayer14GBRG,
    X4Bayer12GBRG,
    X6Bayer10GBRG,
    XYZ,
}

impl ColorFormat {
    /// The number that stands for the variant.
    pub open spec fn spec_value(self) -> u64 {
        match self {
            ColorFormat::Unspecified => 0,
            ColorFormat::NonColor8 => 0x9200408,
            ColorFormat::NonColor16 => 0x9200a10,
            ColorFormat::NonColor24 => 0x9201a18,
            ColorFormat::NonColor32 => 0x9201c20,
            ColorFormat::X4C4 => 0x9210508,
            ColorFormat::A4L4 => 0x100490508,
            ColorFormat::A8L8 => 0x100490e10,
            ColorFormat::Float_A16L16 => 0x100495d20,
            ColorFormat::A1B5G5R5 => 0x100531410,
            ColorFormat::A4B4G4R4 => 0x100531510,
            ColorFormat::A5B5G5R1 => 0x100531810,
            ColorFormat::A2B10G10R10 => 0x100532020,
            ColorFormat::A8B8G8R8 => 0x100532120,
            ColorFormat::A16B16G16R16 => 0x100532740,
            ColorFormat::Float_A16B16G16R16 => 0x100536740,
            ColorFormat::A1R5G5B5 => 0x100d11410,
            ColorFormat::A4R4G4B4 => 0x100d11510,
            ColorFormat::A5R1G5B5 => 0x100d11610,
            ColorFormat::A2R10G10B10 => 0x100d12020,
            ColorFormat::A8R8G8B8 => 0x100d12120,
            ColorFormat::A1 => 0x101240101,
            ColorFormat::A2 => 0x101240202,
            ColorFormat::A4 => 0x101240304,
            ColorFormat::A8 => 0x101240408,
            ColorFormat::A16 => 0x101240a10,
            ColorFormat::A32 => 0x101241c20,
            ColorFormat::Float_A16 => 0x101244a10,
            ColorFormat::L4A4 => 0x102000508,
            ColorFormat::L8A8 => 0x102000e10,
            ColorFormat::B4G4R4A4 => 0x1060a1510,
            ColorFormat::B5G5R1A5 => 0x1060a1710,
            ColorFormat::B5G5R5A1 => 0x1060a1810,
            ColorFormat::B8G8R8A8 => 0x1060a2120,
            ColorFormat::B10G10R10A2 => 0x1060a2320,
            ColorFormat::R1G5B5A5 => 0x106881410,
            ColorFormat::R4G4B4A4 => 0x106881510,
            ColorFormat::R5G5B5A1 => 0x106881810,
            ColorFormat::R8G8B8A8 => 0x106882120,
            ColorFormat::R10G10B10A2 => 0x106882320,
            ColorFormat::L1 => 0x10a000101,
            ColorFormat::L2 => 0x10a000202,
            ColorFormat::L4 => 0x10a000304,
            ColorFormat::L8 => 0x10a000408,
            ColorFormat::L16 => 0x10a000a10,
            ColorFormat::L32 => 0x10a001c20,
            ColorFormat::Float_L16 => 0x10a004a10,
            ColorFormat::B5G6R5 => 0x10a0a1210,
            ColorFormat::B6G5R5 => 0x10a0a1310,
            ColorFormat::B5G5R5X1 => 0x10a0a1810,
            ColorFormat::B8_G8_R8 => 0x10a0a1918,
            ColorFormat::B8G8R8X8 => 0x10a0a2120,
            ColorFormat::Float_B10G11R11 => 0x10a0a5e20,
            ColorFormat::X1B5G5R5 => 0x10a531410,
            ColorFormat::X8B8G8R8 => 0x10a532120,
            ColorFormat::X16B16G16R16 => 0x10a532740,
            ColorFormat::Float_X16B16G16R16 => 0x10a536740,
            ColorFormat::R3G3B2 => 0x10a880608,
            ColorFormat::R5G5B6 => 0x10a881110,
            ColorFormat::R5G6B5 => 0x10a881210,
            ColorFormat::R5G5B5X1 => 0x10a881810,
            ColorFormat::R8_G8_B8 => 0x10a881918,
            ColorFormat::R8G8B8X8 => 0x10a882120,
            ColorFormat::X1R5G5B5 => 0x10ad11410,
            ColorFormat::X8R8G8B8 => 0x10ad12120,
            ColorFormat::RG8 => 0x10b080e10,
            ColorFormat::R16G16 => 0x10b081d20,
            ColorFormat::Float_R16G16 => 0x10b085d20,
            ColorFormat::R8 => 0x10b200408,
            ColorFormat::R16 => 0x10b200a10,
            ColorFormat::Float_R16 => 0x10b204a10,
            ColorFormat::A2B10G10R10_sRGB => 0x200532020,
            ColorFormat::A8B8G8R8_sRGB => 0x200532120,
            ColorFormat::A16B16G16R16_sRGB => 0x200532740,
            ColorFormat::A2R10G10B10_sRGB => 0x200d12020,
            ColorFormat::B10G10R10A2_sRGB => 0x2060a2320,
            ColorFormat::R10G10B10A2_sRGB => 0x206882320,
            ColorFormat::X8B8G8R8_sRGB => 0x20a532120,
            ColorFormat::X16B16G16R16_sRGB => 0x20a532740,
            ColorFormat::A2B10G10R10_709 => 0x300532020,
            ColorFormat::A8B8G8R8_709 => 0x300532120,
            ColorFormat::A16B16G16R16_709 => 0x300532740,
            ColorFormat::A2R10G10B10_709 => 0x300d12020,
            ColorFormat::B10G10R10A2_709 => 0x3060a2320,
            ColorFormat::R10G10B10A2_709 => 0x306882320,
            ColorFormat::X8B8G8R8_709 => 0x30a532120,
            ColorFormat::X16B16G16R16_709 => 0x30a532740,
            ColorFormat::A2B10G10R10_709_Linear => 0x400532020,
            ColorFormat::A8B8G8R8_709_Linear => 0x400532120,
            ColorFormat::A16B16G16R16_709_Linear => 0x400532740,
            ColorFormat::A2R10G10B10_709_Linear => 0x400d12020,
            ColorFormat::B10G10R10A2_709_Linear => 0x4060a2320,
            ColorFormat::R10G10B10A2_709_Linear => 0x406882320,
            ColorFormat::X8B8G8R8_709_Linear => 0x40a532120,
            ColorFormat::X16B16G16R16_709_Linear => 0x40a532740,
            ColorFormat::Float_A16B16G16R16_scRGB_Linear => 0x500536740,
            ColorFormat::A2B10G10R10_2020 => 0x600532020,
            ColorFormat::A8B8G8R8_2020 => 0x600532120,
            ColorFormat::A16B16G16R16_2020 => 0x600532740,
            ColorFormat::A2R10G10B10_2020 => 0x600d12020,
            ColorFormat::B10G10R10A2_2020 => 0x6060a2320,
            ColorFormat::R10G10B10A2_2020 => 0x606882320,
            ColorFormat::X8B8G8R8_2020 => 0x60a532120,
            ColorFormat::X16B16G16R16_2020 => 0x60a532740,
            ColorFormat::A2B10G10R10_2020_Linear => 0x700532020,
            ColorFormat::A8B8G8R8_2020_Linear => 0x700532120,
            ColorFormat::A16B16G16R16_2020_Linear => 0x700532740,
            ColorFormat::Float_A16B16G16R16_2020_Linear => 0x700536740,
            ColorFormat::A2R10G10B10_2020_Linear => 0x700d12020,
            ColorFormat::B10G10R10A2_2020_Linear => 0x7060a2320,
            ColorFormat::R10G10B10A2_2020_Linear => 0x706882320,
            ColorFormat::X8B8G8R8_2020_Linear => 0x70a532120,
            ColorFormat::X16B16G16R16_2020_Linear => 0x70a532740,
            ColorFormat::Float_A16B16G16R16_2020_PQ => 0x800536740,
            ColorFormat::A4I4 => 0x901210508,
            ColorFormat::A8I8 => 0x901210e10,
            ColorFormat::I4A4 => 0x903200508,
            ColorFormat::I8A8 => 0x903200e10,
            ColorFormat::I1 => 0x909200101,
            ColorFormat::I2 => 0x909200202,
            ColorFormat::I4 => 0x909200304,
            ColorFormat::I8 => 0x909200408,
            ColorFormat::A8Y8U8V8 => 0xa00d12120,
            ColorFormat::A16Y16U16V16 => 0xa00d12740,
            ColorFormat::Y8U8V8A8 => 0xa06882120,
            ColorFormat::V8_U8 => 0xa080c0710,
            ColorFormat::V8U8 => 0xa080c0e10,
            ColorFormat::V10U10 => 0xa08142220,
            ColorFormat::V12U12 => 0xa08142420,
            ColorFormat::V8 => 0xa08240408,
            ColorFormat::V10 => 0xa08240f10,
            ColorFormat::V12 => 0xa08241010,
            ColorFormat::U8_V8 => 0xa08440710,
            ColorFormat::U8V8 => 0xa08440e10,
            ColorFormat::U10V10 => 0xa08842220,
            ColorFormat::U12V12 => 0xa08842420,
            ColorFormat::U8 => 0xa09040408,
            ColorFormat::U10 => 0xa09040f10,
            ColorFormat::U12 => 0xa09041010,
            ColorFormat::Y8 => 0xa09200408,
            ColorFormat::Y10 => 0xa09200f10,
            ColorFormat::Y12 => 0xa09201010,
            ColorFormat::YVYU => 0xa0a500810,
            ColorFormat::VYUY => 0xa0a500910,
            ColorFormat::YUYV => 0xa0a880810,
            ColorFormat::UYVY => 0xa0a880910,
            ColorFormat::Y8_U8_V8 => 0xa0a881918,
            ColorFormat::V8_U8_RR => 0xb080c0710,
            ColorFormat::V8U8_RR => 0xb080c0e10,
            ColorFormat::V8_RR => 0xb08240408,
            ColorFormat::U8_V8_RR => 0xb08440710,
            ColorFormat::U8V8_RR => 0xb08440e10,
            ColorFormat::U8_RR => 0xb09040408,
            ColorFormat::Y8_RR => 0xb09200408,
            ColorFormat::V8_U8_ER => 0xc080c0710,
            ColorFormat::V8U8_ER => 0xc080c0e10,
            ColorFormat::V8_ER => 0xc08240408,
            ColorFormat::U8_V8_ER => 0xc08440710,
            ColorFormat::U8V8_ER => 0xc08440e10,
            ColorFormat::U8_ER => 0xc09040408,
            ColorFormat::Y8_ER => 0xc09200408,
            ColorFormat::V8_U8_709 => 0xd080c0710,
            ColorFormat::V8U8_709 => 0xd080c0e10,
            ColorFormat::V10U10_709 => 0xd08142220,
            ColorFormat::V12U12_709 => 0xd08142420,
            ColorFormat::V8_709 => 0xd08240408,
            ColorFormat::V10_709 => 0xd08240f10,
            ColorFormat::V12_709 => 0xd08241010,
            ColorFormat::U8_V8_709 => 0xd08440710,
            ColorFormat::U8V8_709 => 0xd08440e10,
            ColorFormat::U10V10_709 => 0xd08842220,
            ColorFormat::U12V12_709 => 0xd08842420,
            ColorFormat::U8_709 => 0xd09040408,
            ColorFormat::U10_709 => 0xd09040f10,
            ColorFormat::U12_709 => 0xd09041010,
            ColorFormat::Y8_709 => 0xd09200408,
            ColorFormat::Y10_709 => 0xd09200f10,
            ColorFormat::Y12_709 => 0xd09201010,
            ColorFormat::V8_U8_709_ER => 0xe080c0710,
            ColorFormat::V8U8_709_ER => 0xe080c0e10,
            ColorFormat::V10U10_709_ER => 0xe08142220,
            ColorFormat::V12U12_709_ER => 0xe08142420,
            ColorFormat::V8_709_ER => 0xe08240408,
            ColorFormat::V10_709_ER => 0xe08240f10,
            ColorFormat::V12_709_ER => 0xe08241010,
            ColorFormat::U8_V8_709_ER => 0xe08440710,
            ColorFormat::U8V8_709_ER => 0xe08440e10,
            ColorFormat::U10V10_709_ER => 0xe08842220,
            ColorFormat::U12V12_709_ER => 0xe08842420,
            ColorFormat::U8_709_ER => 0xe09040408,
            ColorFormat::U10_709_ER => 0xe09040f10,
            ColorFormat::U12_709_ER => 0xe09041010,
            ColorFormat::Y8_709_ER => 0xe09200408,
            ColorFormat::Y10_709_ER => 0xe09200f10,
            ColorFormat::Y12_709_ER => 0xe09201010,
            ColorFormat::V10U10_2020 => 0xf08142220,
            ColorFormat::V12U12_2020 => 0xf08142420,
            ColorFormat::V10_2020 => 0xf08240f10,
            ColorFormat::V12_2020 => 0xf08241010,
            ColorFormat::U10V10_2020 => 0xf08842220,
            ColorFormat::U12V12_2020 => 0xf08842420,
            ColorFormat::U10_2020 => 0xf09040f10,
            ColorFormat::U12_2020 => 0xf09041010,
            ColorFormat::Y10_2020 => 0xf09200f10,
            ColorFormat::Y12_2020 => 0xf09201010,
            ColorFormat::Bayer8RGGB => 0x1009200408,
            ColorFormat::Bayer16RGGB => 0x1009200a10,
            ColorFormat::BayerS16RGGB => 0x1009208a10,
            ColorFormat::X2Bayer14RGGB => 0x1009210b10,
            ColorFormat::X4Bayer12RGGB => 0x1009210c10,
            ColorFormat::X6Bayer10RGGB => 0x1009210d10,
            ColorFormat::Bayer8BGGR => 0x1109200408,
            ColorFormat::Bayer16BGGR => 0x1109200a10,
            ColorFormat::BayerS16BGGR => 0x1109208a10,
            ColorFormat::X2Bayer14BGGR => 0x1109210b10,
            ColorFormat::X4Bayer12BGGR => 0x1109210c10,
            ColorFormat::X6Bayer10BGGR => 0x1109210d10,
            ColorFormat::Bayer8GRBG => 0x1209200408,
            ColorFormat::Bayer16GRBG => 0x1209200a10,
            ColorFormat::BayerS16GRBG => 0x1209208a10,
            ColorFormat::X2Bayer14GRBG => 0x1209210b10,
            ColorFormat::X4Bayer12GRBG => 0x1209210c10,
            ColorFormat::X6Bayer10GRBG => 0x1209210d10,
            ColorFormat::Bayer8GBRG => 0x1309200408,
            ColorFormat::Bayer16GBRG => 0x1309200a10,
            ColorFormat::BayerS16GBRG => 0x1309208a10,
            ColorFormat::X2Bayer14GBRG => 0x1309210b10,
            ColorFormat::X4Bayer12GBRG => 0x1309210c10,
            ColorFormat::X6Bayer10GBRG => 0x1309210d10,
            ColorFormat::XYZ => 0x140a886640,
        }
    }

    /// The variant that `value` stands for, if it stands for one.
    pub open spec fn spec_from_value(value: u64) -> Option<Self> {
        if value == 0 {
            Some(ColorFormat::Unspecified)
        } else if value == 0x9200408 {
            Some(ColorFormat::NonColor8)
        } else if value == 0x9200a10 {
            Some(ColorFormat::NonColor16)
        } else if value == 0x9201a18 {
            Some(ColorFormat::NonColor24)
        } else if value == 0x9201c20 {
            Some(ColorFormat::NonColor32)
        } else if value == 0x9210508 {
            Some(ColorFormat::X4C4)
        } else if value == 0x100490508 {
            Some(ColorFormat::A4L4)
        } else if value == 0x100490e10 {
            Some(ColorFormat::A8L8)
        } else if value == 0x100495d20 {
            Some(ColorFormat::Float_A16L16)
        } else if value == 0x100531410 {
            Some(ColorFormat::A1B5G5R5)
        } else if value == 0x100531510 {
            Some(ColorFormat::A4B4G4R4)
        } else if value == 0x100531810 {
            Some(ColorFormat::A5B5G5R1)
        } else if value == 0x100532020 {
            Some(ColorFormat::A2B10G10R10)
        } else if value == 0x100532120 {
            Some(ColorFormat::A8B8G8R8)
        } else if value == 0x100532740 {
            Some(ColorFormat::A16B16G16R16)
        } else if value == 0x100536740 {
            Some(ColorFormat::Float_A16B16G16R16)
        } else if value == 0x100d11410 {
            Some(ColorFormat::A1R5G5B5)
        } else if value == 0x100d11510 {
            Some(ColorFormat::A4R4G4B4)
        } else if value == 0x100d11610 {
            Some(ColorFormat::A5R1G5B5)
        } else if value == 0x100d12020 {
            Some(ColorFormat::A2R10G10B10)
        } else if value == 0x100d12120 {
            Some(ColorFormat::A8R8G8B8)
        } else if value == 0x101240101 {
            Some(ColorFormat::A1)
        } else if value == 0x101240202 {
            Some(ColorFormat::A2)
        } else if value == 0x101240304 {
            Some(ColorFormat::A4)
        } else if value == 0x101240408 {
            Some(ColorFormat::A8)
        } else if value == 0x101240a10 {
            Some(ColorFormat::A16)
        } else if value == 0x101241c20 {
            Some(ColorFormat::A32)
        } else if value == 0x101244a10 {
            Some(ColorFormat::Float_A16)
        } else if value == 0x102000508 {
            Some(ColorFormat::L4A4)
        } else if value == 0x102000e10 {
            Some(ColorFormat::L8A8)
        } else if value == 0x1060a1510 {
            Some(ColorFormat::B4G4R4A4)
        } else if value == 0x1060a1710 {
            Some(ColorFormat::B5G5R1A5)
        } else if value == 0x1060a1810 {
            Some(ColorFormat::B5G5R5A1)
        } else if value == 0x1060a2120 {
            Some(ColorFormat::B8G8R8A8)
        } else if value == 0x1060a2320 {
            Some(ColorFormat::B10G10R10A2)
        } else if value == 0x106881410 {
            Some(ColorFormat::R1G5B5A5)
        } else if value == 0x106881510 {
            Some(ColorFormat::R4G4B4A4)
        } else if value == 0x106881810 {
            Some(ColorFormat::R5G5B5A1)
        } else if value == 0x106882120 {
            Some(ColorFormat::R8G8B8A8)
        } else if value == 0x106882320 {
            Some(ColorFormat::R10G10B10A2)
        } else if value == 0x10a000101 {
            Some(ColorFormat::L1)
        } else if value == 0x10a000202 {
            Some(ColorFormat::L2)
        } else if value == 0x10a000304 {
            Some(ColorFormat::L4)
        } else if value == 0x10a000408 {
            Some(ColorFormat::L8)
        } else if value == 0x10a000a10 {
            Some(ColorFormat::L16)
        } else if value == 0x10a001c20 {
            Some(ColorFormat::L32)
        } else if value == 0x10a004a10 {
            Some(ColorFormat::Float_L16)
        } else if value == 0x10a0a1210 {
            Some(ColorFormat::B5G6R5)
        } else if value == 0x10a0a1310 {
            Some(ColorFormat::B6G5R5)
        } else if value == 0x10a0a1810 {
            Some(ColorFormat::B5G5R5X1)
        } else if value == 0x10a0a1918 {
            Some(ColorFormat::B8_G8_R8)
        } else if value == 0x10a0a2120 {
            Some(ColorFormat::B8G8R8X8)
        } else if value == 0x10a0a5e20 {
            Some(ColorFormat::Float_B10G11R11)
        } else if value == 0x10a531410 {
            Some(ColorFormat::X1B5G5R5)
        } else if value == 0x10a532120 {
            Some(ColorFormat::X8B8G8R8)
        } else if value == 0x10a532740 {
            Some(ColorFormat::X16B16G16R16)
        } else if value == 0x10a536740 {
            Some(ColorFormat::Float_X16B16G16R16)
        } else if value == 0x10a880608 {
            Some(ColorFormat::R3G3B2)
        } else if value == 0x10a881110 {
            Some(ColorFormat::R5G5B6)
        } else if value == 0x10a881210 {
            Some(ColorFormat::R5G6B5)
        } else if value == 0x10a881810 {
            Some(ColorFormat::R5G5B5X1)
        } else if value == 0x10a881918 {
            Some(ColorFormat::R8_G8_B8)
        } else if value == 0x10a882120 {
            Some(ColorFormat::R8G8B8X8)
        } else if value == 0x10ad11410 {
            Some(ColorFormat::X1R5G5B5)
        } else if value == 0x10ad12120 {
            Some(ColorFormat::X8R8G8B8)
        } else if value == 0x10b080e10 {
            Some(ColorFormat::RG8)
        } else if value == 0x10b081d20 {
            Some(ColorFormat::R16G16)
        } else if value == 0x10b085d20 {
            Some(ColorFormat::Float_R16G16)
        } else if value == 0x10b200408 {
            Some(ColorFormat::R8)
        } else if value == 0x10b200a10 {
            Some(ColorFormat::R16)
        } else if value == 0x10b204a10 {
            Some(ColorFormat::Float_R16)
        } else if value == 0x200532020 {
            Some(ColorFormat::A2B10G10R10_sRGB)
        } else if value == 0x200532120 {
            Some(ColorFormat::A8B8G8R8_sRGB)
        } else if value == 0x200532740 {
            Some(ColorFormat::A16B16G16R16_sRGB)
        } else if value == 0x200d12020 {
            Some(ColorFormat::A2R10G10B10_sRGB)
        } else if value == 0x2060a2320 {
            Some(ColorFormat::B10G10R10A2_sRGB)
        } else if value == 0x206882320 {
            Some(ColorFormat::R10G10B10A2_sRGB)
        } else if value == 0x20a532120 {
            Some(ColorFormat::X8B8G8R8_sRGB)
        } else if value == 0x20a532740 {
            Some(ColorFormat::X16B16G16R16_sRGB)
        } else if value == 0x300532020 {
            Some(ColorFormat::A2B10G10R10_709)
        } else if value == 0x300532120 {
            Some(ColorFormat::A8B8G8R8_709)
        } else if value == 0x300532740 {
            Some(ColorFormat::A16B16G16R16_709)
        } else if value == 0x300d12020 {
            Some(ColorFormat::A2R10G10B10_709)
        } else if value == 0x3060a2320 {
            Some(ColorFormat::B10G10R10A2_709)
        } else if value == 0x306882320 {
            Some(ColorFormat::R10G10B10A2_709)
        } else if value == 0x30a532120 {
            Some(ColorFormat::X8B8G8R8_709)
        } else if value == 0x30a532740 {
            Some(ColorFormat::X16B16G16R16_709)
        } else if value == 0x400532020 {
            Some(ColorFormat::A2B10G10R10_709_Linear)
        } else if value == 0x400532120 {
            Some(ColorFormat::A8B8G8R8_709_Linear)
        } else if value == 0x400532740 {
            Some(ColorFormat::A16B16G16R16_709_Linear)
        } else if value == 0x400d12020 {
            Some(ColorFormat::A2R10G10B10_709_Linear)
        } else if value == 0x4060a2320 {
            Some(ColorFormat::B10G10R10A2_709_Linear)
        } else if value == 0x406882320 {
            Some(ColorFormat::R10G10B10A2_709_Linear)
        } else if value == 0x40a532120 {
            Some(ColorFormat::X8B8G8R8_709_Linear)
        } else if value == 0x40a532740 {
            Some(ColorFormat::X16B16G16R16_709_Linear)
        } else if value == 0x500536740 {
            Some(ColorFormat::Float_A16B16G16R16_scRGB_Linear)
        } else if value == 0x600532020 {
            Some(ColorFormat::A2B10G10R10_2020)
        } else if value == 0x600532120 {
            Some(ColorFormat::A8B8G8R8_2020)
        } else if value == 0x600532740 {
            Some(ColorFormat::A16B16G16R16_2020)
        } else if value == 0x600d12020 {
            Some(ColorFormat::A2R10G10B10_2020)
        } else if value == 0x6060a2320 {
            Some(ColorFormat::B10G10R10A2_2020)
        } else if value == 0x606882320 {
            Some(ColorFormat::R10G10B10A2_2020)
        } else if value == 0x60a532120 {
            Some(ColorFormat::X8B8G8R8_2020)
        } else if value == 0x60a532740 {
            Some(ColorFormat::X16B16G16R16_2020)
        } else if value == 0x700532020 {
            Some(ColorFormat::A2B10G10R10_2020_Linear)
        } else if value == 0x700532120 {
            Some(ColorFormat::A8B8G8R8_2020_Linear)
        } else if value == 0x700532740 {
            Some(ColorFormat::A16B16G16R16_2020_Linear)
        } else if value == 0x700536740 {
            Some(ColorFormat::Float_A16B16G16R16_2020_Linear)
        } else if value == 0x700d12020 {
            Some(ColorFormat::A2R10G10B10_2020_Linear)
        } else if value == 0x7060a2320 {
            Some(ColorFormat::B10G10R10A2_2020_Linear)
        } else if value == 0x706882320 {
            Some(ColorFormat::R10G10B10A2_2020_Linear)
        } else if value == 0x70a532120 {
            Some(ColorFormat::X8B8G8R8_2020_Linear)
        } else if value == 0x70a532740 {
            Some(ColorFormat::X16B16G16R16_2020_Linear)
        } else if value == 0x800536740 {
            Some(ColorFormat::Float_A16B16G16R16_2020_PQ)
        } else if value == 0x901210508 {
            Some(ColorFormat::A4I4)
        } else if value == 0x901210e10 {
            Some(ColorFormat::A8I8)
        } else if value == 0x903200508 {
            Some(ColorFormat::I4A4)
        } else if value == 0x903200e10 {
            Some(ColorFormat::I8A8)
        } else if value == 0x909200101 {
            Some(ColorFormat::I1)
        } else if value == 0x909200202 {
            Some(ColorFormat::I2)
        } else if value == 0x909200304 {
            Some(ColorFormat::I4)
        } else if value == 0x909200408 {
            Some(ColorFormat::I8)
        } else if value == 0xa00d12120 {
            Some(ColorFormat::A8Y8U8V8)
        } else if value == 0xa00d12740 {
            Some(ColorFormat::A16Y16U16V16)
        } else if value == 0xa06882120 {
            Some(ColorFormat::Y8U8V8A8)
        } else if value == 0xa080c0710 {
            Some(ColorFormat::V8_U8)
        } else if value == 0xa080c0e10 {
            Some(ColorFormat::V8U8)
        } else if value == 0xa08142220 {
            Some(ColorFormat::V10U10)
        } else if value == 0xa08142420 {
            Some(ColorFormat::V12U12)
        } else if value == 0xa08240408 {
            Some(ColorFormat::V8)
        } else if value == 0xa08240f10 {
            Some(ColorFormat::V10)
        } else if value == 0xa08241010 {
            Some(ColorFormat::V12)
        } else if value == 0xa08440710 {
            Some(ColorFormat::U8_V8)
        } else if value == 0xa08440e10 {
            Some(ColorFormat::U8V8)
        } else if value == 0xa08842220 {
            Some(ColorFormat::U10V10)
        } else if value == 0xa08842420 {
            Some(ColorFormat::U12V12)
        } else if value == 0xa09040408 {
            Some(ColorFormat::U8)
        } else if value == 0xa09040f10 {
            Some(ColorFormat::U10)
        } else if value == 0xa09041010 {
            Some(ColorFormat::U12)
        } else if value == 0xa09200408 {
            Some(ColorFormat::Y8)
        } else if value == 0xa09200f10 {
            Some(ColorFormat::Y10)
        } else if value == 0xa09201010 {
            Some(ColorFormat::Y12)
        } else if value == 0xa0a500810 {
            Some(ColorFormat::YVYU)
        } else if value == 0xa0a500910 {
            Some(ColorFormat::VYUY)
        } else if value == 0xa0a880810 {
            Some(ColorFormat::YUYV)
        } else if value == 0xa0a880910 {
            Some(ColorFormat::UYVY)
        } else if value == 0xa0a881918 {
            Some(ColorFormat::Y8_U8_V8)
        } else if value == 0xb080c0710 {
            Some(ColorFormat::V8_U8_RR)
        } else if value == 0xb080c0e10 {
            Some(ColorFormat::V8U8_RR)
        } else if value == 0xb08240408 {
            Some(ColorFormat::V8_RR)
        } else if value == 0xb08440710 {
            Some(ColorFormat::U8_V8_RR)
        } else if value == 0xb08440e10 {
            Some(ColorFormat::U8V8_RR)
        } else if value == 0xb09040408 {
            Some(ColorFormat::U8_RR)
        } else if value == 0xb09200408 {
            Some(ColorFormat::Y8_RR)
        } else if value == 0xc080c0710 {
            Some(ColorFormat::V8_U8_ER)
        } else if value == 0xc080c0e10 {
            Some(ColorFormat::V8U8_ER)
        } else if value == 0xc08240408 {
            Some(ColorFormat::V8_ER)
        } else if value == 0xc08440710 {
            Some(ColorFormat::U8_V8_ER)
        } else if value == 0xc08440e10 {
            Some(ColorFormat::U8V8_ER)
        } else if value == 0xc09040408 {
            Some(ColorFormat::U8_ER)
        } else if value == 0xc09200408 {
            Some(ColorFormat::Y8_ER)
        } else if value == 0xd080c0710 {
            Some(ColorFormat::V8_U8_709)
        } else if value == 0xd080c0e10 {
            Some(ColorFormat::V8U8_709)
        } else if value == 0xd08142220 {
            Some(ColorFormat::V10U10_709)
        } else if value == 0xd08142420 {
            Some(ColorFormat::V12U12_709)
        } else if value == 0xd08240408 {
            Some(ColorFormat::V8_709)
        } else if value == 0xd08240f10 {
            Some(ColorFormat::V10_709)
        } else if value == 0xd08241010 {
            Some(ColorFormat::V12_709)
        } else if value == 0xd08440710 {
            Some(ColorFormat::U8_V8_709)
        } else if value == 0xd08440e10 {
            Some(ColorFormat::U8V8_709)
        } else if value == 0xd08842220 {
            Some(ColorFormat::U10V10_709)
        } else if value == 0xd08842420 {
            Some(ColorFormat::U12V12_709)
        } else if value == 0xd09040408 {
            Some(ColorFormat::U8_709)
        } else if value == 0xd09040f10 {
            Some(ColorFormat::U10_709)
        } else if value == 0xd09041010 {
            Some(ColorFormat::U12_709)
        } else if value == 0xd09200408 {
            Some(ColorFormat::Y8_709)
        } else if value == 0xd09200f10 {
            Some(ColorFormat::Y10_709)
        } else if value == 0xd09201010 {
            Some(ColorFormat::Y12_709)
        } else if value == 0xe080c0710 {
            Some(ColorFormat::V8_U8_709_ER)
        } else if value == 0xe080c0e10 {
            Some(ColorFormat::V8U8_709_ER)
        } else if value == 0xe08142220 {
            Some(ColorFormat::V10U10_709_ER)
        } else if value == 0xe08142420 {
            Some(ColorFormat::V12U12_709_ER)
        } else if value == 0xe08240408 {
            Some(ColorFormat::V8_709_ER)
        } else if value == 0xe08240f10 {
            Some(ColorFormat::V10_709_ER)
        } else if value == 0xe08241010 {
            Some(ColorFormat::V12_709_ER)
        } else if value == 0xe08440710 {
            Some(ColorFormat::U8_V8_709_ER)
        } else if value == 0xe08440e10 {
            Some(ColorFormat::U8V8_709_ER)
        } else if value == 0xe08842220 {
            Some(ColorFormat::U10V10_709_ER)
        } else if value == 0xe08842420 {
            Some(ColorFormat::U12V12_709_ER)
        } else if value == 0xe09040408 {
            Some(ColorFormat::U8_709_ER)
        } else if value == 0xe09040f10 {
            Some(ColorFormat::U10_709_ER)
        } else if value == 0xe09041010 {
            Some(ColorFormat::U12_709_ER)
        } else if value == 0xe09200408 {
            Some(ColorFormat::Y8_709_ER)
        } else if value == 0xe09200f10 {
            Some(ColorFormat::Y10_709_ER)
        } else if value == 0xe09201010 {
            Some(ColorFormat::Y12_709_ER)
        } else if value == 0xf08142220 {
            Some(ColorFormat::V10U10_2020)
        } else if value == 0xf08142420 {
            Some(ColorFormat::V12U12_2020)
        } else if value == 0xf08240f10 {
            Some(ColorFormat::V10_2020)
        } else if value == 0xf08241010 {
            Some(ColorFormat::V12_2020)
        } else if value == 0xf08842220 {
            Some(ColorFormat::U10V10_2020)
        } else if value == 0xf08842420 {
            Some(ColorFormat::U12V12_2020)
        } else if value == 0xf09040f10 {
            Some(ColorFormat::U10_2020)
        } else if value == 0xf09041010 {
            Some(ColorFormat::U12_2020)
        } else if value == 0xf09200f10 {
            Some(ColorFormat::Y10_2020)
        } else if value == 0xf09201010 {
            Some(ColorFormat::Y12_2020)
        } else if value == 0x1009200408 {
            Some(ColorFormat::Bayer8RGGB)
        } else if value == 0x1009200a10 {
            Some(ColorFormat::Bayer16RGGB)
        } else if value == 0x1009208a10 {
            Some(ColorFormat::BayerS16RGGB)
        } else if value == 0x1009210b10 {
            Some(ColorFormat::X2Bayer14RGGB)
        } else if value == 0x1009210c10 {
            Some(ColorFormat::X4Bayer12RGGB)
        } else if value == 0x1009210d10 {
            Some(ColorFormat::X6Bayer10RGGB)
        } else if value == 0x1109200408 {
            Some(ColorFormat::Bayer8BGGR)
        } else if value == 0x1109200a10 {
            Some(ColorFormat::Bayer16BGGR)
        } else if value == 0x1109208a10 {
            Some(ColorFormat::BayerS16BGGR)
        } else if value == 0x1109210b10 {
            Some(ColorFormat::X2Bayer14BGGR)
        } else if value == 0x1109210c10 {
            Some(ColorFormat::X4Bayer12BGGR)
        } else if value == 0x1109210d10 {
            Some(ColorFormat::X6Bayer10BGGR)
        } else if value == 0x1209200408 {
            Some(ColorFormat::Bayer8GRBG)
        } else if value == 0x1209200a10 {
            Some(ColorFormat::Bayer16GRBG)
        } else if value == 0x1209208a10 {
            Some(ColorFormat::BayerS16GRBG)
        } else if value == 0x1209210b10 {
            Some(ColorFormat::X2Bayer14GRBG)
        } else if value == 0x1209210c10 {
            Some(ColorFormat::X4Bayer12GRBG)
        } else if value == 0x1209210d10 {
            Some(ColorFormat::X6Bayer10GRBG)
        } else if value == 0x1309200408 {
            Some(ColorFormat::Bayer8GBRG)
        } else if value == 0x1309200a10 {
            Some(ColorFormat::Bayer16GBRG)
        } else if value == 0x1309208a10 {
            Some(ColorFormat::BayerS16GBRG)
        } else if value == 0x1309210b10 {
            Some(ColorFormat::X2Bayer14GBRG)
        } else if value == 0x1309210c10 {
            Some(ColorFormat::X4Bayer12GBRG)
        } else if value == 0x1309210d10 {
            Some(ColorFormat::X6Bayer10GBRG)
        } else if value == 0x140a886640 {
            Some(ColorFormat::XYZ)
        } else {
            None
        }
    }

    pub fn value(self) -> (value: u64)
        ensures
            value == self.spec_value(),
    {
        match self {
            ColorFormat::Unspecified => 0,
            ColorFormat::NonColor8 => 0x9200408,
            ColorFormat::NonColor16 => 0x9200a10,
            ColorFormat::NonColor24 => 0x9201a18,
            ColorFormat::NonColor32 => 0x9201c20,
            ColorFormat::X4C4 => 0x9210508,
            ColorFormat::A4L4 => 0x100490508,
            ColorFormat::A8L8 => 0x100490e10,
            ColorFormat::Float_A16L16 => 0x100495d20,
            ColorFormat::A1B5G5R5 => 0x100531410,
            ColorFormat::A4B4G4R4 => 0x100531510,
            ColorFormat::A5B5G5R1 => 0x100531810,
            ColorFormat::A2B10G10R10 => 0x100532020,
            ColorFormat::A8B8G8R8 => 0x100532120,
            ColorFormat::A16B16G16R16 => 0x100532740,
            ColorFormat::Float_A16B16G16R16 => 0x100536740,
            ColorFormat::A1R5G5B5 => 0x100d11410,
            ColorFormat::A4R4G4B4 => 0x100d11510,
            ColorFormat::A5R1G5B5 => 0x100d11610,
            ColorFormat::A2R10G10B10 => 0x100d12020,
            ColorFormat::A8R8G8B8 => 0x100d12120,
            ColorFormat::A1 => 0x101240101,
            ColorFormat::A2 => 0x101240202,
            ColorFormat::A4 => 0x101240304,
            ColorFormat::A8 => 0x101240408,
            ColorFormat::A16 => 0x101240a10,
            ColorFormat::A32 => 0x101241c20,
            ColorFormat::Float_A16 => 0x101244a10,
            ColorFormat::L4A4 => 0x102000508,
            ColorFormat::L8A8 => 0x102000e10,
            ColorFormat::B4G4R4A4 => 0x1060a1510,
            ColorFormat::B5G5R1A5 => 0x1060a1710,
            ColorFormat::B5G5R5A1 => 0x1060a1810,
            ColorFormat::B8G8R8A8 => 0x1060a2120,
            ColorFormat::B10G10R10A2 => 0x1060a2320,
            ColorFormat::R1G5B5A5 => 0x106881410,
            ColorFormat::R4G4B4A4 => 0x106881510,
            ColorFormat::R5G5B5A1 => 0x106881810,
            ColorFormat::R8G8B8A8 => 0x106882120,
            ColorFormat::R10G10B10A2 => 0x106882320,
            ColorFormat::L1 => 0x10a000101,
            ColorFormat::L2 => 0x10a000202,
            ColorFormat::L4 => 0x10a000304,
            ColorFormat::L8 => 0x10a000408,
            ColorFormat::L16 => 0x10a000a10,
            ColorFormat::L32 => 0x10a001c20,
            ColorFormat::Float_L16 => 0x10a004a10,
            ColorFormat::B5G6R5 => 0x10a0a1210,
            ColorFormat::B6G5R5 => 0x10a0a1310,
            ColorFormat::B5G5R5X1 => 0x10a0a1810,
            ColorFormat::B8_G8_R8 => 0x10a0a1918,
            ColorFormat::B8G8R8X8 => 0x10a0a2120,
            ColorFormat::Float_B10G11R11 => 0x10a0a5e20,
            ColorFormat::X1B5G5R5 => 0x10a531410,
            ColorFormat::X8B8G8R8 => 0x10a532120,
            ColorFormat::X16B16G16R16 => 0x10a532740,
            ColorFormat::Float_X16B16G16R16 => 0x10a536740,
            ColorFormat::R3G3B2 => 0x10a880608,
            ColorFormat::R5G5B6 => 0x10a881110,
            ColorFormat::R5G6B5 => 0x10a881210,
            ColorFormat::R5G5B5X1 => 0x10a881810,
            ColorFormat::R8_G8_B8 => 0x10a881918,
            ColorFormat::R8G8B8X8 => 0x10a882120,
            ColorFormat::X1R5G5B5 => 0x10ad11410,
            ColorFormat::X8R8G8B8 => 0x10ad12120,
            ColorFormat::RG8 => 0x10b080e10,
            ColorFormat::R16G16 => 0x10b081d20,
            ColorFormat::Float_R16G16 => 0x10b085d20,
            ColorFormat::R8 => 0x10b200408,
            ColorFormat::R16 => 0x10b200a10,
            ColorFormat::Float_R16 => 0x10b204a10,
            ColorFormat::A2B10G10R10_sRGB => 0x200532020,
            ColorFormat::A8B8G8R8_sRGB => 0x200532120,
            ColorFormat::A16B16G16R16_sRGB => 0x200532740,
            ColorFormat::A2R10G10B10_sRGB => 0x200d12020,
            ColorFormat::B10G10R10A2_sRGB => 0x2060a2320,
            ColorFormat::R10G10B10A2_sRGB => 0x206882320,
            ColorFormat::X8B8G8R8_sRGB => 0x20a532120,
            ColorFormat::X16B16G16R16_sRGB => 0x20a532740,
            ColorFormat::A2B10G10R10_709 => 0x300532020,
            ColorFormat::A8B8G8R8_709 => 0x300532120,
            ColorFormat::A16B16G16R16_709 => 0x300532740,
            ColorFormat::A2R10G10B10_709 => 0x300d12020,
            ColorFormat::B10G10R10A2_709 => 0x3060a2320,
            ColorFormat::R10G10B10A2_709 => 0x306882320,
            ColorFormat::X8B8G8R8_709 => 0x30a532120,
            ColorFormat::X16B16G16R16_709 => 0x30a532740,
            ColorFormat::A2B10G10R10_709_Linear => 0x400532020,
            ColorFormat::A8B8G8R8_709_Linear => 0x400532120,
            ColorFormat::A16B16G16R16_709_Linear => 0x400532740,
            ColorFormat::A2R10G10B10_709_Linear => 0x400d12020,
            ColorFormat::B10G10R10A2_709_Linear => 0x4060a2320,
            ColorFormat::R10G10B10A2_709_Linear => 0x406882320,
            ColorFormat::X8B8G8R8_709_Linear => 0x40a532120,
            ColorFormat::X16B16G16R16_709_Linear => 0x40a532740,
            ColorFormat::Float_A16B16G16R16_scRGB_Linear => 0x500536740,
            ColorFormat::A2B10G10R10_2020 => 0x600532020,
            ColorFormat::A8B8G8R8_2020 => 0x600532120,
            ColorFormat::A16B16G16R16_2020 => 0x600532740,
            ColorFormat::A2R10G10B10_2020 => 0x600d12020,
            ColorFormat::B10G10R10A2_2020 => 0x6060a2320,
            ColorFormat::R10G10B10A2_2020 => 0x606882320,
            ColorFormat::X8B8G8R8_2020 => 0x60a532120,
            ColorFormat::X16B16G16R16_2020 => 0x60a532740,
            ColorFormat::A2B10G10R10_2020_Linear => 0x700532020,
            ColorFormat::A8B8G8R8_2020_Linear => 0x700532120,
            ColorFormat::A16B16G16R16_2020_Linear => 0x700532740,
            ColorFormat::Float_A16B16G16R16_2020_Linear => 0x700536740,
            ColorFormat::A2R10G10B10_2020_Linear => 0x700d12020,
            ColorFormat::B10G10R10A2_2020_Linear => 0x7060a2320,
            ColorFormat::R10G10B10A2_2020_Linear => 0x706882320,
            ColorFormat::X8B8G8R8_2020_Linear => 0x70a532120,
            ColorFormat::X16B16G16R16_2020_Linear => 0x70a532740,
            ColorFormat::Float_A16B16G16R16_2020_PQ => 0x800536740,
            ColorFormat::A4I4 => 0x901210508,
            ColorFormat::A8I8 => 0x901210e10,
            ColorFormat::I4A4 => 0x903200508,
            ColorFormat::I8A8 => 0x903200e10,
            ColorFormat::I1 => 0x909200101,
            ColorFormat::I2 => 0x909200202,
            ColorFormat::I4 => 0x909200304,
            ColorFormat::I8 => 0x909200408,
            ColorFormat::A8Y8U8V8 => 0xa00d12120,
            ColorFormat::A16Y16U16V16 => 0xa00d12740,
            ColorFormat::Y8U8V8A8 => 0xa06882120,
            ColorFormat::V8_U8 => 0xa080c0710,
            ColorFormat::V8U8 => 0xa080c0e10,
            ColorFormat::V10U10 => 0xa08142220,
            ColorFormat::V12U12 => 0xa08142420,
            ColorFormat::V8 => 0xa08240408,
            ColorFormat::V10 => 0xa08240f10,
            ColorFormat::V12 => 0xa08241010,
            ColorFormat::U8_V8 => 0xa08440710,
            ColorFormat::U8V8 => 0xa08440e10,
            ColorFormat::U10V10 => 0xa08842220,
            ColorFormat::U12V12 => 0xa08842420,
            ColorFormat::U8 => 0xa09040408,
            ColorFormat::U10 => 0xa09040f10,
            ColorFormat::U12 => 0xa09041010,
            ColorFormat::Y8 => 0xa09200408,
            ColorFormat::Y10 => 0xa09200f10,
            ColorFormat::Y12 => 0xa09201010,
            ColorFormat::YVYU => 0xa0a500810,
            ColorFormat::VYUY => 0xa0a500910,
            ColorFormat::YUYV => 0xa0a880810,
            ColorFormat::UYVY => 0xa0a880910,
            ColorFormat::Y8_U8_V8 => 0xa0a881918,
            ColorFormat::V8_U8_RR => 0xb080c0710,
            ColorFormat::V8U8_RR => 0xb080c0e10,
            ColorFormat::V8_RR => 0xb08240408,
            ColorFormat::U8_V8_RR => 0xb08440710,
            ColorFormat::U8V8_RR => 0xb08440e10,
            ColorFormat::U8_RR => 0xb09040408,
            ColorFormat::Y8_RR => 0xb09200408,
            ColorFormat::V8_U8_ER => 0xc080c0710,
            ColorFormat::V8U8_ER => 0xc080c0e10,
            ColorFormat::V8_ER => 0xc08240408,
            ColorFormat::U8_V8_ER => 0xc08440710,
            ColorFormat::U8V8_ER => 0xc08440e10,
            ColorFormat::U8_ER => 0xc09040408,
            ColorFormat::Y8_ER => 0xc09200408,
            ColorFormat::V8_U8_709 => 0xd080c0710,
            ColorFormat::V8U8_709 => 0xd080c0e10,
            ColorFormat::V10U10_709 => 0xd08142220,
            ColorFormat::V12U12_709 => 0xd08142420,
            ColorFormat::V8_709 => 0xd08240408,
            ColorFormat::V10_709 => 0xd08240f10,
            ColorFormat::V12_709 => 0xd08241010,
            ColorFormat::U8_V8_709 => 0xd08440710,
            ColorFormat::U8V8_709 => 0xd08440e10,
            ColorFormat::U10V10_709 => 0xd08842220,
            ColorFormat::U12V12_709 => 0xd08842420,
            ColorFormat::U8_709 => 0xd09040408,
            ColorFormat::U10_709 => 0xd09040f10,
            ColorFormat::U12_709 => 0xd09041010,
            ColorFormat::Y8_709 => 0xd09200408,
            ColorFormat::Y10_709 => 0xd09200f10,
            ColorFormat::Y12_709 => 0xd09201010,
            ColorFormat::V8_U8_709_ER => 0xe080c0710,
            ColorFormat::V8U8_709_ER => 0xe080c0e10,
            ColorFormat::V10U10_709_ER => 0xe08142220,
            ColorFormat::V12U12_709_ER => 0xe08142420,
            ColorFormat::V8_709_ER => 0xe08240408,
            ColorFormat::V10_709_ER => 0xe08240f10,
            ColorFormat::V12_709_ER => 0xe08241010,
            ColorFormat::U8_V8_709_ER => 0xe08440710,
            ColorFormat::U8V8_709_ER => 0xe08440e10,
            ColorFormat::U10V10_709_ER => 0xe08842220,
            ColorFormat::U12V12_709_ER => 0xe08842420,
            ColorFormat::U8_709_ER => 0xe09040408,
            ColorFormat::U10_709_ER => 0xe09040f10,
            ColorFormat::U12_709_ER => 0xe09041010,
            ColorFormat::Y8_709_ER => 0xe09200408,
            ColorFormat::Y10_709_ER => 0xe09200f10,
            ColorFormat::Y12_709_ER => 0xe09201010,
            ColorFormat::V10U10_2020 => 0xf08142220,
            ColorFormat::V12U12_2020 => 0xf08142420,
            ColorFormat::V10_2020 => 0xf08240f10,
            ColorFormat::V12_2020 => 0xf08241010,
            ColorFormat::U10V10_2020 => 0xf08842220,
            ColorFormat::U12V12_2020 => 0xf08842420,
            ColorFormat::U10_2020 => 0xf09040f10,
            ColorFormat::U12_2020 => 0xf09041010,
            ColorFormat::Y10_2020 => 0xf09200f10,
            ColorFormat::Y12_2020 => 0xf09201010,
            ColorFormat::Bayer8RGGB => 0x1009200408,
            ColorFormat::Bayer16RGGB => 0x1009200a10,
            ColorFormat::BayerS16RGGB => 0x1009208a10,
            ColorFormat::X2Bayer14RGGB => 0x1009210b10,
            ColorFormat::X4Bayer12RGGB => 0x1009210c10,
            ColorFormat::X6Bayer10RGGB => 0x1009210d10,
            ColorFormat::Bayer8BGGR => 0x1109200408,
            ColorFormat::Bayer16BGGR => 0x1109200a10,
            ColorFormat::BayerS16BGGR => 0x1109208a10,
            ColorFormat::X2Bayer14BGGR => 0x1109210b10,
            ColorFormat::X4Bayer12BGGR => 0x1109210c10,
            ColorFormat::X6Bayer10BGGR => 0x1109210d10,
            ColorFormat::Bayer8GRBG => 0x1209200408,
            ColorFormat::Bayer16GRBG => 0x1209200a10,
            ColorFormat::BayerS16GRBG => 0x1209208a10,
            ColorFormat::X2Bayer14GRBG => 0x1209210b10,
            ColorFormat::X4Bayer12GRBG => 0x1209210c10,
            ColorFormat::X6Bayer10GRBG => 0x1209210d10,
            ColorFormat::Bayer8GBRG => 0x1309200408,
            ColorFormat::Bayer16GBRG => 0x1309200a10,
            ColorFormat::BayerS16GBRG => 0x1309208a10,
            ColorFormat::X2Bayer14GBRG => 0x1309210b10,
            ColorFormat::X4Bayer12GBRG => 0x1309210c10,
            ColorFormat::X6Bayer10GBRG => 0x1309210d10,
            ColorFormat::XYZ => 0x140a886640,
        }
    }

    /// The variant that `value` stands for, if it stands for one.
    #[verifier::rlimit(50)]
    pub fn from_value(value: u64) -> (variant: Option<Self>)
        ensures
            variant == Self::spec_from_value(value),
    {
        if value == 0 {
            Some(ColorFormat::Unspecified)
        } else if value == 0x9200408 {
            Some(ColorFormat::NonColor8)
        } else if value == 0x9200a10 {
            Some(ColorFormat::NonColor16)
        } else if value == 0x9201a18 {
            Some(ColorFormat::NonColor24)
        } else if value == 0x9201c20 {
            Some(ColorFormat::NonColor32)
        } else if value == 0x9210508 {
            Some(ColorFormat::X4C4)
        } else if value == 0x100490508 {
            Some(ColorFormat::A4L4)
        } else if value == 0x100490e10 {
            Some(ColorFormat::A8L8)
        } else if value == 0x100495d20 {
            Some(ColorFormat::Float_A16L16)
        } else if value == 0x100531410 {
            Some(ColorFormat::A1B5G5R5)
        } else if value == 0x100531510 {
            Some(ColorFormat::A4B4G4R4)
        } else if value == 0x100531810 {
            Some(ColorFormat::A5B5G5R1)
        } else if value == 0x100532020 {
            Some(ColorFormat::A2B10G10R10)
        } else if value == 0x100532120 {
            Some(ColorFormat::A8B8G8R8)
        } else if value == 0x100532740 {
            Some(ColorFormat::A16B16G16R16)
        } else if value == 0x100536740 {
            Some(ColorFormat::Float_A16B16G16R16)
        } else if value == 0x100d11410 {
            Some(ColorFormat::A1R5G5B5)
        } else if value == 0x100d11510 {
            Some(ColorFormat::A4R4G4B4)
        } else if value == 0x100d11610 {
            Some(ColorFormat::A5R1G5B5)
        } else if value == 0x100d12020 {
            Some(ColorFormat::A2R10G10B10)
        } else if value == 0x100d12120 {
            Some(ColorFormat::A8R8G8B8)
        } else if value == 0x101240101 {
            Some(ColorFormat::A1)
        } else if value == 0x101240202 {
            Some(ColorFormat::A2)
        } else if value == 0x101240304 {
            Some(ColorFormat::A4)
        } else if value == 0x101240408 {
            Some(ColorFormat::A8)
        } else if value == 0x101240a10 {
            Some(ColorFormat::A16)
        } else if value == 0x101241c20 {
            Some(ColorFormat::A32)
        } else if value == 0x101244a10 {
            Some(ColorFormat::Float_A16)
        } else if value == 0x102000508 {
            Some(ColorFormat::L4A4)
        } else if value == 0x102000e10 {
            Some(ColorFormat::L8A8)
        } else if value == 0x1060a1510 {
            Some(ColorFormat::B4G4R4A4)
        } else if value == 0x1060a1710 {
            Some(ColorFormat::B5G5R1A5)
        } else if value == 0x1060a1810 {
            Some(ColorFormat::B5G5R5A1)
        } else if value == 0x1060a2120 {
            Some(ColorFormat::B8G8R8A8)
        } else if value == 0x1060a2320 {
            Some(ColorFormat::B10G10R10A2)
        } else if value == 0x106881410 {
            Some(ColorFormat::R1G5B5A5)
        } else if value == 0x106881510 {
            Some(ColorFormat::R4G4B4A4)
        } else if value == 0x106881810 {
            Some(ColorFormat::R5G5B5A1)
        } else if value == 0x106882120 {
            Some(ColorFormat::R8G8B8A8)
        } else if value == 0x106882320 {
            Some(ColorFormat::R10G10B10A2)
        } else if value == 0x10a000101 {
            Some(ColorFormat::L1)
        } else if value == 0x10a000202 {
            Some(ColorFormat::L2)
        } else if value == 0x10a000304 {
            Some(ColorFormat::L4)
        } else if value == 0x10a000408 {
            Some(ColorFormat::L8)
        } else if value == 0x10a000a10 {
            Some(ColorFormat::L16)
        } else if value == 0x10a001c20 {
            Some(ColorFormat::L32)
        } else if value == 0x10a004a10 {
            Some(ColorFormat::Float_L16)
        } else if value == 0x10a0a1210 {
            Some(ColorFormat::B5G6R5)
        } else if value == 0x10a0a1310 {
            Some(ColorFormat::B6G5R5)
        } else if value == 0x10a0a1810 {
            Some(ColorFormat::B5G5R5X1)
        } else if value == 0x10a0a1918 {
            Some(ColorFormat::B8_G8_R8)
        } else if value == 0x10a0a2120 {
            Some(ColorFormat::B8G8R8X8)
        } else if value == 0x10a0a5e20 {
            Some(ColorFormat::Float_B10G11R11)
        } else if value == 0x10a531410 {
            Some(ColorFormat::X1B5G5R5)
        } else if value == 0x10a532120 {
            Some(ColorFormat::X8B8G8R8)
        } else if value == 0x10a532740 {
            Some(ColorFormat::X16B16G16R16)
        } else if value == 0x10a536740 {
            Some(ColorFormat::Float_X16B16G16R16)
        } else if value == 0x10a880608 {
            Some(ColorFormat::R3G3B2)
        } else if value == 0x10a881110 {
            Some(ColorFormat::R5G5B6)
        } else if value == 0x10a881210 {
            Some(ColorFormat::R5G6B5)
        } else if value == 0x10a881810 {
            Some(ColorFormat::R5G5B5X1)
        } else if value == 0x10a881918 {
            Some(ColorFormat::R8_G8_B8)
        } else if value == 0x10a882120 {
            Some(ColorFormat::R8G8B8X8)
        } else if value == 0x10ad11410 {
            Some(ColorFormat::X1R5G5B5)
        } else if value == 0x10ad12120 {
            Some(ColorFormat::X8R8G8B8)
        } else if value == 0x10b080e10 {
            Some(ColorFormat::RG8)
        } else if value == 0x10b081d20 {
            Some(ColorFormat::R16G16)
        } else if value == 0x10b085d20 {
            Some(ColorFormat::Float_R16G16)
        } else if value == 0x10b200408 {
            Some(ColorFormat::R8)
        } else if value == 0x10b200a10 {
            Some(ColorFormat::R16)
        } else if value == 0x10b204a10 {
            Some(ColorFormat::Float_R16)
        } else if value == 0x200532020 {
            Some(ColorFormat::A2B10G10R10_sRGB)
        } else if value == 0x200532120 {
            Some(ColorFormat::A8B8G8R8_sRGB)
        } else if value == 0x200532740 {
            Some(ColorFormat::A16B16G16R16_sRGB)
        } else if value == 0x200d12020 {
            Some(ColorFormat::A2R10G10B10_sRGB)
        } else if value == 0x2060a2320 {
            Some(ColorFormat::B10G10R10A2_sRGB)
        } else if value == 0x206882320 {
            Some(ColorFormat::R10G10B10A2_sRGB)
        } else if value == 0x20a532120 {
            Some(ColorFormat::X8B8G8R8_sRGB)
        } else if value == 0x20a532740 {
            Some(ColorFormat::X16B16G16R16_sRGB)
        } else if value == 0x300532020 {
            Some(ColorFormat::A2B10G10R10_709)
        } else if value == 0x300532120 {
            Some(ColorFormat::A8B8G8R8_709)
        } else if value == 0x300532740 {
            Some(ColorFormat::A16B16G16R16_709)
        } else if value == 0x300d12020 {
            Some(ColorFormat::A2R10G10B10_709)
        } else if value == 0x3060a2320 {
            Some(ColorFormat::B10G10R10A2_709)
        } else if value == 0x306882320 {
            Some(ColorFormat::R10G10B10A2_709)
        } else if value == 0x30a532120 {
            Some(ColorFormat::X8B8G8R8_709)
        } else if value == 0x30a532740 {
            Some(ColorFormat::X16B16G16R16_709)
        } else if value == 0x400532020 {
            Some(ColorFormat::A2B10G10R10_709_Linear)
        } else if value == 0x400532120 {
            Some(ColorFormat::A8B8G8R8_709_Linear)
        } else if value == 0x400532740 {
            Some(ColorFormat::A16B16G16R16_709_Linear)
        } else if value == 0x400d12020 {
            Some(ColorFormat::A2R10G10B10_709_Linear)
        } else if value == 0x4060a2320 {
            Some(ColorFormat::B10G10R10A2_709_Linear)
        } else if value == 0x406882320 {
            Some(ColorFormat::R10G10B10A2_709_Linear)
        } else if value == 0x40a532120 {
            Some(ColorFormat::X8B8G8R8_709_Linear)
        } else if value == 0x40a532740 {
            Some(ColorFormat::X16B16G16R16_709_Linear)
        } else if value == 0x500536740 {
            Some(ColorFormat::Float_A16B16G16R16_scRGB_Linear)
        } else if value == 0x600532020 {
            Some(ColorFormat::A2B10G10R10_2020)
        } else if value == 0x600532120 {
            Some(ColorFormat::A8B8G8R8_2020)
        } else if value == 0x600532740 {
            Some(ColorFormat::A16B16G16R16_2020)
        } else if value == 0x600d12020 {
            Some(ColorFormat::A2R10G10B10_2020)
        } else if value == 0x6060a2320 {
            Some(ColorFormat::B10G10R10A2_2020)
        } else if value == 0x606882320 {
            Some(ColorFormat::R10G10B10A2_2020)
        } else if value == 0x60a532120 {
            Some(ColorFormat::X8B8G8R8_2020)
        } else if value == 0x60a532740 {
            Some(ColorFormat::X16B16G16R16_2020)
        } else if value == 0x700532020 {
            Some(ColorFormat::A2B10G10R10_2020_Linear)
        } else if value == 0x700532120 {
            Some(ColorFormat::A8B8G8R8_2020_Linear)
        } else if value == 0x700532740 {
            Some(ColorFormat::A16B16G16R16_2020_Linear)
        } else if value == 0x700536740 {
            Some(ColorFormat::Float_A16B16G16R16_2020_Linear)
        } else if value == 0x700d12020 {
            Some(ColorFormat::A2R10G10B10_2020_Linear)
        } else if value == 0x7060a2320 {
            Some(ColorFormat::B10G10R10A2_2020_Linear)
        } else if value == 0x706882320 {
            Some(ColorFormat::R10G10B10A2_2020_Linear)
        } else if value == 0x70a532120 {
            Some(ColorFormat::X8B8G8R8_2020_Linear)
        } else if value == 0x70a532740 {
            Some(ColorFormat::X16B16G16R16_2020_Linear)
        } else if value == 0x800536740 {
            Some(ColorFormat::Float_A16B16G16R16_2020_PQ)
        } else if value == 0x901210508 {
            Some(ColorFormat::A4I4)
        } else if value == 0x901210e10 {
            Some(ColorFormat::A8I8)
        } else if value == 0x903200508 {
            Some(ColorFormat::I4A4)
        } else if value == 0x903200e10 {
            Some(ColorFormat::I8A8)
        } else if value == 0x909200101 {
            Some(ColorFormat::I1)
        } else if value == 0x909200202 {
            Some(ColorFormat::I2)
        } else if value == 0x909200304 {
            Some(ColorFormat::I4)
        } else if value == 0x909200408 {
            Some(ColorFormat::I8)
        } else if value == 0xa00d12120 {
            Some(ColorFormat::A8Y8U8V8)
        } else if value == 0xa00d12740 {
            Some(ColorFormat::A16Y16U16V16)
        } else if value == 0xa06882120 {
            Some(ColorFormat::Y8U8V8A8)
        } else if value == 0xa080c0710 {
            Some(ColorFormat::V8_U8)
        } else if value == 0xa080c0e10 {
            Some(ColorFormat::V8U8)
        } else if value == 0xa08142220 {
            Some(ColorFormat::V10U10)
        } else if value == 0xa08142420 {
            Some(ColorFormat::V12U12)
        } else if value == 0xa08240408 {
            Some(ColorFormat::V8)
        } else if value == 0xa08240f10 {
            Some(ColorFormat::V10)
        } else if value == 0xa08241010 {
            Some(ColorFormat::V12)
        } else if value == 0xa08440710 {
            Some(ColorFormat::U8_V8)
        } else if value == 0xa08440e10 {
            Some(ColorFormat::U8V8)
        } else if value == 0xa08842220 {
            Some(ColorFormat::U10V10)
        } else if value == 0xa08842420 {
            Some(ColorFormat::U12V12)
        } else if value == 0xa09040408 {
            Some(ColorFormat::U8)
        } else if value == 0xa09040f10 {
            Some(ColorFormat::U10)
        } else if value == 0xa09041010 {
            Some(ColorFormat::U12)
        } else if value == 0xa09200408 {
            Some(ColorFormat::Y8)
        } else if value == 0xa09200f10 {
            Some(ColorFormat::Y10)
        } else if value == 0xa09201010 {
            Some(ColorFormat::Y12)
        } else if value == 0xa0a500810 {
            Some(ColorFormat::YVYU)
        } else if value == 0xa0a500910 {
            Some(ColorFormat::VYUY)
        } else if value == 0xa0a880810 {
            Some(ColorFormat::YUYV)
        } else if value == 0xa0a880910 {
            Some(ColorFormat::UYVY)
        } else if value == 0xa0a881918 {
            Some(ColorFormat::Y8_U8_V8)
        } else if value == 0xb080c0710 {
            Some(ColorFormat::V8_U8_RR)
        } else if value == 0xb080c0e10 {
            Some(ColorFormat::V8U8_RR)
        } else if value == 0xb08240408 {
            Some(ColorFormat::V8_RR)
        } else if value == 0xb08440710 {
            Some(ColorFormat::U8_V8_RR)
        } else if value == 0xb08440e10 {
            Some(ColorFormat::U8V8_RR)
        } else if value == 0xb09040408 {
            Some(ColorFormat::U8_RR)
        } else if value == 0xb09200408 {
            Some(ColorFormat::Y8_RR)
        } else if value == 0xc080c0710 {
            Some(ColorFormat::V8_U8_ER)
        } else if value == 0xc080c0e10 {
            Some(ColorFormat::V8U8_ER)
        } else if value == 0xc08240408 {
            Some(ColorFormat::V8_ER)
        } else if value == 0xc08440710 {
            Some(ColorFormat::U8_V8_ER)
        } else if value == 0xc08440e10 {
            Some(ColorFormat::U8V8_ER)
        } else if value == 0xc09040408 {
            Some(ColorFormat::U8_ER)
        } else if value == 0xc09200408 {
            Some(ColorFormat::Y8_ER)
        } else if value == 0xd080c0710 {
            Some(ColorFormat::V8_U8_709)
        } else if value == 0xd080c0e10 {
            Some(ColorFormat::V8U8_709)
        } else if value == 0xd08142220 {
            Some(ColorFormat::V10U10_709)
        } else if value == 0xd08142420 {
            Some(ColorFormat::V12U12_709)
        } else if value == 0xd08240408 {
            Some(ColorFormat::V8_709)
        } else if value == 0xd08240f10 {
            Some(ColorFormat::V10_709)
        } else if value == 0xd08241010 {
            Some(ColorFormat::V12_709)
        } else if value == 0xd08440710 {
            Some(ColorFormat::U8_V8_709)
        } else if value == 0xd08440e10 {
            Some(ColorFormat::U8V8_709)
        } else if value == 0xd08842220 {
            Some(ColorFormat::U10V10_709)
        } else if value == 0xd08842420 {
            Some(ColorFormat::U12V12_709)
        } else if value == 0xd09040408 {
            Some(ColorFormat::U8_709)
        } else if value == 0xd09040f10 {
            Some(ColorFormat::U10_709)
        } else if value == 0xd09041010 {
            Some(ColorFormat::U12_709)
        } else if value == 0xd09200408 {
            Some(ColorFormat::Y8_709)
        } else if value == 0xd09200f10 {
            Some(ColorFormat::Y10_709)
        } else if value == 0xd09201010 {
            Some(ColorFormat::Y12_709)
        } else if value == 0xe080c0710 {
            Some(ColorFormat::V8_U8_709_ER)
        } else if value == 0xe080c0e10 {
            Some(ColorFormat::V8U8_709_ER)
        } else if value == 0xe08142220 {
            Some(ColorFormat::V10U10_709_ER)
        } else if value == 0xe08142420 {
            Some(ColorFormat::V12U12_709_ER)
        } else if value == 0xe08240408 {
            Some(ColorFormat::V8_709_ER)
        } else if value == 0xe08240f10 {
            Some(ColorFormat::V10_709_ER)
        } else if value == 0xe08241010 {
            Some(ColorFormat::V12_709_ER)
        } else if value == 0xe08440710 {
            Some(ColorFormat::U8_V8_709_ER)
        } else if value == 0xe08440e10 {
            Some(ColorFormat::U8V8_709_ER)
        } else if value == 0xe08842220 {
            Some(ColorFormat::U10V10_709_ER)
        } else if value == 0xe08842420 {
            Some(ColorFormat::U12V12_709_ER)
        } else if value == 0xe09040408 {
            Some(ColorFormat::U8_709_ER)
        } else if value == 0xe09040f10 {
            Some(ColorFormat::U10_709_ER)
        } else if value == 0xe09041010 {
            Some(ColorFormat::U12_709_ER)
        } else if value == 0xe09200408 {
            Some(ColorFormat::Y8_709_ER)
        } else if value == 0xe09200f10 {
            Some(ColorFormat::Y10_709_ER)
        } else if value == 0xe09201010 {
            Some(ColorFormat::Y12_709_ER)
        } else if value == 0xf08142220 {
            Some(ColorFormat::V10U10_2020)
        } else if value == 0xf08142420 {
            Some(ColorFormat::V12U12_2020)
        } else if value == 0xf08240f10 {
            Some(ColorFormat::V10_2020)
        } else if value == 0xf08241010 {
            Some(ColorFormat::V12_2020)
        } else if value == 0xf08842220 {
            Some(ColorFormat::U10V10_2020)
        } else if value == 0xf08842420 {
            Some(ColorFormat::U12V12_2020)
        } else if value == 0xf09040f10 {
            Some(ColorFormat::U10_2020)
        } else if value == 0xf09041010 {
            Some(ColorFormat::U12_2020)
        } else if value == 0xf09200f10 {
            Some(ColorFormat::Y10_2020)
        } else if value == 0xf09201010 {
            Some(ColorFormat::Y12_2020)
        } else if value == 0x1009200408 {
            Some(ColorFormat::Bayer8RGGB)
        } else if value == 0x1009200a10 {
            Some(ColorFormat::Bayer16RGGB)
        } else if value == 0x1009208a10 {
            Some(ColorFormat::BayerS16RGGB)
        } else if value == 0x1009210b10 {
            Some(ColorFormat::X2Bayer14RGGB)
        } else if value == 0x1009210c10 {
            Some(ColorFormat::X4Bayer12RGGB)
        } else if value == 0x1009210d10 {
            Some(ColorFormat::X6Bayer10RGGB)
        } else if value == 0x1109200408 {
            Some(ColorFormat::Bayer8BGGR)
        } else if value == 0x1109200a10 {
            Some(ColorFormat::Bayer16BGGR)
        } else if value == 0x1109208a10 {
            Some(ColorFormat::BayerS16BGGR)
        } else if value == 0x1109210b10 {
            Some(ColorFormat::X2Bayer14BGGR)
        } else if value == 0x1109210c10 {
            Some(ColorFormat::X4Bayer12BGGR)
        } else if value == 0x1109210d10 {
            Some(ColorFormat::X6Bayer10BGGR)
        } else if value == 0x1209200408 {
            Some(ColorFormat::Bayer8GRBG)
        } else if value == 0x1209200a10 {
            Some(ColorFormat::Bayer16GRBG)
        } else if value == 0x1209208a10 {
            Some(ColorFormat::BayerS16GRBG)
        } else if value == 0x1209210b10 {
            Some(ColorFormat::X2Bayer14GRBG)
        } else if value == 0x1209210c10 {
            Some(ColorFormat::X4Bayer12GRBG)
        } else if value == 0x1209210d10 {
            Some(ColorFormat::X6Bayer10GRBG)
        } else if value == 0x1309200408 {
            Some(ColorFormat::Bayer8GBRG)
        } else if value == 0x1309200a10 {
            Some(ColorFormat::Bayer16GBRG)
        } else if value == 0x1309208a10 {
            Some(ColorFormat::BayerS16GBRG)
        } else if value == 0x1309210b10 {
            Some(ColorFormat::X2Bayer14GBRG)
        } else if value == 0x1309210c10 {
            Some(ColorFormat::X4Bayer12GBRG)
        } else if value == 0x1309210d10 {
            Some(ColorFormat::X6Bayer10GBRG)
        } else if value == 0x140a886640 {
            Some(ColorFormat::XYZ)
        } else {
            None
        }
    }
}

impl Default for ColorFormat {
    fn default() -> (variant: Self)
        ensures
            variant == ColorFormat::Unspecified,
    {
        ColorFormat::Unspecified
    }
}

impl PrimitiveEnum<u64> for ColorFormat {
    open spec fn spec_to_primitive(self) -> u64 {
        self.spec_value()
    }

    open spec fn spec_from_primitive(value: u64) -> Option<Self> {
        Self::spec_from_value(value)
    }

    #[verifier::rlimit(50)]
    proof fn lemma_round_trip(self) {
    }

    fn to_primitive(self) -> (value: u64) {
        self.value()
    }

    fn from_primitive(value: u64) -> (variant: Option<Self>) {
        Self::from_value(value)
    }
}

/// Represents supported pixel formats. Defined in [AOSP's](https://android.googlesource.com) [graphics-base-v1.0.h](https://android.googlesource.com/platform/system/core/+/8186c6362183e88bc5254af457baa662b20ca1e8/libsystem/include/system/graphics-base-v1.0.h#12)
#[allow(non_camel_case_types)]
#[derive(Copy, Clone, PartialEq, Eq, Structural, Debug)]
pub enum PixelFormat {
    Invalid,
    RGBA_8888,
    RGBX_8888,
    RGB_888,
    RGB_565,
    BGRA_8888,
    RGBA_5551,
    RGBA_4444,
    YCRB_420_SP,
    Raw16,
    Blob,
    ImplementationDefined,
    YCBCR_420_888,
    Y8,
    Y16,
    YV12,
}

impl PixelFormat {
    /// The number that stands for the variant.
    pub open spec fn spec_value(self) -> u32 {
        match self {
            PixelFormat::Invalid => 0,
            PixelFormat::RGBA_8888 => 1,
            PixelFormat::RGBX_8888 => 2,
            PixelFormat::RGB_888 => 3,
            PixelFormat::RGB_565 => 4,
            PixelFormat::BGRA_8888 => 5,
            PixelFormat::RGBA_5551 => 6,
            PixelFormat::RGBA_4444 => 7,
            PixelFormat::YCRB_420_SP => 0x11,
            PixelFormat::Raw16 => 0x20,
            PixelFormat::Blob => 0x21,
            PixelFormat::ImplementationDefined => 0x22,
            PixelFormat::YCBCR_420_888 => 0x23,
            PixelFormat::Y8 => 0x20203859,
            PixelFormat::Y16 => 0x20363159,
            PixelFormat::YV12 => 0x32315659,
        }
    }

    /// The variant that `value` stands for, if it stands for one.
    pub open spec fn spec_from_value(value: u32) -> Option<Self> {
        if value == 0 {
            Some(PixelFormat::Invalid)
        } else if value == 1 {
            Some(PixelFormat::RGBA_8888)
        } else if value == 2 {
            Some(PixelFormat::RGBX_8888)
        } else if value == 3 {
            Some(PixelFormat::RGB_888)
        } else if value == 4 {
            Some(PixelFormat::RGB_565)
        } else if value == 5 {
            Some(PixelFormat::BGRA_8888)
        } else if value == 6 {
            Some(PixelFormat::RGBA_5551)
        } else if value == 7 {
            Some(PixelFormat::RGBA_4444)
        } else if value == 0x11 {
            Some(PixelFormat::YCRB_420_SP)
        } else if value == 0x20 {
            Some(PixelFormat::Raw16)
        } else if value == 0x21 {
            Some(PixelFormat::Blob)
        } else if value == 0x22 {
            Some(PixelFormat::ImplementationDefined)
        } else if value == 0x23 {
            Some(PixelFormat::YCBCR_420_888)
        } else if value == 0x20203859 {
            Some(PixelFormat::Y8)
        } else if value == 0x20363159 {
            Some(PixelFormat::Y16)
        } else if value == 0x32315659 {
            Some(PixelFormat::YV12)
        } else {
            None
        }
    }

    pub fn value(self) -> (value: u32)
        ensures
            value == self.spec_value(),
    {
        match self {
            PixelFormat::Invalid => 0,
            PixelFormat::RGBA_8888 => 1,
            PixelFormat::RGBX_8888 => 2,
            PixelFormat::RGB_888 => 3,
            PixelFormat::RGB_565 => 4,
            PixelFormat::BGRA_8888 => 5,
            PixelFormat::RGBA_5551 => 6,
            PixelFormat::RGBA_4444 => 7,
            PixelFormat::YCRB_420_SP => 0x11,
            PixelFormat::Raw16 => 0x20,
            PixelFormat::Blob => 0x21,
            PixelFormat::ImplementationDefined => 0x22,
            PixelFormat::YCBCR_420_888 => 0x23,
            PixelFormat::Y8 => 0x20203859,
            PixelFormat::Y16 => 0x20363159,
            PixelFormat::YV12 => 0x32315659,
        }
    }

    /// The variant that `value` stands for, if it stands for one.
    pub fn from_value(value: u32) -> (variant: Option<Self>)
        ensures
            variant == Self::spec_from_value(value),
    {
        if value == 0 {
            Some(PixelFormat::Invalid)
        } else if value == 1 {
            Some(PixelFormat::RGBA_8888)
        } else if value == 2 {
            Some(PixelFormat::RGBX_8888)
        } else if value == 3 {
            Some(PixelFormat::RGB_888)
        } else if value == 4 {
            Some(PixelFormat::RGB_565)
        } else if value == 5 {
            Some(PixelFormat::BGRA_8888)
        } else if value == 6 {
            Some(PixelFormat::RGBA_5551)
        } else if value == 7 {
            Some(PixelFormat::RGBA_4444)
        } else if value == 0x11 {
            Some(PixelFormat::YCRB_420_SP)
        } else if value == 0x20 {
            Some(PixelFormat::Raw16)
        } else if value == 0x21 {
            Some(PixelFormat::Blob)
        } else if value == 0x22 {
            Some(PixelFormat::ImplementationDefined)
        } else if value == 0x23 {
            Some(PixelFormat::YCBCR_420_888)
        } else if value == 0x20203859 {
            Some(PixelFormat::Y8)
        } else if value == 0x20363159 {
            Some(PixelFormat::Y16)
        } else if value == 0x32315659 {
            Some(PixelFormat::YV12)
        } else {
            None
        }
    }
}

impl Default for PixelFormat {
    fn default() -> (variant: Self)
        ensures
            variant == PixelFormat::Invalid,
    {
        PixelFormat::Invalid
    }
}

impl PrimitiveEnum<u32> for PixelFormat {
    open spec fn spec_to_primitive(self) -> u32 {
        self.spec_value()
    }

    open spec fn spec_from_primitive(value: u32) -> Option<Self> {
        Self::spec_from_value(value)
    }

    proof fn lemma_round_trip(self) {
    }

    fn to_primitive(self) -> (value: u32) {
        self.value()
    }

    fn from_primitive(value: u32) -> (variant: Option<Self>) {
        Self::from_value(value)
    }
}

/// Represents connection APIs
#[derive(Copy, Clone, PartialEq, Eq, Structural, Debug)]
pub enum ConnectionApi {
    /// Marker for invalid API values.
    Invalid,
    /// Buffers will be queued by EGL via eglSwapBuffers after being filled using OpenGL ES.
    EGL,
    /// Buffers will be queued after being filled using the CPU.
    Cpu,
    /// Buffers will be queued by Stagefright after being filled by a video decoder.
    /// The video decoder can either be a software or hardware decoder.
    Media,
    /// Buffers will be queued by the the camera HAL.
    Camera,
}

impl ConnectionApi {
    /// The number that stands for the variant.
    pub open spec fn spec_value(self) -> i32 {
        match self {
            ConnectionApi::Invalid => 0,
            ConnectionApi::EGL => 1,
            ConnectionApi::Cpu => 2,
            ConnectionApi::Media => 3,
            ConnectionApi::Camera => 4,
        }
    }

    /// The variant that `value` stands for, if it stands for one.
    pub open spec fn spec_from_value(value: i32) -> Option<Self> {
        if value == 0 {
            Some(ConnectionApi::Invalid)
        } else if value == 1 {
            Some(ConnectionApi::EGL)
        } else if value == 2 {
            Some(ConnectionApi::Cpu)
        } else if value == 3 {
            Some(ConnectionApi::Media)
        } else if value == 4 {
            Some(ConnectionApi::Camera)
        } else {
            None
        }
    }

    pub fn value(self) -> (value: i32)
        ensures
            value == self.spec_value(),
    {
        match self {
            ConnectionApi::Invalid => 0,
            ConnectionApi::EGL => 1,
            ConnectionApi::Cpu => 2,
            ConnectionApi::Media => 3,
            ConnectionApi::Camera => 4,
        }
    }

    /// The variant that `value` stands for, if it stands for one.
    pub fn from_value(value: i32) -> (variant: Option<Self>)
        ensures
            variant == Self::spec_from_value(value),
    {
        if value == 0 {
            Some(ConnectionApi::Invalid)
        } else if value == 1 {
            Some(ConnectionApi::EGL)
        } else if value == 2 {
            Some(ConnectionApi::Cpu)
        } else if value == 3 {
            Some(ConnectionApi::Media)
        } else if value == 4 {
            Some(ConnectionApi::Camera)
        } else {
            None
        }
    }
}

impl Default for ConnectionApi {
    fn default() -> (variant: Self)
        ensures
            variant == ConnectionApi::Invalid,
    {
        ConnectionApi::Invalid
    }
}

impl PrimitiveEnum<i32> for ConnectionApi {
    open spec fn spec_to_primitive(self) -> i32 {
        self.spec_value()
    }

    open spec fn spec_from_primitive(value: i32) -> Option<Self> {
        Self::spec_from_value(value)
    }

    proof fn lemma_round_trip(self) {
    }

    fn to_primitive(self) -> (value: i32) {
        self.value()
    }

    fn from_primitive(value: i32) -> (variant: Option<Self>) {
        Self::from_value(value)
    }
}

/// Represents disconnect modes
#[derive(Copy, Clone, PartialEq, Eq, Structural, Debug)]
pub enum DisconnectMode {
    /// Disconnect only the specified API.
    Api,
    /// Disconnect any API originally connected from the process calling disconnect.
    AllLocal,
}

impl DisconnectMode {
    /// The number that stands for the variant.
    pub open spec fn spec_value(self) -> u32 {
        match self {
            DisconnectMode::Api => 0,
            DisconnectMode::AllLocal => 1,
        }
    }

    /// The variant that `value` stands for, if it stands for one.
    pub open spec fn spec_from_value(value: u32) -> Option<Self> {
        if value == 0 {
            Some(DisconnectMode::Api)
        } else if value == 1 {
            Some(DisconnectMode::AllLocal)
        } else {
            None
        }
    }

    pub fn value(self) -> (value: u32)
        ensures
            value == self.spec_value(),
    {
        match self {
            DisconnectMode::Api => 0,
            DisconnectMode::AllLocal => 1,
        }
    }

    /// The variant that `value` stands for, if it stands for one.
    pub fn from_value(value: u32) -> (variant: Option<Self>)
        ensures
            variant == Self::spec_from_value(value),
    {
        if value == 0 {
            Some(DisconnectMode::Api)
        } else if value == 1 {
            Some(DisconnectMode::AllLocal)
        } else {
            None
        }
    }
}

impl Default for DisconnectMode {
    fn default() -> (variant: Self)
        ensures
            variant == DisconnectMode::Api,
    {
        DisconnectMode::Api
    }
}

impl PrimitiveEnum<u32> for DisconnectMode {
    open spec fn spec_to_primitive(self) -> u32 {
        self.spec_value()
    }

    open spec fn spec_from_primitive(value: u32) -> Option<Self> {
        Self::spec_from_value(value)
    }

    proof fn lemma_round_trip(self) {
    }

    fn to_primitive(self) -> (value: u32) {
        self.value()
    }

    fn from_primitive(value: u32) -> (variant: Option<Self>) {
        Self::from_value(value)
    }
}

/// Represents a transform type
#[derive(Copy, Clone, PartialEq, Eq, Structural, Debug)]
pub enum Transform {
    Invalid,
    FlipH,
    FlipV,
    Rotate90,
    Rotate180,
    Rotate270,
}

impl Transform {
    /// The number that stands for the variant.
    pub open spec fn spec_value(self) -> u32 {
        match self {
            Transform::Invalid => 0,
            Transform::FlipH => 1,
            Transform::FlipV => 2,
            Transform::Rotate90 => 4,
            Transform::Rotate180 => 3,
            Transform::Rotate270 => 7,
        }
    }

    /// The variant that `value` stands for, if it stands for one.
    pub open spec fn spec_from_value(value: u32) -> Option<Self> {
        if value == 0 {
            Some(Transform::Invalid)
        } else if value == 1 {
            Some(Transform::FlipH)
        } else if value == 2 {
            Some(Transform::FlipV)
        } else if value == 4 {
            Some(Transform::Rotate90)
        } else if value == 3 {
            Some(Transform::Rotate180)
        } else if value == 7 {
            Some(Transform::Rotate270)
        } else {
            None
        }
    }

    pub fn value(self) -> (value: u32)
        ensures
            value == self.spec_value(),
    {
        match self {
            Transform::Invalid => 0,
            Transform::FlipH => 1,
            Transform::FlipV => 2,
            Transform::Rotate90 => 4,
            Transform::Rotate180 => 3,
            Transform::Rotate270 => 7,
        }
    }

    /// The variant that `value` stands for, if it stands for one.
    pub fn from_value(value: u32) -> (variant: Option<Self>)
        ensures
            variant == Self::spec_from_value(value),
    {
        if value == 0 {
            Some(Transform::Invalid)
        } else if value == 1 {
            Some(Transform::FlipH)
        } else if value == 2 {
            Some(Transform::FlipV)
        } else if value == 4 {
            Some(Transform::Rotate90)
        } else if value == 3 {
            Some(Transform::Rotate180)
        } else if value == 7 {
            Some(Transform::Rotate270)
        } else {
            None
        }
    }
}

impl Default for Transform {
    fn default() -> (variant: Self)
        ensures
            variant == Transform::Invalid,
    {
        Transform::Invalid
    }
}

impl PrimitiveEnum<u32> for Transform {
    open spec fn spec_to_primitive(self) -> u32 {
        self.spec_value()
    }

    open spec fn spec_from_primitive(value: u32) -> Option<Self> {
        Self::spec_from_value(value)
    }

    proof fn lemma_round_trip(self) {
    }

    fn to_primitive(self) -> (value: u32) {
        self.value()
    }

    fn from_primitive(value: u32) -> (variant: Option<Self>) {
        Self::from_value(value)
    }
}

/// The heights of a block of a block-linear surface, in GOBs.
#[derive(Copy, Clone, PartialEq, Eq, Structural, Debug)]
pub enum BlockLinearHeights {
    OneGob,
    TwoGobs,
    FourGobs,
    EightGobs,
    SixteenGobs,
    ThirtyTwoGobs,
}

impl BlockLinearHeights {
    /// The number that stands for the variant.
    pub open spec fn spec_value(self) -> u32 {
        match self {
            BlockLinearHeights::OneGob => 0,
            BlockLinearHeights::TwoGobs => 1,
            BlockLinearHeights::FourGobs => 2,
            BlockLinearHeights::EightGobs => 3,
            BlockLinearHeights::SixteenGobs => 4,
            BlockLinearHeights::ThirtyTwoGobs => 5,
        }
    }

    /// The variant that `value` stands for, if it stands for one.
    pub open spec fn spec_from_value(value: u32) -> Option<Self> {
        if value == 0 {
            Some(BlockLinearHeights::OneGob)
        } else if value == 1 {
            Some(BlockLinearHeights::TwoGobs)
        } else if value == 2 {
            Some(BlockLinearHeights::FourGobs)
        } else if value == 3 {
            Some(BlockLinearHeights::EightGobs)
        } else if value == 4 {
            Some(BlockLinearHeights::SixteenGobs)
        } else if value == 5 {
            Some(BlockLinearHeights::ThirtyTwoGobs)
        } else {
            None
        }
    }

    pub fn value(self) -> (value: u32)
        ensures
            value == self.spec_value(),
    {
        match self {
            BlockLinearHeights::OneGob => 0,
            BlockLinearHeights::TwoGobs => 1,
            BlockLinearHeights::FourGobs => 2,
            BlockLinearHeights::EightGobs => 3,
            BlockLinearHeights::SixteenGobs => 4,
            BlockLinearHeights::ThirtyTwoGobs => 5,
        }
    }

    /// The variant that `value` stands for, if it stands for one.
    pub fn from_value(value: u32) -> (variant: Option<Self>)
        ensures
            variant == Self::spec_from_value(value),
    {
        if value == 0 {
            Some(BlockLinearHeights::OneGob)
        } else if value == 1 {
            Some(BlockLinearHeights::TwoGobs)
        } else if value == 2 {
            Some(BlockLinearHeights::FourGobs)
        } else if value == 3 {
            Some(BlockLinearHeights::EightGobs)
        } else if value == 4 {
            Some(BlockLinearHeights::SixteenGobs)
        } else if value == 5 {
            Some(BlockLinearHeights::ThirtyTwoGobs)
        } else {
            None
        }
    }
}

impl Default for BlockLinearHeights {
    fn default() -> (variant: Self)
        ensures
            variant == BlockLinearHeights::SixteenGobs,
    {
        BlockLinearHeights::SixteenGobs
    }
}

impl PrimitiveEnum<u32> for BlockLinearHeights {
    open spec fn spec_to_primitive(self) -> u32 {
        self.spec_value()
    }

    open spec fn spec_from_primitive(value: u32) -> Option<Self> {
        Self::spec_from_value(value)
    }

    proof fn lemma_round_trip(self) {
    }

    fn to_primitive(self) -> (value: u32) {
        self.value()
    }

    fn from_primitive(value: u32) -> (variant: Option<Self>) {
        Self::from_value(value)
    }
}

impl ColorFormat {
    /// The `bpp` field of the format: bits 3 to 7 of its number.
    pub open spec fn spec_bytes_per_pixel(self) -> u32 {
        ((self.spec_value() / 8) % 32) as u32
    }

    /// Gets the `bpp` field of the format: bits 3 to 7 of its number.
    pub fn bytes_per_pixel(&self) -> (bpp: u32)
        ensures
            bpp == self.spec_bytes_per_pixel(),
            bpp < 32,
    {
        ((self.value() / 8) % 32) as u32
    }
}

impl BlockLinearHeights {
    /// The height of a block in GOBs.
    pub open spec fn spec_block_height(self) -> u32 {
        match self {
            BlockLinearHeights::OneGob => 1,
            BlockLinearHeights::TwoGobs => 2,
            BlockLinearHeights::FourGobs => 4,
            BlockLinearHeights::EightGobs => 8,
            BlockLinearHeights::SixteenGobs => 16,
            BlockLinearHeights::ThirtyTwoGobs => 32,
        }
    }

    /// The base-2 logarithm of the height of a block in GOBs.
    pub fn block_height_log2(self) -> (log2: u32)
        ensures
            log2 == self.spec_value(),
            log2 <= 5,
    {
        self.value()
    }

    /// The height of a block in rows: eight rows a GOB.
    pub fn block_height_bytes(self) -> (rows: u32)
        ensures
            rows == 8 * self.spec_block_height(),
    {
        8 * self.block_height()
    }

    /// The height of a block in GOBs: two to the power of its logarithm.
    pub fn block_height(self) -> (gobs: u32)
        ensures
            gobs == self.spec_block_height(),
    {
        let log2 = self.block_height_log2();
        assert(1u32 << log2 == (if log2 == 0 {
            1u32
        } else if log2 == 1 {
            2u32
        } else if log2 == 2 {
            4u32
        } else if log2 == 3 {
            8u32
        } else if log2 == 4 {
            16u32
        } else {
            32u32
        })) by (bit_vector)
            requires
                log2 <= 5,
        ;
        1u32 << log2
    }
}

/// Represents allocator usage flags
#[derive(Copy, Clone, PartialEq, Eq, Structural, Debug)]
pub struct GraphicsAllocatorUsage {
    pub bits: u32,
}

impl GraphicsAllocatorUsage {
    pub fn from(bits: u32) -> (usage: Self)
        ensures
            usage.bits == bits,
    {
        Self { bits }
    }

    pub fn get(&self) -> (bits: u32)
        ensures
            bits == self.bits,
    {
        self.bits
    }

    /// Whether every flag of `other` is set.
    pub fn contains(&self, other: Self) -> (b: bool)
        ensures
            b == (self.bits & other.bits == other.bits),
    {
        self.bits & other.bits == other.bits
    }

    #[allow(non_snake_case)]
    pub fn SoftwareReadNever() -> (usage: Self)
        ensures
            usage.bits == 0,
    {
        Self { bits: 0 }
    }

    #[allow(non_snake_case)]
    pub fn SoftwareReadRarely() -> (usage: Self)
        ensures
            usage.bits == 2,
    {
        Self { bits: 2 }
    }

    #[allow(non_snake_case)]
    pub fn SoftwareReadOften() -> (usage: Self)
        ensures
            usage.bits == 3,
    {
        Self { bits: 3 }
    }

    #[allow(non_snake_case)]
    pub fn SoftwareReadMask() -> (usage: Self)
        ensures
            usage.bits == 0xf,
    {
        Self { bits: 0xf }
    }

    #[allow(non_snake_case)]
    pub fn SoftwareWriteNever() -> (usage: Self)
        ensures
            usage.bits == 0,
    {
        Self { bits: 0 }
    }

    #[allow(non_snake_case)]
    pub fn SoftwareWriteRarely() -> (usage: Self)
        ensures
            usage.bits == 0x20,
    {
        Self { bits: 0x20 }
    }

    #[allow(non_snake_case)]
    pub fn SoftwareWriteOften() -> (usage: Self)
        ensures
            usage.bits == 0x30,
    {
        Self { bits: 0x30 }
    }

    #[allow(non_snake_case)]
    pub fn SoftwareWriteMask() -> (usage: Self)
        ensures
            usage.bits == 0xf0,
    {
        Self { bits: 0xf0 }
    }

    #[allow(non_snake_case)]
    pub fn HardwareTexture() -> (usage: Self)
        ensures
            usage.bits == 0x100,
    {
        Self { bits: 0x100 }
    }

    #[allow(non_snake_case)]
    pub fn HardwareRender() -> (usage: Self)
        ensures
            usage.bits == 0x200,
    {
        Self { bits: 0x200 }
    }

    #[allow(non_snake_case)]
    pub fn Hardware2d() -> (usage: Self)
        ensures
            usage.bits == 0x400,
    {
        Self { bits: 0x400 }
    }

    #[allow(non_snake_case)]
    pub fn HardwareComposer() -> (usage: Self)
        ensures
            usage.bits == 0x800,
    {
        Self { bits: 0x800 }
    }

    #[allow(non_snake_case)]
    pub fn HardwareFramebuffer() -> (usage: Self)
        ensures
            usage.bits == 0x1000,
    {
        Self { bits: 0x1000 }
    }

    #[allow(non_snake_case)]
    pub fn HardwareExternalDisplay() -> (usage: Self)
        ensures
            usage.bits == 0x2000,
    {
        Self { bits: 0x2000 }
    }

    #[allow(non_snake_case)]
    pub fn HardwareProtected() -> (usage: Self)
        ensures
            usage.bits == 0x4000,
    {
        Self { bits: 0x4000 }
    }

    #[allow(non_snake_case)]
    pub fn HardwareCursor() -> (usage: Self)
        ensures
            usage.bits == 0x8000,
    {
        Self { bits: 0x8000 }
    }

    #[allow(non_snake_case)]
    pub fn HardwareVideoEncoder() -> (usage: Self)
        ensures
            usage.bits == 0x10000,
    {
        Self { bits: 0x10000 }
    }

    #[allow(non_snake_case)]
    pub fn HardwareCameraWrite() -> (usage: Self)
        ensures
            usage.bits == 0x20000,
    {
        Self { bits: 0x20000 }
    }

    #[allow(non_snake_case)]
    pub fn HardwareCameraRead() -> (usage: Self)
        ensures
            usage.bits == 0x40000,
    {
        Self { bits: 0x40000 }
    }

    #[allow(non_snake_case)]
    pub fn HardwareCameraZSL() -> (usage: Self)
        ensures
            usage.bits == 0x60000,
    {
        Self { bits: 0x60000 }
    }

    #[allow(non_snake_case)]
    pub fn HardwareCameraMask() -> (usage: Self)
        ensures
            usage.bits == 0x60000,
    {
        Self { bits: 0x60000 }
    }

    #[allow(non_snake_case)]
    pub fn HardwareMask() -> (usage: Self)
        ensures
            usage.bits == 0x71f00,
    {
        Self { bits: 0x71f00 }
    }

    #[allow(non_snake_case)]
    pub fn RenderScript() -> (usage: Self)
        ensures
            usage.bits == 0x100000,
    {
        Self { bits: 0x100000 }
    }
}

impl Default for GraphicsAllocatorUsage {
    fn default() -> (usage: Self)
        ensures
            usage.bits == 0,
    {
        Self { bits: 0 }
    }
}

/// Represents a queue buffer output layout
#[derive(Copy, Clone, PartialEq, Eq, Debug)]
pub struct QueueBufferOutput {
    /// The width
    pub width: u32,
    /// The height
    pub height: u32,
    /// The transform hint
    pub transform_hint: u32,
    /// The pending buffer count
    pub pending_buffer_count: u32,
}

impl QueueBufferOutput {
    /// Whether every field holds its default: zero, or the default variant.
    pub open spec fn is_default(&self) -> bool {
        &&& self.width == 0
        &&& self.height == 0
        &&& self.transform_hint == 0
        &&& self.pending_buffer_count == 0
    }
}

impl Default for QueueBufferOutput {
    fn default() -> (value: Self)
        ensures
            value.is_default(),
    {
        Self {
            width: 0,
            height: 0,
            transform_hint: 0,
            pending_buffer_count: 0,
        }
    }
}

/// Represents a plane layout
#[derive(Copy, Clone, PartialEq, Eq, Debug)]
pub struct Plane {
    /// The width
    pub width: u32,
    /// The height
    pub height: u32,
    /// The color format
    pub color_format: ColorFormat,
    /// The layout
    pub layout: Layout,
    /// The pitch
    pub pitch: u32,
    /// The map handle
    pub map_handle: u32,
    /// The offset
    pub offset: u32,
    /// The kind
    pub kind: Kind,
    /// The base-2 log of the block height
    pub block_height_log2: BlockLinearHeights,
    /// The display scan format
    pub display_scan_format: DisplayScanFormat,
    /// The second field offset
    pub second_field_offset: u32,
    /// The flags
    pub flags: u64,
    /// The size
    pub size: usize,
    /// Unknown/unused
    pub unk: [u32; 6],
}

impl Plane {
    /// Whether every field holds its default: zero, or the default variant.
    pub open spec fn is_default(&self) -> bool {
        &&& self.width == 0
        &&& self.height == 0
        &&& self.color_format == ColorFormat::Unspecified
        &&& self.layout == Layout::Invalid
        &&& self.pitch == 0
        &&& self.map_handle == 0
        &&& self.offset == 0
        &&& self.kind == Kind::Pitch
        &&& self.block_height_log2 == BlockLinearHeights::SixteenGobs
        &&& self.display_scan_format == DisplayScanFormat::Progressive
        &&& self.second_field_offset == 0
        &&& self.flags == 0
        &&& self.size == 0
        &&& forall|i: int| 0 <= i < 6 ==> self.unk@[i] == 0
    }
}

impl Default for Plane {
    fn default() -> (value: Self)
        ensures
            value.is_default(),
    {
        Self {
            width: 0,
            height: 0,
            color_format: ColorFormat::default(),
            layout: Layout::default(),
            pitch: 0,
            map_handle: 0,
            offset: 0,
            kind: Kind::default(),
            block_height_log2: BlockLinearHeights::default(),
            display_scan_format: DisplayScanFormat::default(),
            second_field_offset: 0,
            flags: 0,
            size: 0,
            unk: [0u32; 6],
        }
    }
}

/// Represents a graphic buffer header layout
#[derive(Copy, Clone, PartialEq, Eq, Debug)]
pub struct GraphicBufferHeader {
    /// The magic
    pub magic: u32,
    /// The width
    pub width: u32,
    /// The height
    pub height: u32,
    /// The stride
    pub stride: u32,
    /// The pixel format
    pub pixel_format: PixelFormat,
    /// The allocator usage
    pub gfx_alloc_usage: GraphicsAllocatorUsage,
    /// The PID
    pub pid: u32,
    /// The reference count
    pub refcount: u32,
    /// The FD count
    pub fd_count: u32,
    /// The buffer size
    pub buffer_size: u32,
}

impl GraphicBufferHeader {
    /// Whether every field holds its default: zero, or the default variant.
    pub open spec fn is_default(&self) -> bool {
        &&& self.magic == 0
        &&& self.width == 0
        &&& self.height == 0
        &&& self.stride == 0
        &&& self.pixel_format == PixelFormat::Invalid
        &&& self.gfx_alloc_usage.bits == 0
        &&& self.pid == 0
        &&& self.refcount == 0
        &&& self.fd_count == 0
        &&& self.buffer_size == 0
    }
}

impl Default for GraphicBufferHeader {
    fn default() -> (value: Self)
        ensures
            value.is_default(),
    {
        Self {
            magic: 0,
            width: 0,
            height: 0,
            stride: 0,
            pixel_format: PixelFormat::default(),
            gfx_alloc_usage: GraphicsAllocatorUsage::default(),
            pid: 0,
            refcount: 0,
            fd_count: 0,
            buffer_size: 0,
        }
    }
}

/// Represents a graphic buffer layout
#[derive(Copy, Clone, PartialEq, Eq, Debug)]
pub struct GraphicBuffer {
    /// The header
    pub header: GraphicBufferHeader,
    /// Empty value
    pub unknown: i32,
    /// The map ID
    pub map_id: u32,
    /// Empty value
    pub zero: u32,
    /// The magic
    pub magic: u32,
    /// The PID
    pub pid: u32,
    /// The buffer type
    pub buffer_type: u32,
    /// The allocator usage
    pub gfx_alloc_usage: GraphicsAllocatorUsage,
    /// The pixel format
    pub pixel_format: PixelFormat,
    /// The external pixel format
    pub external_pixel_format: PixelFormat,
    /// The stride
    pub stride: u32,
    /// The full size
    pub full_size: u32,
    /// The plane count
    pub plane_count: u32,
    /// Empty value
    pub unk2: u32,
    /// The planes
    pub planes: [Plane; 3],
    /// Unused
    pub unused: u64,
}

impl GraphicBuffer {
    /// Whether every field holds its default: zero, or the default variant.
    pub open spec fn is_default(&self) -> bool {
        &&& self.header.is_default()
        &&& self.unknown == 0
        &&& self.map_id == 0
        &&& self.zero == 0
        &&& self.magic == 0
        &&& self.pid == 0
        &&& self.buffer_type == 0
        &&& self.gfx_alloc_usage.bits == 0
        &&& self.pixel_format == PixelFormat::Invalid
        &&& self.external_pixel_format == PixelFormat::Invalid
        &&& self.stride == 0
        &&& self.full_size == 0
        &&& self.plane_count == 0
        &&& self.unk2 == 0
        &&& forall|i: int| 0 <= i < 3 ==> (#[trigger] self.planes@[i]).is_default()
        &&& self.unused == 0
    }
}

impl Default for GraphicBuffer {
    fn default() -> (value: Self)
        ensures
            value.is_default(),
    {
        Self {
            header: GraphicBufferHeader::default(),
            unknown: 0,
            map_id: 0,
            zero: 0,
            magic: 0,
            pid: 0,
            buffer_type: 0,
            gfx_alloc_usage: GraphicsAllocatorUsage::default(),
            pixel_format: PixelFormat::default(),
            external_pixel_format: PixelFormat::default(),
            stride: 0,
            full_size: 0,
            plane_count: 0,
            unk2: 0,
            planes: [Plane::default(); 3],
            unused: 0,
        }
    }
}

/// Represents a fence layout
#[derive(Copy, Clone, PartialEq, Eq, Debug)]
pub struct Fence {
    pub id: u32,
    pub value: u32,
}

impl Fence {
    /// Whether every field holds its default: zero, or the default variant.
    pub open spec fn is_default(&self) -> bool {
        &&& self.id == 0
        &&& self.value == 0
    }
}

impl Default for Fence {
    fn default() -> (value: Self)
        ensures
            value.is_default(),
    {
        Self {
            id: 0,
            value: 0,
        }
    }
}

/// Represents a multiple fence layout
#[derive(Copy, Clone, PartialEq, Eq, Debug)]
pub struct MultiFence {
    pub fence_count: u32,
    pub fences: [Fence; 4],
}

impl MultiFence {
    /// Whether every field holds its default: zero, or the default variant.
    pub open spec fn is_default(&self) -> bool {
        &&& self.fence_count == 0
        &&& forall|i: int| 0 <= i < 4 ==> (#[trigger] self.fences@[i]).is_default()
    }
}

impl Default for MultiFence {
    fn default() -> (value: Self)
        ensures
            value.is_default(),
    {
        Self {
            fence_count: 0,
            fences: [Fence::default(); 4],
        }
    }
}

/// Represents a rectangle layout
#[derive(Copy, Clone, PartialEq, Eq, Debug)]
pub struct Rect {
    pub left: i32,
    pub top: i32,
    pub right: i32,
    pub bottom: i32,
}

impl Rect {
    /// Whether every field holds its default: zero, or the default variant.
    pub open spec fn is_default(&self) -> bool {
        &&& self.left == 0
        &&& self.top == 0
        &&& self.right == 0
        &&& self.bottom == 0
    }
}

impl Default for Rect {
    fn default() -> (value: Self)
        ensures
            value.is_default(),
    {
        Self {
            left: 0,
            top: 0,
            right: 0,
            bottom: 0,
        }
    }
}

/// Represents a queue buffer input layout
#[derive(Copy, Clone, PartialEq, Eq, Debug)]
pub struct QueueBufferInput {
    pub timestamp: i64,
    pub is_auto_timestamp: i32,
    pub crop: Rect,
    pub scaling_mode: i32,
    pub transform: Transform,
    pub sticky_transform: u32,
    pub unk: u32,
    pub swap_interval: u32,
    pub fences: MultiFence,
}

impl QueueBufferInput {
    /// Whether every field holds its default: zero, or the default variant.
    pub open spec fn is_default(&self) -> bool {
        &&& self.timestamp == 0
        &&& self.is_auto_timestamp == 0
        &&& self.crop.is_default()
        &&& self.scaling_mode == 0
        &&& self.transform == Transform::Invalid
        &&& self.sticky_transform == 0
        &&& self.unk == 0
        &&& self.swap_interval == 0
        &&& self.fences.is_default()
    }
}

impl Default for QueueBufferInput {
    fn default() -> (value: Self)
        ensures
            value.is_default(),
    {
        Self {
            timestamp: 0,
            is_auto_timestamp: 0,
            crop: Rect::default(),
            scaling_mode: 0,
            transform: Transform::default(),
            sticky_transform: 0,
            unk: 0,
            swap_interval: 0,
            fences: MultiFence::default(),
        }
    }
}

impl QueueBufferOutput {
    /// Creates a new, empty [`QueueBufferOutput`]
    pub fn new() -> (out: Self)
        ensures
            out.width == 0,
            out.height == 0,
            out.transform_hint == 0,
            out.pending_buffer_count == 0,
    {
        Self { width: 0, height: 0, transform_hint: 0, pending_buffer_count: 0 }
    }
}

impl GraphicBufferHeader {
    /// Represents the magic value of this layout: "GBFR"
    pub const MAGIC: u32 = 0x47424652;
}

impl GraphicBuffer {
    /// Represents the magic value of this layout
    pub const MAGIC: u32 = 0xDAFFCAFF;
}

/// Represents the screen width
pub const SCREEN_WIDTH: u32 = 1280;

/// Represents the screen height
pub const SCREEN_HEIGHT: u32 = 720;

/// Represents a layer Z value
///
/// This can contain the minimum/maximum possible values, or a custom Z value
#[derive(Copy, Clone, PartialEq, Eq, Structural, Debug)]
pub enum LayerZ {
    /// Always inserts at the front
    Max,
    /// Always inserts at the back
    Min,
    /// Inserts with a specified Z value
    Value(i64),
}

/// Represents `nvdrv:*` service kinds
#[derive(Copy, Clone, PartialEq, Eq, Structural, Debug)]
pub enum NvDrvServiceKind {
    /// "nvdrv"
    Application,
    /// "nvdrv:a"
    Applet,
    /// "nvdrv:s"
    System,
}

/// Represents `vi:*` service kinds
#[derive(Copy, Clone, PartialEq, Eq, Structural, Debug)]
pub enum ViServiceKind {
    /// "vi:u"
    Application,
    /// "vi:s"
    System,
    /// "vi:m"
    Manager,
}

impl NvDrvServiceKind {
    /// The name under which the driver service of this kind is registered.
    pub fn service_name(self) -> (name: &'static str)
        ensures
            name@ == match self {
                NvDrvServiceKind::Application => "nvdrv"@,
                NvDrvServiceKind::Applet => "nvdrv:a"@,
                NvDrvServiceKind::System => "nvdrv:s"@,
            },
    {
        match self {
            NvDrvServiceKind::Application => "nvdrv",
            NvDrvServiceKind::Applet => "nvdrv:a",
            NvDrvServiceKind::System => "nvdrv:s",
        }
    }
}

impl ViServiceKind {
    /// The name under which the display service of this kind is registered.
    pub fn service_name(self) -> (name: &'static str)
        ensures
            name@ == match self {
                ViServiceKind::Application => "vi:u"@,
                ViServiceKind::System => "vi:s"@,
                ViServiceKind::Manager => "vi:m"@,
            },
    {
        match self {
            ViServiceKind::Application => "vi:u",
            ViServiceKind::System => "vi:s",
            ViServiceKind::Manager => "vi:m",
        }
    }
}

/// The devices of the graphics driver that a context opens.
#[derive(Copy, Clone, PartialEq, Eq, Structural, Debug)]
pub enum DevicePath {
    /// "/dev/nvhost-as-gpu"
    NvHostAsGpu,
    /// "/dev/nvmap"
    NvMap,
    /// "/dev/nvhost-ctrl"
    NvHostCtrl,
}

impl DevicePath {
    /// The path as the driver takes it, terminator included.
    pub fn as_str(&self) -> (path: &'static str)
        ensures
            path@ == match *self {
                DevicePath::NvHostAsGpu => "/dev/nvhost-as-gpu\0"@,
                DevicePath::NvMap => "/dev/nvmap\0"@,
                DevicePath::NvHostCtrl => "/dev/nvhost-ctrl\0"@,
            },
    {
        match self {
            DevicePath::NvHostAsGpu => "/dev/nvhost-as-gpu\0",
            DevicePath::NvMap => "/dev/nvmap\0",
            DevicePath::NvHostCtrl => "/dev/nvhost-ctrl\0",
        }
    }
}

/// What an error code of the graphics driver amounts to: success, or the
/// result named after the code; a code that has no result of its own is
/// `ResultNvErrorCodeInvalid`.
pub open spec fn spec_convert_nv_error_code(err: nv::ErrorCode) -> Result<(), ResultCode> {
    match err {
        nv::ErrorCode::Success => Ok(()),
        nv::ErrorCode::NotImplemented => Err(code_of::<rc::ResultNvErrorCodeNotImplemented>()),
        nv::ErrorCode::NotSupported => Err(code_of::<rc::ResultNvErrorCodeNotSupported>()),
        nv::ErrorCode::NotInitialized => Err(code_of::<rc::ResultNvErrorCodeNotInitialized>()),
        nv::ErrorCode::InvalidParameter => Err(code_of::<rc::ResultNvErrorCodeInvalidParameter>()),
        nv::ErrorCode::TimeOut => Err(code_of::<rc::ResultNvErrorCodeTimeOut>()),
        nv::ErrorCode::InsufficientMemory => Err(code_of::<rc::ResultNvErrorCodeInsufficientMemory>()),
        nv::ErrorCode::ReadOnlyAttribute => Err(code_of::<rc::ResultNvErrorCodeReadOnlyAttribute>()),
        nv::ErrorCode::InvalidState => Err(code_of::<rc::ResultNvErrorCodeInvalidState>()),
        nv::ErrorCode::InvalidAddress => Err(code_of::<rc::ResultNvErrorCodeInvalidAddress>()),
        nv::ErrorCode::InvalidSize => Err(code_of::<rc::ResultNvErrorCodeInvalidSize>()),
        nv::ErrorCode::InvalidValue => Err(code_of::<rc::ResultNvErrorCodeInvalidValue>()),
        nv::ErrorCode::AlreadyAllocated => Err(code_of::<rc::ResultNvErrorCodeAlreadyAllocated>()),
        nv::ErrorCode::Busy => Err(code_of::<rc::ResultNvErrorCodeBusy>()),
        nv::ErrorCode::ResourceError => Err(code_of::<rc::ResultNvErrorCodeResourceError>()),
        nv::ErrorCode::CountMismatch => Err(code_of::<rc::ResultNvErrorCodeCountMismatch>()),
        nv::ErrorCode::SharedMemoryTooSmall => Err(code_of::<rc::ResultNvErrorCodeSharedMemoryTooSmall>()),
        nv::ErrorCode::FileOperationFailed => Err(code_of::<rc::ResultNvErrorCodeFileOperationFailed>()),
        nv::ErrorCode::IoctlFailed => Err(code_of::<rc::ResultNvErrorCodeIoctlFailed>()),
        _ => Err(code_of::<rc::ResultNvErrorCodeInvalid>()),
    }
}

/// Converts [`ErrorCode`][`nv::ErrorCode`] to a regular [`Result`]
///
/// # Arguments
///
/// * `err`: The [`ErrorCode`][`nv::ErrorCode`]
pub fn convert_nv_error_code(err: nv::ErrorCode) -> (r: Result<(), ResultCode>)
    ensures
        r == spec_convert_nv_error_code(err),
        r.is_ok() <==> err == nv::ErrorCode::Success,
{
    match err {
        nv::ErrorCode::Success => Ok(()),
        nv::ErrorCode::NotImplemented => rc::ResultNvErrorCodeNotImplemented::make_err(),
        nv::ErrorCode::NotSupported => rc::ResultNvErrorCodeNotSupported::make_err(),
        nv::ErrorCode::NotInitialized => rc::ResultNvErrorCodeNotInitialized::make_err(),
        nv::ErrorCode::InvalidParameter => rc::ResultNvErrorCodeInvalidParameter::make_err(),
        nv::ErrorCode::TimeOut => rc::ResultNvErrorCodeTimeOut::make_err(),
        nv::ErrorCode::InsufficientMemory => rc::ResultNvErrorCodeInsufficientMemory::make_err(),
        nv::ErrorCode::ReadOnlyAttribute => rc::ResultNvErrorCodeReadOnlyAttribute::make_err(),
        nv::ErrorCode::InvalidState => rc::ResultNvErrorCodeInvalidState::make_err(),
        nv::ErrorCode::InvalidAddress => rc::ResultNvErrorCodeInvalidAddress::make_err(),
        nv::ErrorCode::InvalidSize => rc::ResultNvErrorCodeInvalidSize::make_err(),
        nv::ErrorCode::InvalidValue => rc::ResultNvErrorCodeInvalidValue::make_err(),
        nv::ErrorCode::AlreadyAllocated => rc::ResultNvErrorCodeAlreadyAllocated::make_err(),
        nv::ErrorCode::Busy => rc::ResultNvErrorCodeBusy::make_err(),
        nv::ErrorCode::ResourceError => rc::ResultNvErrorCodeResourceError::make_err(),
        nv::ErrorCode::CountMismatch => rc::ResultNvErrorCodeCountMismatch::make_err(),
        nv::ErrorCode::SharedMemoryTooSmall => rc::ResultNvErrorCodeSharedMemoryTooSmall::make_err(),
        nv::ErrorCode::FileOperationFailed => rc::ResultNvErrorCodeFileOperationFailed::make_err(),
        nv::ErrorCode::IoctlFailed => rc::ResultNvErrorCodeIoctlFailed::make_err(),
        _ => rc::ResultNvErrorCodeInvalid::make_err(),
    }
}

/// A holder for our `*RootService` objects, just to keep them alive for the lifetime of the `Context`
#[derive(Debug)]
pub enum RootServiceHolder {
    Application(Session),
    Manager(Session),
    System(Session),
}

/// Which services a context of the given kinds opens, and how.
#[derive(Copy, Clone, PartialEq, Eq, Structural, Debug)]
pub struct ContextPlan {
    /// The display service to open.
    pub vi_kind: ViServiceKind,
    /// The mode in which the display service is asked for its application
    /// display service: only the application's own service is a plain user.
    pub display_service_mode: DisplayServiceMode,
    /// The driver service to open.
    pub nv_kind: NvDrvServiceKind,
    /// Whether to open the GPU's address space for accelerated rendering:
    /// all but the system driver service allow it.
    pub nv_host_as_gpu: bool,
    /// The size of the memory to hand to the driver.
    pub transfer_mem_size: usize,
}

/// How far the set-up of a context has come: the step whose outcome is
/// awaited.
#[derive(Copy, Clone, PartialEq, Eq, Structural, Debug)]
pub enum SetupStage {
    AllocateMemory,
    CreateTransferMemory,
    InitializeDriver,
    OpenGpu,
    OpenMap,
    OpenCtrl,
    GetRelayService,
    Done,
    Failed,
}

/// The outcome of the step that was awaited.
#[derive(Copy, Clone, PartialEq, Eq, Structural, Debug)]
pub enum SetupEvent {
    /// The memory was allocated at this address.
    Allocated(usize),
    /// The transfer memory was created under this handle.
    TransferMemoryCreated(Handle),
    /// The driver took the transfer memory.
    DriverInitialized,
    /// The driver answered the request to open a device.
    DeviceOpened { fd: nv::Fd, error: nv::ErrorCode },
    /// The relay service was opened.
    RelayServiceOpened,
    /// The step failed with this result.
    Failed(ResultCode),
}

/// What is to be undone when a set-up fails or a context ends. Everything
/// but the release of the handle is best effort.
#[derive(Copy, Clone, PartialEq, Eq, Structural, Debug)]
pub struct Teardown {
    /// Whether the driver holds anything: then the three descriptors and the
    /// transfer memory are closed in the driver, in this order, and the
    /// driver's session is closed.
    pub in_driver: bool,
    /// The descriptors to close in the driver: the GPU's address space, the
    /// memory map, the control device; zero where one was never opened.
    pub nvhost_fd: nv::Fd,
    pub nvmap_fd: nv::Fd,
    pub nvhostctrl_fd: nv::Fd,
    /// Whether the handle of the transfer memory is to be released.
    pub close_transfer_mem_handle: bool,
    /// The handle of the transfer memory.
    pub transfer_mem_handle: Handle,
    /// Whether a failure to release the handle is fatal.
    pub release_must_succeed: bool,
    /// Whether to wait until the memory is writable again.
    pub reclaim_memory: bool,
}

/// What to do next in setting up a context.
#[derive(Copy, Clone, PartialEq, Eq, Structural, Debug)]
pub enum SetupAction {
    /// Allocate page-aligned memory of this size.
    AllocateMemory { size: usize },
    /// Create transfer memory, without permissions, over the allocation.
    CreateTransferMemory { address: usize, size: usize },
    /// Hand the transfer memory to the driver.
    InitializeDriver { transfer_mem_size: u32, process_handle: Handle, transfer_mem_handle: Handle },
    /// Open a device of the driver.
    OpenDevice(DevicePath),
    /// Ask the application display service for the relay service.
    GetRelayService,
    /// The set-up is complete.
    Finish,
    /// The set-up failed: undo what `teardown` names and return `error`.
    Abort { error: ResultCode, teardown: Teardown },
}

/// The state of setting up a context.
#[derive(Copy, Clone, PartialEq, Eq, Structural, Debug)]
pub struct ContextSetup {
    pub stage: SetupStage,
    pub nv_host_as_gpu: bool,
    pub transfer_mem_size: usize,
    pub transfer_mem_address: usize,
    pub transfer_mem_handle: Handle,
    pub nvhost_fd: nv::Fd,
    pub nvmap_fd: nv::Fd,
    pub nvhostctrl_fd: nv::Fd,
}

impl ContextSetup {
    /// Whether `event` is an outcome of the step that is awaited.
    pub open spec fn accepts(&self, event: SetupEvent) -> bool {
        match event {
            SetupEvent::Failed(_) => self.stage != SetupStage::Done && self.stage
                != SetupStage::Failed,
            SetupEvent::Allocated(_) => self.stage == SetupStage::AllocateMemory,
            SetupEvent::TransferMemoryCreated(_) => self.stage == SetupStage::CreateTransferMemory,
            SetupEvent::DriverInitialized => self.stage == SetupStage::InitializeDriver,
            SetupEvent::DeviceOpened { .. } => self.stage == SetupStage::OpenGpu || self.stage
                == SetupStage::OpenMap || self.stage == SetupStage::OpenCtrl,
            SetupEvent::RelayServiceOpened => self.stage == SetupStage::GetRelayService,
        }
    }

    /// What is to be undone when the step that is awaited fails. Before the
    /// driver has the transfer memory there is at most the handle to
    /// release; afterwards everything that the driver holds goes too, and
    /// the handle must go.
    pub open spec fn teardown(&self) -> Teardown {
        let in_driver = self.stage == SetupStage::OpenGpu || self.stage == SetupStage::OpenMap
            || self.stage == SetupStage::OpenCtrl || self.stage == SetupStage::GetRelayService
            || self.stage == SetupStage::Done;
        let has_handle = in_driver || self.stage == SetupStage::InitializeDriver;
        Teardown {
            in_driver,
            nvhost_fd: self.nvhost_fd,
            nvmap_fd: self.nvmap_fd,
            nvhostctrl_fd: self.nvhostctrl_fd,
            close_transfer_mem_handle: has_handle,
            transfer_mem_handle: self.transfer_mem_handle,
            release_must_succeed: in_driver,
            reclaim_memory: has_handle,
        }
    }

    /// The state in which the set-up failed.
    pub open spec fn failed(&self) -> Self {
        ContextSetup { stage: SetupStage::Failed, ..*self }
    }

    /// The state after `event`, and what to do next.
    ///
    /// The steps follow each other in a fixed order: memory, transfer
    /// memory, the driver, the GPU's address space where it is wanted, the
    /// memory map, the control device, the relay service. A step that fails,
    /// or a device that the driver refuses, ends the set-up with the
    /// teardown of what was reached.
    pub open spec fn spec_advance(&self, event: SetupEvent) -> (Self, SetupAction) {
        match event {
            SetupEvent::Failed(error) => (
                self.failed(),
                SetupAction::Abort { error, teardown: self.teardown() },
            ),
            SetupEvent::Allocated(address) => (
                ContextSetup {
                    stage: SetupStage::CreateTransferMemory,
                    transfer_mem_address: address,
                    ..*self
                },
                SetupAction::CreateTransferMemory { address, size: self.transfer_mem_size },
            ),
            SetupEvent::TransferMemoryCreated(handle) => (
                ContextSetup {
                    stage: SetupStage::InitializeDriver,
                    transfer_mem_handle: handle,
                    ..*self
                },
                SetupAction::InitializeDriver {
                    transfer_mem_size: (self.transfer_mem_size as u64 % 0x1_0000_0000) as u32,
                    process_handle: CURRENT_PROCESS_PSEUDO_HANDLE,
                    transfer_mem_handle: handle,
                },
            ),
            SetupEvent::DriverInitialized => if self.nv_host_as_gpu {
                (
                    ContextSetup { stage: SetupStage::OpenGpu, ..*self },
                    SetupAction::OpenDevice(DevicePath::NvHostAsGpu),
                )
            } else {
                (
                    ContextSetup { stage: SetupStage::OpenMap, ..*self },
                    SetupAction::OpenDevice(DevicePath::NvMap),
                )
            },
            SetupEvent::DeviceOpened { fd, error } => match spec_convert_nv_error_code(error) {
                Err(rc) => (
                    self.failed(),
                    SetupAction::Abort { error: rc, teardown: self.teardown() },
                ),
                Ok(()) => if self.stage == SetupStage::OpenGpu {
                    (
                        ContextSetup { stage: SetupStage::OpenMap, nvhost_fd: fd, ..*self },
                        SetupAction::OpenDevice(DevicePath::NvMap),
                    )
                } else if self.stage == SetupStage::OpenMap {
                    (
                        ContextSetup { stage: SetupStage::OpenCtrl, nvmap_fd: fd, ..*self },
                        SetupAction::OpenDevice(DevicePath::NvHostCtrl),
                    )
                } else {
                    (
                        ContextSetup {
                            stage: SetupStage::GetRelayService,
                            nvhostctrl_fd: fd,
                            ..*self
                        },
                        SetupAction::GetRelayService,
                    )
                },
            },
            SetupEvent::RelayServiceOpened => (
                ContextSetup { stage: SetupStage::Done, ..*self },
                SetupAction::Finish,
            ),
        }
    }

    /// Whether `event` is an outcome of the step that is awaited.
    pub fn is_accepted(&self, event: SetupEvent) -> (b: bool)
        ensures
            b == self.accepts(event),
    {
        match event {
            SetupEvent::Failed(_) => match self.stage {
                SetupStage::Done => false,
                SetupStage::Failed => false,
                _ => true,
            },
            SetupEvent::Allocated(_) => match self.stage {
                SetupStage::AllocateMemory => true,
                _ => false,
            },
            SetupEvent::TransferMemoryCreated(_) => match self.stage {
                SetupStage::CreateTransferMemory => true,
                _ => false,
            },
            SetupEvent::DriverInitialized => match self.stage {
                SetupStage::InitializeDriver => true,
                _ => false,
            },
            SetupEvent::DeviceOpened { .. } => match self.stage {
                SetupStage::OpenGpu => true,
                SetupStage::OpenMap => true,
                SetupStage::OpenCtrl => true,
                _ => false,
            },
            SetupEvent::RelayServiceOpened => match self.stage {
                SetupStage::GetRelayService => true,
                _ => false,
            },
        }
    }

    /// Whether the set-up is complete.
    pub fn is_done(&self) -> (b: bool)
        ensures
            b == (self.stage == SetupStage::Done),
    {
        match self.stage {
            SetupStage::Done => true,
            _ => false,
        }
    }

    /// Starts the set-up of a context with transfer memory of
    /// `transfer_mem_size` bytes: nothing is open, and the first step is to
    /// allocate the memory.
    pub fn begin(transfer_mem_size: usize, nv_host_as_gpu: bool) -> (r: (Self, SetupAction))
        ensures
            r.0 == (ContextSetup {
                stage: SetupStage::AllocateMemory,
                nv_host_as_gpu,
                transfer_mem_size,
                transfer_mem_address: 0,
                transfer_mem_handle: 0,
                nvhost_fd: 0,
                nvmap_fd: 0,
                nvhostctrl_fd: 0,
            }),
            r.1 == (SetupAction::AllocateMemory { size: transfer_mem_size }),
    {
        (
            ContextSetup {
                stage: SetupStage::AllocateMemory,
                nv_host_as_gpu,
                transfer_mem_size,
                transfer_mem_address: 0,
                transfer_mem_handle: 0,
                nvhost_fd: 0,
                nvmap_fd: 0,
                nvhostctrl_fd: 0,
            },
            SetupAction::AllocateMemory { size: transfer_mem_size },
        )
    }

    fn make_teardown(&self) -> (t: Teardown)
        ensures
            t == self.teardown(),
    {
        let in_driver = match self.stage {
            SetupStage::OpenGpu => true,
            SetupStage::OpenMap => true,
            SetupStage::OpenCtrl => true,
            SetupStage::GetRelayService => true,
            SetupStage::Done => true,
            _ => false,
        };
        let has_handle = in_driver || match self.stage {
            SetupStage::InitializeDriver => true,
            _ => false,
        };
        Teardown {
            in_driver,
            nvhost_fd: self.nvhost_fd,
            nvmap_fd: self.nvmap_fd,
            nvhostctrl_fd: self.nvhostctrl_fd,
            close_transfer_mem_handle: has_handle,
            transfer_mem_handle: self.transfer_mem_handle,
            release_must_succeed: in_driver,
            reclaim_memory: has_handle,
        }
    }

    fn abort(&self, error: ResultCode) -> (r: (Self, SetupAction))
        ensures
            r.0 == self.failed(),
            r.1 == (SetupAction::Abort { error, teardown: self.teardown() }),
    {
        let mut next = *self;
        next.stage = SetupStage::Failed;
        (next, SetupAction::Abort { error, teardown: self.make_teardown() })
    }

    /// Takes the outcome of the step that was awaited, and says what to do
    /// next.
    #[verifier::rlimit(50)]
    pub fn advance(&self, event: SetupEvent) -> (r: (Self, SetupAction))
        requires
            self.accepts(event),
        ensures
            r == self.spec_advance(event),
    {
        let mut next = *self;
        match event {
            SetupEvent::Failed(error) => self.abort(error),
            SetupEvent::Allocated(address) => {
                next.stage = SetupStage::CreateTransferMemory;
                next.transfer_mem_address = address;
                (next, SetupAction::CreateTransferMemory { address, size: self.transfer_mem_size })
            },
            SetupEvent::TransferMemoryCreated(handle) => {
                next.stage = SetupStage::InitializeDriver;
                next.transfer_mem_handle = handle;
                (
                    next,
                    SetupAction::InitializeDriver {
                        transfer_mem_size: (self.transfer_mem_size as u64 % 0x1_0000_0000) as u32,
                        process_handle: CURRENT_PROCESS_PSEUDO_HANDLE,
                        transfer_mem_handle: handle,
                    },
                )
            },
            SetupEvent::DriverInitialized => {
                if self.nv_host_as_gpu {
                    next.stage = SetupStage::OpenGpu;
                    (next, SetupAction::OpenDevice(DevicePath::NvHostAsGpu))
                } else {
                    next.stage = SetupStage::OpenMap;
                    (next, SetupAction::OpenDevice(DevicePath::NvMap))
                }
            },
            SetupEvent::DeviceOpened { fd, error } => match convert_nv_error_code(error) {
                Err(rc) => self.abort(rc),
                Ok(()) => match self.stage {
                    SetupStage::OpenGpu => {
                        next.stage = SetupStage::OpenMap;
                        next.nvhost_fd = fd;
                        (next, SetupAction::OpenDevice(DevicePath::NvMap))
                    },
                    SetupStage::OpenMap => {
                        next.stage = SetupStage::OpenCtrl;
                        next.nvmap_fd = fd;
                        (next, SetupAction::OpenDevice(DevicePath::NvHostCtrl))
                    },
                    _ => {
                        next.stage = SetupStage::GetRelayService;
                        next.nvhostctrl_fd = fd;
                        (next, SetupAction::GetRelayService)
                    },
                },
            },
            SetupEvent::RelayServiceOpened => {
                next.stage = SetupStage::Done;
                (next, SetupAction::Finish)
            },
        }
    }
}

/// A set-up ends only by its last step or by a failure, and a failure names
/// what was reached: no descriptor that was never opened is other than zero
/// in a set-up that began fresh, and the handle is released exactly when it
/// was created.
pub proof fn lemma_setup_teardown(setup: ContextSetup, event: SetupEvent)
    requires
        setup.accepts(event),
    ensures
        ({
            let (next, action) = setup.spec_advance(event);
            &&& (action == SetupAction::Finish) <==> next.stage == SetupStage::Done
            &&& (action is Abort) <==> next.stage == SetupStage::Failed
            &&& action is Abort ==> action->teardown == setup.teardown()
            &&& setup.teardown().in_driver ==> setup.teardown().close_transfer_mem_handle
                && setup.teardown().release_must_succeed
            &&& setup.teardown().close_transfer_mem_handle == setup.teardown().reclaim_memory
            &&& (setup.stage == SetupStage::AllocateMemory || setup.stage
                == SetupStage::CreateTransferMemory) ==> !setup.teardown().close_transfer_mem_handle
        }),
{
}

/// Represents a graphics context
#[derive(Debug)]
pub struct Context {
    vi_service: RootServiceHolder,
    nvdrv_service: Session,
    application_display_service: Session,
    hos_binder_driver: Session,
    setup: ContextSetup,
}

impl Context {
    /// The record of what the set-up opened.
    pub closed spec fn setup(&self) -> ContextSetup {
        self.setup
    }

    /// The session of the driver service.
    pub closed spec fn driver(&self) -> Session {
        self.nvdrv_service
    }

    /// The session of the application display service.
    pub closed spec fn display(&self) -> Session {
        self.application_display_service
    }

    /// The session of the binder relay.
    pub closed spec fn binder(&self) -> Session {
        self.hos_binder_driver
    }

    /// Says which services a context of the given kinds opens, and how: the
    /// application's display service is asked as a plain user, the system's
    /// and the manager's as privileged; and all driver services but the
    /// system's open the GPU's address space.
    pub fn new(nv_kind: NvDrvServiceKind, vi_kind: ViServiceKind, transfer_mem_size: usize) -> (plan:
        ContextPlan)
        ensures
            plan.vi_kind == vi_kind,
            plan.nv_kind == nv_kind,
            plan.transfer_mem_size == transfer_mem_size,
            plan.display_service_mode == (if vi_kind == ViServiceKind::Application {
                DisplayServiceMode::User
            } else {
                DisplayServiceMode::Privileged
            }),
            plan.nv_host_as_gpu == (nv_kind != NvDrvServiceKind::System),
    {
        let display_service_mode = match vi_kind {
            ViServiceKind::Manager => DisplayServiceMode::Privileged,
            ViServiceKind::System => DisplayServiceMode::Privileged,
            ViServiceKind::Application => DisplayServiceMode::User,
        };
        let nv_host_as_gpu = match nv_kind {
            NvDrvServiceKind::System => false,
            _ => true,
        };
        ContextPlan { vi_kind, display_service_mode, nv_kind, nv_host_as_gpu, transfer_mem_size }
    }

    /// Creates a [`Context`] from service objects and the record of a set-up
    /// that is complete.
    pub fn from(
        vi_srv: RootServiceHolder,
        application_display_srv: Session,
        nvdrv_srv: Session,
        hos_binder_drv: Session,
        setup: ContextSetup,
    ) -> (ctx: Self)
        requires
            setup.stage == SetupStage::Done,
        ensures
            ctx.setup() == setup,
            ctx.driver() == nvdrv_srv,
            ctx.display() == application_display_srv,
            ctx.binder() == hos_binder_drv,
    {
        Self {
            vi_service: vi_srv,
            nvdrv_service: nvdrv_srv,
            application_display_service: application_display_srv,
            hos_binder_driver: hos_binder_drv,
            setup,
        }
    }

    /// Gets the underlying NV driver service object
    pub fn nvdrv_service(&self) -> (s: &Session)
        ensures
            *s == self.driver(),
    {
        &self.nvdrv_service
    }

    /// Gets the underlying NV driver service object mutably
    pub fn nvdrv_service_mut(&mut self) -> (s: &mut Session)
        ensures
            *s == old(self).driver(),
            final(self).driver() == *final(s),
            final(self).display() == old(self).display(),
            final(self).binder() == old(self).binder(),
            final(self).setup() == old(self).setup(),
    {
        &mut self.nvdrv_service
    }

    /// Gets the underlying application display service object
    pub fn get_application_display_service(&self) -> (s: &Session)
        ensures
            *s == self.display(),
    {
        &self.application_display_service
    }

    /// Gets the underlying application display service object mutably
    pub fn get_application_display_service_mut(&mut self) -> (s: &mut Session)
        ensures
            *s == old(self).display(),
            final(self).display() == *final(s),
            final(self).driver() == old(self).driver(),
            final(self).binder() == old(self).binder(),
            final(self).setup() == old(self).setup(),
    {
        &mut self.application_display_service
    }

    /// Gets the underlying binder relay object
    pub fn get_hos_binder_driver(&self) -> (s: &Session)
        ensures
            *s == self.binder(),
    {
        &self.hos_binder_driver
    }

    /// What is to be undone when the context ends: everything that its
    /// set-up opened.
    pub fn teardown(&self) -> (t: Teardown)
        ensures
            t == self.setup().teardown(),
    {
        self.setup.make_teardown()
    }
}

} // verus!
