//! The display services: the values of their commands.

use crate::ipc::sf::PrimitiveEnum;
use crate::util::ArrayString;
use vstd::prelude::*;

verus! {

/// Tells the display service how to scale spawned layers.
#[derive(Copy, Clone, PartialEq, Eq, Structural, Debug)]
pub enum ScalingMode {
    NoScaling,
    FitToLayer,
    PreserveAspectRatio,
}

impl ScalingMode {
    /// The number that stands for the variant.
    pub open spec fn spec_value(self) -> u64 {
        match self {
            ScalingMode::NoScaling => 0,
            ScalingMode::FitToLayer => 2,
            ScalingMode::PreserveAspectRatio => 4,
        }
    }

    /// The variant that `value` stands for, if it stands for one.
    pub open spec fn spec_from_value(value: u64) -> Option<Self> {
        if value == 0 {
            Some(ScalingMode::NoScaling)
        } else if value == 2 {
            Some(ScalingMode::FitToLayer)
        } else if value == 4 {
            Some(ScalingMode::PreserveAspectRatio)
        } else {
            None
        }
    }

    pub fn value(self) -> (value: u64)
        ensures
            value == self.spec_value(),
    {
        match self {
            ScalingMode::NoScaling => 0,
            ScalingMode::FitToLayer => 2,
            ScalingMode::PreserveAspectRatio => 4,
        }
    }

    /// The variant that `value` stands for, if it stands for one.
    pub fn from_value(value: u64) -> (variant: Option<Self>)
        ensures
            variant == Self::spec_from_value(value),
    {
        if value == 0 {
            Some(ScalingMode::NoScaling)
        } else if value == 2 {
            Some(ScalingMode::FitToLayer)
        } else if value == 4 {
            Some(ScalingMode::PreserveAspectRatio)
        } else {
            None
        }
    }
}

impl Default for ScalingMode {
    fn default() -> (variant: Self)
        ensures
            variant == ScalingMode::FitToLayer,
    {
        ScalingMode::FitToLayer
    }
}

impl PrimitiveEnum<u64> for ScalingMode {
    open spec fn spec_to_primitive(self) -> u64 {
        self.spec_value()
    }

    open spec fn spec_from_primitive(value: u64) -> Option<Self> {
        Self::spec_from_value(value)
    }

    proof fn lemma_round_trip(self) {
    }

    fn to_primitive(self) -> (value: u64) {
        self.value()
    }

    fn from_primitive(value: u64) -> (variant: Option<Self>) {
        Self::from_value(value)
    }
}

/// With which rights a display service is opened.
#[derive(Copy, Clone, PartialEq, Eq, Structural, Debug)]
pub enum DisplayServiceMode {
    User,
    Privileged,
}

impl DisplayServiceMode {
    /// The number that stands for the variant.
    pub open spec fn spec_value(self) -> u32 {
        match self {
            DisplayServiceMode::User => 0,
            DisplayServiceMode::Privileged => 1,
        }
    }

    /// The variant that `value` stands for, if it stands for one.
    pub open spec fn spec_from_value(value: u32) -> Option<Self> {
        if value == 0 {
            Some(DisplayServiceMode::User)
        } else if value == 1 {
            Some(DisplayServiceMode::Privileged)
        } else {
            None
        }
    }

    pub fn value(self) -> (value: u32)
        ensures
            value == self.spec_value(),
    {
        match self {
            DisplayServiceMode::User => 0,
            DisplayServiceMode::Privileged => 1,
        }
    }

    /// The variant that `value` stands for, if it stands for one.
    pub fn from_value(value: u32) -> (variant: Option<Self>)
        ensures
            variant == Self::spec_from_value(value),
    {
        if value == 0 {
            Some(DisplayServiceMode::User)
        } else if value == 1 {
            Some(DisplayServiceMode::Privileged)
        } else {
            None
        }
    }
}

impl PrimitiveEnum<u32> for DisplayServiceMode {
    open spec fn spec_to_primitive(self) -> u32 {
        self.spec_value()
    }

    open spec fn spec_from_primitive(value: u32) -> Option<Self> {
        Self::spec_from_value(value)
    }

    proof fn lemma_round_trip(self) {
    }

    fn to_primitive(self) -> (value: u32) {
        self.value()
    }

    fn from_primitive(value: u32) -> (variant: Option<Self>) {
        Self::from_value(value)
    }
}

/// The stacks that a layer can be put on.
#[derive(Copy, Clone, PartialEq, Eq, Structural, Debug)]
pub enum LayerStackId {
    Default,
    Lcd,
    Screenshot,
    Recording,
    LastFrame,
    Arbitrary,
    ApplicationForDebug,
    Null,
}

impl LayerStackId {
    /// The number that stands for the variant.
    pub open spec fn spec_value(self) -> u32 {
        match self {
            LayerStackId::Default => 0,
            LayerStackId::Lcd => 1,
            LayerStackId::Screenshot => 2,
            LayerStackId::Recording => 3,
            LayerStackId::LastFrame => 4,
            LayerStackId::Arbitrary => 5,
            LayerStackId::ApplicationForDebug => 6,
            LayerStackId::Null => 7,
        }
    }

    /// The variant that `value` stands for, if it stands for one.
    pub open spec fn spec_from_value(value: u32) -> Option<Self> {
        if value == 0 {
            Some(LayerStackId::Default)
        } else if value == 1 {
            Some(LayerStackId::Lcd)
        } else if value == 2 {
            Some(LayerStackId::Screenshot)
        } else if value == 3 {
            Some(LayerStackId::Recording)
        } else if value == 4 {
            Some(LayerStackId::LastFrame)
        } else if value == 5 {
            Some(LayerStackId::Arbitrary)
        } else if value == 6 {
            Some(LayerStackId::ApplicationForDebug)
        } else if value == 7 {
            Some(LayerStackId::Null)
        } else {
            None
        }
    }

    pub fn value(self) -> (value: u32)
        ensures
            value == self.spec_value(),
    {
        match self {
            LayerStackId::Default => 0,
            LayerStackId::Lcd => 1,
            LayerStackId::Screenshot => 2,
            LayerStackId::Recording => 3,
            LayerStackId::LastFrame => 4,
            LayerStackId::Arbitrary => 5,
            LayerStackId::ApplicationForDebug => 6,
            LayerStackId::Null => 7,
        }
    }

    /// The variant that `value` stands for, if it stands for one.
    pub fn from_value(value: u32) -> (variant: Option<Self>)
        ensures
            variant == Self::spec_from_value(value),
    {
        if value == 0 {
            Some(LayerStackId::Default)
        } else if value == 1 {
            Some(LayerStackId::Lcd)
        } else if value == 2 {
            Some(LayerStackId::Screenshot)
        } else if value == 3 {
            Some(LayerStackId::Recording)
        } else if value == 4 {
            Some(LayerStackId::LastFrame)
        } else if value == 5 {
            Some(LayerStackId::Arbitrary)
        } else if value == 6 {
            Some(LayerStackId::ApplicationForDebug)
        } else if value == 7 {
            Some(LayerStackId::Null)
        } else {
            None
        }
    }
}

impl Default for LayerStackId {
    fn default() -> (variant: Self)
        ensures
            variant == LayerStackId::Default,
    {
        LayerStackId::Default
    }
}

impl PrimitiveEnum<u32> for LayerStackId {
    open spec fn spec_to_primitive(self) -> u32 {
        self.spec_value()
    }

    open spec fn spec_from_primitive(value: u32) -> Option<Self> {
        Self::spec_from_value(value)
    }

    proof fn lemma_round_trip(self) {
    }

    fn to_primitive(self) -> (value: u32) {
        self.value()
    }

    fn from_primitive(value: u32) -> (variant: Option<Self>) {
        Self::from_value(value)
    }
}

/// The name of a display.
pub type DisplayName = ArrayString<0x40>;

/// The id of a display.
pub type DisplayId = u64;

/// The id of a layer.
pub type LayerId = u64;

} // verus!
