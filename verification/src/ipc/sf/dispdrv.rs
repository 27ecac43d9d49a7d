//! The display driver's binder relay: the values of its commands.

use crate::ipc::sf::PrimitiveEnum;
use vstd::prelude::*;

verus! {

/// The two reference counts of a binder object.
#[derive(Copy, Clone, PartialEq, Eq, Structural, Debug)]
pub enum RefcountType {
    Weak,
    Strong,
}

impl RefcountType {
    /// The number that stands for the variant.
    pub open spec fn spec_value(self) -> u32 {
        match self {
            RefcountType::Weak => 0,
            RefcountType::Strong => 1,
        }
    }

    /// The variant that `value` stands for, if it stands for one.
    pub open spec fn spec_from_value(value: u32) -> Option<Self> {
        if value == 0 {
            Some(RefcountType::Weak)
        } else if value == 1 {
            Some(RefcountType::Strong)
        } else {
            None
        }
    }

    pub fn value(self) -> (value: u32)
        ensures
            value == self.spec_value(),
    {
        match self {
            RefcountType::Weak => 0,
            RefcountType::Strong => 1,
        }
    }

    /// The variant that `value` stands for, if it stands for one.
    pub fn from_value(value: u32) -> (variant: Option<Self>)
        ensures
            variant == Self::spec_from_value(value),
    {
        if value == 0 {
            Some(RefcountType::Weak)
        } else if value == 1 {
            Some(RefcountType::Strong)
        } else {
            None
        }
    }
}

impl PrimitiveEnum<u32> for RefcountType {
    open spec fn spec_to_primitive(self) -> u32 {
        self.spec_value()
    }

    open spec fn spec_from_primitive(value: u32) -> Option<Self> {
        Self::spec_from_value(value)
    }

    proof fn lemma_round_trip(self) {
    }

    fn to_primitive(self) -> (value: u32) {
        self.value()
    }

    fn from_primitive(value: u32) -> (variant: Option<Self>) {
        Self::from_value(value)
    }
}

/// The transactions of the buffer queue.
#[derive(Copy, Clone, PartialEq, Eq, Structural, Debug)]
pub enum ParcelTransactionId {
    RequestBuffer,
    SetBufferCount,
    DequeueBuffer,
    DetachBuffer,
    DetachNextBuffer,
    AttachBuffer,
    QueueBuffer,
    CancelBuffer,
    Query,
    Connect,
    Disconnect,
    SetSidebandStream,
    AllocateBuffers,
    SetPreallocatedBuffer,
}

impl ParcelTransactionId {
    /// The number that stands for the variant.
    pub open spec fn spec_value(self) -> u32 {
        match self {
            ParcelTransactionId::RequestBuffer => 1,
            ParcelTransactionId::SetBufferCount => 2,
            ParcelTransactionId::DequeueBuffer => 3,
            ParcelTransactionId::DetachBuffer => 4,
            ParcelTransactionId::DetachNextBuffer => 5,
            ParcelTransactionId::AttachBuffer => 6,
            ParcelTransactionId::QueueBuffer => 7,
            ParcelTransactionId::CancelBuffer => 8,
            ParcelTransactionId::Query => 9,
            ParcelTransactionId::Connect => 0xa,
            ParcelTransactionId::Disconnect => 0xb,
            ParcelTransactionId::SetSidebandStream => 0xc,
            ParcelTransactionId::AllocateBuffers => 0xd,
            ParcelTransactionId::SetPreallocatedBuffer => 0xe,
        }
    }

    /// The variant that `value` stands for, if it stands for one.
    pub open spec fn spec_from_value(value: u32) -> Option<Self> {
        if value == 1 {
            Some(ParcelTransactionId::RequestBuffer)
        } else if value == 2 {
            Some(ParcelTransactionId::SetBufferCount)
        } else if value == 3 {
            Some(ParcelTransactionId::DequeueBuffer)
        } else if value == 4 {
            Some(ParcelTransactionId::DetachBuffer)
        } else if value == 5 {
            Some(ParcelTransactionId::DetachNextBuffer)
        } else if value == 6 {
            Some(ParcelTransactionId::AttachBuffer)
        } else if value == 7 {
            Some(ParcelTransactionId::QueueBuffer)
        } else if value == 8 {
            Some(ParcelTransactionId::CancelBuffer)
        } else if value == 9 {
            Some(ParcelTransactionId::Query)
        } else if value == 0xa {
            Some(ParcelTransactionId::Connect)
        } else if value == 0xb {
            Some(ParcelTransactionId::Disconnect)
        } else if value == 0xc {
            Some(ParcelTransactionId::SetSidebandStream)
        } else if value == 0xd {
            Some(ParcelTransactionId::AllocateBuffers)
        } else if value == 0xe {
            Some(ParcelTransactionId::SetPreallocatedBuffer)
        } else {
            None
        }
    }

    pub fn value(self) -> (value: u32)
        ensures
            value == self.spec_value(),
    {
        match self {
            ParcelTransactionId::RequestBuffer => 1,
            ParcelTransactionId::SetBufferCount => 2,
            ParcelTransactionId::DequeueBuffer => 3,
            ParcelTransactionId::DetachBuffer => 4,
            ParcelTransactionId::DetachNextBuffer => 5,
            ParcelTransactionId::AttachBuffer => 6,
            ParcelTransactionId::QueueBuffer => 7,
            ParcelTransactionId::CancelBuffer => 8,
            ParcelTransactionId::Query => 9,
            ParcelTransactionId::Connect => 0xa,
            ParcelTransactionId::Disconnect => 0xb,
            ParcelTransactionId::SetSidebandStream => 0xc,
            ParcelTransactionId::AllocateBuffers => 0xd,
            ParcelTransactionId::SetPreallocatedBuffer => 0xe,
        }
    }

    /// The variant that `value` stands for, if it stands for one.
    pub fn from_value(value: u32) -> (variant: Option<Self>)
        ensures
            variant == Self::spec_from_value(value),
    {
        if value == 1 {
            Some(ParcelTransactionId::RequestBuffer)
        } else if value == 2 {
            Some(ParcelTransactionId::SetBufferCount)
        } else if value == 3 {
            Some(ParcelTransactionId::DequeueBuffer)
        } else if value == 4 {
            Some(ParcelTransactionId::DetachBuffer)
        } else if value == 5 {
            Some(ParcelTransactionId::DetachNextBuffer)
        } else if value == 6 {
            Some(ParcelTransactionId::AttachBuffer)
        } else if value == 7 {
            Some(ParcelTransactionId::QueueBuffer)
        } else if value == 8 {
            Some(ParcelTransactionId::CancelBuffer)
        } else if value == 9 {
            Some(ParcelTransactionId::Query)
        } else if value == 0xa {
            Some(ParcelTransactionId::Connect)
        } else if value == 0xb {
            Some(ParcelTransactionId::Disconnect)
        } else if value == 0xc {
            Some(ParcelTransactionId::SetSidebandStream)
        } else if value == 0xd {
            Some(ParcelTransactionId::AllocateBuffers)
        } else if value == 0xe {
            Some(ParcelTransactionId::SetPreallocatedBuffer)
        } else {
            None
        }
    }
}

impl PrimitiveEnum<u32> for ParcelTransactionId {
    open spec fn spec_to_primitive(self) -> u32 {
        self.spec_value()
    }

    open spec fn spec_from_primitive(value: u32) -> Option<Self> {
        Self::spec_from_value(value)
    }

    proof fn lemma_round_trip(self) {
    }

    fn to_primitive(self) -> (value: u32) {
        self.value()
    }

    fn from_primitive(value: u32) -> (variant: Option<Self>) {
        Self::from_value(value)
    }
}

/// The native handles that a binder object hands out.
#[derive(Copy, Clone, PartialEq, Eq, Structural, Debug)]
pub enum NativeHandleType {
    BufferEvent,
}

impl NativeHandleType {
    /// The number that stands for the variant.
    pub open spec fn spec_value(self) -> u32 {
        match self {
            NativeHandleType::BufferEvent => 0xf,
        }
    }

    /// The variant that `value` stands for, if it stands for one.
    pub open spec fn spec_from_value(value: u32) -> Option<Self> {
        if value == 0xf {
            Some(NativeHandleType::BufferEvent)
        } else {
            None
        }
    }

    pub fn value(self) -> (value: u32)
        ensures
            value == self.spec_value(),
    {
        match self {
            NativeHandleType::BufferEvent => 0xf,
        }
    }

    /// The variant that `value` stands for, if it stands for one.
    pub fn from_value(value: u32) -> (variant: Option<Self>)
        ensures
            variant == Self::spec_from_value(value),
    {
        if value == 0xf {
            Some(NativeHandleType::BufferEvent)
        } else {
            None
        }
    }
}

impl PrimitiveEnum<u32> for NativeHandleType {
    open spec fn spec_to_primitive(self) -> u32 {
        self.spec_value()
    }

    open spec fn spec_from_primitive(value: u32) -> Option<Self> {
        Self::spec_from_value(value)
    }

    proof fn lemma_round_trip(self) {
    }

    fn to_primitive(self) -> (value: u32) {
        self.value()
    }

    fn from_primitive(value: u32) -> (variant: Option<Self>) {
        Self::from_value(value)
    }
}

/// A handle of the binder.
pub type BinderHandle = i32;

} // verus!
