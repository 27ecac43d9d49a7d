//! The NFC services: the layouts and values of their commands.

use crate::ipc::sf::{PrimitiveEnum, Session};
use vstd::prelude::*;

pub mod rc;

verus! {

/// The handle of an NFC device.
#[derive(Copy, Clone, PartialEq, Eq, Debug)]
pub struct DeviceHandle {
    pub id: u32,
    pub reserved: [u8; 4],
}

impl DeviceHandle {
    /// Whether every field holds its default: zero, or the default variant.
    pub open spec fn is_default(&self) -> bool {
        &&& self.id == 0
        &&& forall|i: int| 0 <= i < 4 ==> self.reserved@[i] == 0
    }
}

impl Default for DeviceHandle {
    fn default() -> (value: Self)
        ensures
            value.is_default(),
    {
        Self {
            id: 0,
            reserved: [0u8; 4],
        }
    }
}

impl DeviceHandle {
    /// The number of bytes that the layout takes in a command.
    pub const WIRE_SIZE: usize = 0x8;
}

/// Whether the service is initialized.
#[derive(Copy, Clone, PartialEq, Eq, Structural, Debug)]
pub enum State {
    NonInitialized,
    Initialized,
}

impl State {
    /// The number that stands for the variant.
    pub open spec fn spec_value(self) -> u32 {
        match self {
            State::NonInitialized => 0,
            State::Initialized => 1,
        }
    }

    /// The variant that `value` stands for, if it stands for one.
    pub open spec fn spec_from_value(value: u32) -> Option<Self> {
        if value == 0 {
            Some(State::NonInitialized)
        } else if value == 1 {
            Some(State::Initialized)
        } else {
            None
        }
    }

    pub fn value(self) -> (value: u32)
        ensures
            value == self.spec_value(),
    {
        match self {
            State::NonInitialized => 0,
            State::Initialized => 1,
        }
    }

    /// The variant that `value` stands for, if it stands for one.
    pub fn from_value(value: u32) -> (variant: Option<Self>)
        ensures
            variant == Self::spec_from_value(value),
    {
        if value == 0 {
            Some(State::NonInitialized)
        } else if value == 1 {
            Some(State::Initialized)
        } else {
            None
        }
    }
}

impl PrimitiveEnum<u32> for State {
    open spec fn spec_to_primitive(self) -> u32 {
        self.spec_value()
    }

    open spec fn spec_from_primitive(value: u32) -> Option<Self> {
        Self::spec_from_value(value)
    }

    proof fn lemma_round_trip(self) {
    }

    fn to_primitive(self) -> (value: u32) {
        self.value()
    }

    fn from_primitive(value: u32) -> (variant: Option<Self>) {
        Self::from_value(value)
    }
}

/// What an NFC device is doing.
#[derive(Copy, Clone, PartialEq, Eq, Structural, Debug)]
pub enum DeviceState {
    Initialized,
    SearchingForTag,
    TagFound,
    TagRemoved,
    TagMounted,
    Unavailable,
    Finalized,
}

impl DeviceState {
    /// The number that stands for the variant.
    pub open spec fn spec_value(self) -> u32 {
        match self {
            DeviceState::Initialized => 0,
            DeviceState::SearchingForTag => 1,
            DeviceState::TagFound => 2,
            DeviceState::TagRemoved => 3,
            DeviceState::TagMounted => 4,
            DeviceState::Unavailable => 5,
            DeviceState::Finalized => 6,
        }
    }

    /// The variant that `value` stands for, if it stands for one.
    pub open spec fn spec_from_value(value: u32) -> Option<Self> {
        if value == 0 {
            Some(DeviceState::Initialized)
        } else if value == 1 {
            Some(DeviceState::SearchingForTag)
        } else if value == 2 {
            Some(DeviceState::TagFound)
        } else if value == 3 {
            Some(DeviceState::TagRemoved)
        } else if value == 4 {
            Some(DeviceState::TagMounted)
        } else if value == 5 {
            Some(DeviceState::Unavailable)
        } else if value == 6 {
            Some(DeviceState::Finalized)
        } else {
            None
        }
    }

    pub fn value(self) -> (value: u32)
        ensures
            value == self.spec_value(),
    {
        match self {
            DeviceState::Initialized => 0,
            DeviceState::SearchingForTag => 1,
            DeviceState::TagFound => 2,
            DeviceState::TagRemoved => 3,
            DeviceState::TagMounted => 4,
            DeviceState::Unavailable => 5,
            DeviceState::Finalized => 6,
        }
    }

    /// The variant that `value` stands for, if it stands for one.
    pub fn from_value(value: u32) -> (variant: Option<Self>)
        ensures
            variant == Self::spec_from_value(value),
    {
        if value == 0 {
            Some(DeviceState::Initialized)
        } else if value == 1 {
            Some(DeviceState::SearchingForTag)
        } else if value == 2 {
            Some(DeviceState::TagFound)
        } else if value == 3 {
            Some(DeviceState::TagRemoved)
        } else if value == 4 {
            Some(DeviceState::TagMounted)
        } else if value == 5 {
            Some(DeviceState::Unavailable)
        } else if value == 6 {
            Some(DeviceState::Finalized)
        } else {
            None
        }
    }
}

impl PrimitiveEnum<u32> for DeviceState {
    open spec fn spec_to_primitive(self) -> u32 {
        self.spec_value()
    }

    open spec fn spec_from_primitive(value: u32) -> Option<Self> {
        Self::spec_from_value(value)
    }

    proof fn lemma_round_trip(self) {
    }

    fn to_primitive(self) -> (value: u32) {
        self.value()
    }

    fn from_primitive(value: u32) -> (variant: Option<Self>) {
        Self::from_value(value)
    }
}

/// What a tag tells of itself.
#[derive(Copy, Clone, PartialEq, Eq, Debug)]
pub struct TagInfo {
    pub uuid: [u8; 10],
    pub uuid_length: u8,
    pub reserved_1: [u8; 0x15],
    pub protocol: u32,
    pub tag_type: u32,
    pub reserved_2: [u8; 0x30],
}

impl TagInfo {
    /// The number of bytes that the layout takes in a command.
    pub const WIRE_SIZE: usize = 0x58;
}

/// The commands of a Mifare tag.
#[derive(Copy, Clone, PartialEq, Eq, Structural, Debug)]
pub enum MifareCommand {
    Read,
    AuthA,
    AuthB,
    Write,
    Transfer,
    Decrement,
    Increment,
    Store,
}

impl MifareCommand {
    /// The number that stands for the variant.
    pub open spec fn spec_value(self) -> u8 {
        match self {
            MifareCommand::Read => 0x30,
            MifareCommand::AuthA => 0x60,
            MifareCommand::AuthB => 0x61,
            MifareCommand::Write => 0xa0,
            MifareCommand::Transfer => 0xb0,
            MifareCommand::Decrement => 0xc0,
            MifareCommand::Increment => 0xc1,
            MifareCommand::Store => 0xc2,
        }
    }

    /// The variant that `value` stands for, if it stands for one.
    pub open spec fn spec_from_value(value: u8) -> Option<Self> {
        if value == 0x30 {
            Some(MifareCommand::Read)
        } else if value == 0x60 {
            Some(MifareCommand::AuthA)
        } else if value == 0x61 {
            Some(MifareCommand::AuthB)
        } else if value == 0xa0 {
            Some(MifareCommand::Write)
        } else if value == 0xb0 {
            Some(MifareCommand::Transfer)
        } else if value == 0xc0 {
            Some(MifareCommand::Decrement)
        } else if value == 0xc1 {
            Some(MifareCommand::Increment)
        } else if value == 0xc2 {
            Some(MifareCommand::Store)
        } else {
            None
        }
    }

    pub fn value(self) -> (value: u8)
        ensures
            value == self.spec_value(),
    {
        match self {
            MifareCommand::Read => 0x30,
            MifareCommand::AuthA => 0x60,
            MifareCommand::AuthB => 0x61,
            MifareCommand::Write => 0xa0,
            MifareCommand::Transfer => 0xb0,
            MifareCommand::Decrement => 0xc0,
            MifareCommand::Increment => 0xc1,
            MifareCommand::Store => 0xc2,
        }
    }

    /// The variant that `value` stands for, if it stands for one.
    pub fn from_value(value: u8) -> (variant: Option<Self>)
        ensures
            variant == Self::spec_from_value(value),
    {
        if value == 0x30 {
            Some(MifareCommand::Read)
        } else if value == 0x60 {
            Some(MifareCommand::AuthA)
        } else if value == 0x61 {
            Some(MifareCommand::AuthB)
        } else if value == 0xa0 {
            Some(MifareCommand::Write)
        } else if value == 0xb0 {
            Some(MifareCommand::Transfer)
        } else if value == 0xc0 {
            Some(MifareCommand::Decrement)
        } else if value == 0xc1 {
            Some(MifareCommand::Increment)
        } else if value == 0xc2 {
            Some(MifareCommand::Store)
        } else {
            None
        }
    }
}

impl PrimitiveEnum<u8> for MifareCommand {
    open spec fn spec_to_primitive(self) -> u8 {
        self.spec_value()
    }

    open spec fn spec_from_primitive(value: u8) -> Option<Self> {
        Self::spec_from_value(value)
    }

    proof fn lemma_round_trip(self) {
    }

    fn to_primitive(self) -> (value: u8) {
        self.value()
    }

    fn from_primitive(value: u8) -> (variant: Option<Self>) {
        Self::from_value(value)
    }
}

/// The key of a Mifare sector, with the command that it is for.
#[derive(Copy, Clone, PartialEq, Eq, Debug)]
pub struct NfcSectorKey {
    pub mifare_command: u8,
    pub unknown: u8,
    pub reserved: [u8; 6],
    pub key: [u8; 6],
    pub reserved2: [u8; 2],
}

impl NfcSectorKey {
    /// The number of bytes that the layout takes in a command.
    pub const WIRE_SIZE: usize = 0x10;
}

/// Which block of a Mifare tag to read, and with which key.
#[derive(Copy, Clone, PartialEq, Eq, Debug)]
pub struct NfcMifareReadBlockParameter {
    pub block_number: u8,
    pub reserved: [u8; 7],
    pub sector_key: NfcSectorKey,
}

impl NfcMifareReadBlockParameter {
    /// The number of bytes that the layout takes in a command.
    pub const WIRE_SIZE: usize = 0x18;
}

/// A block as it was read from a Mifare tag.
#[derive(Copy, Clone, PartialEq, Eq, Debug)]
pub struct NfcMifareReadBlockData {
    pub data: [u8; 16],
    pub block_number: u8,
    pub reserved: [u8; 7],
}

impl NfcMifareReadBlockData {
    /// The number of bytes that the layout takes in a command.
    pub const WIRE_SIZE: usize = 0x18;
}

/// What to write to which block of a Mifare tag, and with which key.
#[derive(Copy, Clone, PartialEq, Eq, Debug)]
pub struct NfcMifareWriteBlockParameter {
    pub data: [u8; 16],
    pub block_number: u8,
    pub reserved: [u8; 7],
    pub sector_key: NfcSectorKey,
}

impl NfcMifareWriteBlockParameter {
    /// The number of bytes that the layout takes in a command.
    pub const WIRE_SIZE: usize = 0x28;
}

/// The service that hands out the NFC interface for applications.
#[derive(Debug)]
pub struct UserManager {
    pub session: Session,
}

/// The service that hands out the NFC interface for the system.
#[derive(Debug)]
pub struct SystemManager {
    pub session: Session,
}

/// The service that hands out the Mifare interface.
#[derive(Debug)]
pub struct MifareManager {
    pub session: Session,
}

} // verus!
