//! The primary protocol: typed commands, control commands and domains.

use vstd::prelude::*;

pub mod client;
pub mod rc;

verus! {

/// Magic number of the data header of a request: "SFCI".
pub const IN_DATA_HEADER_MAGIC: u32 = 0x49434653;

/// Magic number of the data header of a response: "SFCO".
pub const OUT_DATA_HEADER_MAGIC: u32 = 0x4F434653;

/// Bytes reserved in the data words so that the data can start at a
/// multiple of sixteen.
pub const DATA_PADDING: u32 = 16;

/// Size in bytes of a data header.
pub const DATA_HEADER_SIZE: u32 = 16;

/// Size in bytes of the header that addresses a domain object.
pub const DOMAIN_HEADER_SIZE: u32 = 16;

/// The command type in the first header word.
#[derive(Copy, Clone, PartialEq, Eq, Structural, Debug)]
pub enum CommandType {
    Invalid,
    LegacyRequest,
    Close,
    LegacyControl,
    Request,
    Control,
    RequestWithContext,
    ControlWithContext,
}

impl CommandType {
    /// The value on the wire.
    pub open spec fn spec_value(self) -> u32 {
        match self {
            CommandType::Invalid => 0,
            CommandType::LegacyRequest => 1,
            CommandType::Close => 2,
            CommandType::LegacyControl => 3,
            CommandType::Request => 4,
            CommandType::Control => 5,
            CommandType::RequestWithContext => 6,
            CommandType::ControlWithContext => 7,
        }
    }

    pub fn value(self) -> (v: u32)
        ensures
            v == self.spec_value(),
    {
        match self {
            CommandType::Invalid => 0,
            CommandType::LegacyRequest => 1,
            CommandType::Close => 2,
            CommandType::LegacyControl => 3,
            CommandType::Request => 4,
            CommandType::Control => 5,
            CommandType::RequestWithContext => 6,
            CommandType::ControlWithContext => 7,
        }
    }
}

/// What a message asks of the domain object that it addresses.
#[derive(Copy, Clone, PartialEq, Eq, Structural, Debug)]
pub enum DomainCommandType {
    Invalid,
    /// Hand the request to the object.
    SendMessage,
    /// Close the object; the session stays open.
    Close,
}

impl DomainCommandType {
    /// The value on the wire.
    pub open spec fn spec_value(self) -> u8 {
        match self {
            DomainCommandType::Invalid => 0,
            DomainCommandType::SendMessage => 1,
            DomainCommandType::Close => 2,
        }
    }

    pub fn value(self) -> (v: u8)
        ensures
            v == self.spec_value(),
    {
        match self {
            DomainCommandType::Invalid => 0,
            DomainCommandType::SendMessage => 1,
            DomainCommandType::Close => 2,
        }
    }
}

/// The requests that a session itself answers, whatever object it serves.
#[derive(Copy, Clone, PartialEq, Eq, Structural, Debug)]
pub enum ControlRequestId {
    ConvertCurrentObjectToDomain,
    CopyFromCurrentDomain,
    CloneCurrentObject,
    QueryPointerBufferSize,
    CloneCurrentObjectEx,
}

impl ControlRequestId {
    /// The value on the wire.
    pub open spec fn spec_value(self) -> u32 {
        match self {
            ControlRequestId::ConvertCurrentObjectToDomain => 0,
            ControlRequestId::CopyFromCurrentDomain => 1,
            ControlRequestId::CloneCurrentObject => 2,
            ControlRequestId::QueryPointerBufferSize => 3,
            ControlRequestId::CloneCurrentObjectEx => 4,
        }
    }

    pub fn value(self) -> (v: u32)
        ensures
            v == self.spec_value(),
    {
        match self {
            ControlRequestId::ConvertCurrentObjectToDomain => 0,
            ControlRequestId::CopyFromCurrentDomain => 1,
            ControlRequestId::CloneCurrentObject => 2,
            ControlRequestId::QueryPointerBufferSize => 3,
            ControlRequestId::CloneCurrentObjectEx => 4,
        }
    }
}

} // verus!
