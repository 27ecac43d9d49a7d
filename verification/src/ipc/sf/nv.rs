//! The graphics driver service: its error codes.

use crate::ipc::sf::PrimitiveEnum;
use vstd::prelude::*;

verus! {

/// The error codes with which the graphics driver answers.
#[derive(Copy, Clone, PartialEq, Eq, Structural, Debug)]
pub enum ErrorCode {
    Success,
    NotImplemented,
    NotSupported,
    NotInitialized,
    InvalidParameter,
    TimeOut,
    InsufficientMemory,
    ReadOnlyAttribute,
    InvalidState,
    InvalidAddress,
    InvalidSize,
    InvalidValue,
    AlreadyAllocated,
    Busy,
    ResourceError,
    CountMismatch,
    SharedMemoryTooSmall,
    FileOperationFailed,
    DirectoryOperationFailed,
    IoctlFailed,
    AccessDenied,
    FileNotFound,
    ModuleNotPresent,
}

impl ErrorCode {
    /// The number that stands for the variant.
    pub open spec fn spec_value(self) -> u32 {
        match self {
            ErrorCode::Success => 0,
            ErrorCode::NotImplemented => 1,
            ErrorCode::NotSupported => 2,
            ErrorCode::NotInitialized => 3,
            ErrorCode::InvalidParameter => 4,
            ErrorCode::TimeOut => 5,
            ErrorCode::InsufficientMemory => 6,
            ErrorCode::ReadOnlyAttribute => 7,
            ErrorCode::InvalidState => 8,
            ErrorCode::InvalidAddress => 9,
            ErrorCode::InvalidSize => 0xa,
            ErrorCode::InvalidValue => 0xb,
            ErrorCode::AlreadyAllocated => 0xd,
            ErrorCode::Busy => 0xe,
            ErrorCode::ResourceError => 0xf,
            ErrorCode::CountMismatch => 0x10,
            ErrorCode::SharedMemoryTooSmall => 0x1000,
            ErrorCode::FileOperationFailed => 0x30003,
            ErrorCode::DirectoryOperationFailed => 0x30004,
            ErrorCode::IoctlFailed => 0x3000f,
            ErrorCode::AccessDenied => 0x30010,
            ErrorCode::FileNotFound => 0x30013,
            ErrorCode::ModuleNotPresent => 0xa000e,
        }
    }

    /// The variant that `value` stands for, if it stands for one.
    pub open spec fn spec_from_value(value: u32) -> Option<Self> {
        if value == 0 {
            Some(ErrorCode::Success)
        } else if value == 1 {
            Some(ErrorCode::NotImplemented)
        } else if value == 2 {
            Some(ErrorCode::NotSupported)
        } else if value == 3 {
            Some(ErrorCode::NotInitialized)
        } else if value == 4 {
            Some(ErrorCode::InvalidParameter)
        } else if value == 5 {
            Some(ErrorCode::TimeOut)
        } else if value == 6 {
            Some(ErrorCode::InsufficientMemory)
        } else if value == 7 {
            Some(ErrorCode::ReadOnlyAttribute)
        } else if value == 8 {
            Some(ErrorCode::InvalidState)
        } else if value == 9 {
            Some(ErrorCode::InvalidAddress)
        } else if value == 0xa {
            Some(ErrorCode::InvalidSize)
        } else if value == 0xb {
            Some(ErrorCode::InvalidValue)
        } else if value == 0xd {
            Some(ErrorCode::AlreadyAllocated)
        } else if value == 0xe {
            Some(ErrorCode::Busy)
        } else if value == 0xf {
            Some(ErrorCode::ResourceError)
        } else if value == 0x10 {
            Some(ErrorCode::CountMismatch)
        } else if value == 0x1000 {
            Some(ErrorCode::SharedMemoryTooSmall)
        } else if value == 0x30003 {
            Some(ErrorCode::FileOperationFailed)
        } else if value == 0x30004 {
            Some(ErrorCode::DirectoryOperationFailed)
        } else if value == 0x3000f {
            Some(ErrorCode::IoctlFailed)
        } else if value == 0x30010 {
            Some(ErrorCode::AccessDenied)
        } else if value == 0x30013 {
            Some(ErrorCode::FileNotFound)
        } else if value == 0xa000e {
            Some(ErrorCode::ModuleNotPresent)
        } else {
            None
        }
    }

    pub fn value(self) -> (value: u32)
        ensures
            value == self.spec_value(),
    {
        match self {
            ErrorCode::Success => 0,
            ErrorCode::NotImplemented => 1,
            ErrorCode::NotSupported => 2,
            ErrorCode::NotInitialized => 3,
            ErrorCode::InvalidParameter => 4,
            ErrorCode::TimeOut => 5,
            ErrorCode::InsufficientMemory => 6,
            ErrorCode::ReadOnlyAttribute => 7,
            ErrorCode::InvalidState => 8,
            ErrorCode::InvalidAddress => 9,
            ErrorCode::InvalidSize => 0xa,
            ErrorCode::InvalidValue => 0xb,
            ErrorCode::AlreadyAllocated => 0xd,
            ErrorCode::Busy => 0xe,
            ErrorCode::ResourceError => 0xf,
            ErrorCode::CountMismatch => 0x10,
            ErrorCode::SharedMemoryTooSmall => 0x1000,
            ErrorCode::FileOperationFailed => 0x30003,
            ErrorCode::DirectoryOperationFailed => 0x30004,
            ErrorCode::IoctlFailed => 0x3000f,
            ErrorCode::AccessDenied => 0x30010,
            ErrorCode::FileNotFound => 0x30013,
            ErrorCode::ModuleNotPresent => 0xa000e,
        }
    }

    /// The variant that `value` stands for, if it stands for one.
    pub fn from_value(value: u32) -> (variant: Option<Self>)
        ensures
            variant == Self::spec_from_value(value),
    {
        if value == 0 {
            Some(ErrorCode::Success)
        } else if value == 1 {
            Some(ErrorCode::NotImplemented)
        } else if value == 2 {
            Some(ErrorCode::NotSupported)
        } else if value == 3 {
            Some(ErrorCode::NotInitialized)
        } else if value == 4 {
            Some(ErrorCode::InvalidParameter)
        } else if value == 5 {
            Some(ErrorCode::TimeOut)
        } else if value == 6 {
            Some(ErrorCode::InsufficientMemory)
        } else if value == 7 {
            Some(ErrorCode::ReadOnlyAttribute)
        } else if value == 8 {
            Some(ErrorCode::InvalidState)
        } else if value == 9 {
            Some(ErrorCode::InvalidAddress)
        } else if value == 0xa {
            Some(ErrorCode::InvalidSize)
        } else if value == 0xb {
            Some(ErrorCode::InvalidValue)
        } else if value == 0xd {
            Some(ErrorCode::AlreadyAllocated)
        } else if value == 0xe {
            Some(ErrorCode::Busy)
        } else if value == 0xf {
            Some(ErrorCode::ResourceError)
        } else if value == 0x10 {
            Some(ErrorCode::CountMismatch)
        } else if value == 0x1000 {
            Some(ErrorCode::SharedMemoryTooSmall)
        } else if value == 0x30003 {
            Some(ErrorCode::FileOperationFailed)
        } else if value == 0x30004 {
            Some(ErrorCode::DirectoryOperationFailed)
        } else if value == 0x3000f {
            Some(ErrorCode::IoctlFailed)
        } else if value == 0x30010 {
            Some(ErrorCode::AccessDenied)
        } else if value == 0x30013 {
            Some(ErrorCode::FileNotFound)
        } else if value == 0xa000e {
            Some(ErrorCode::ModuleNotPresent)
        } else {
            None
        }
    }
}

impl PrimitiveEnum<u32> for ErrorCode {
    open spec fn spec_to_primitive(self) -> u32 {
        self.spec_value()
    }

    open spec fn spec_from_primitive(value: u32) -> Option<Self> {
        Self::spec_from_value(value)
    }

    proof fn lemma_round_trip(self) {
    }

    fn to_primitive(self) -> (value: u32) {
        self.value()
    }

    fn from_primitive(value: u32) -> (variant: Option<Self>) {
        Self::from_value(value)
    }
}

/// A file descriptor of the graphics driver.
pub type Fd = u32;

} // verus!
