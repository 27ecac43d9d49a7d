//! Plain kernel types that the library's logic reads: handles and memory queries.

use vstd::prelude::*;

verus! {

/// A kernel handle.
pub type Handle = u32;

/// The handle value that names nothing.
pub const INVALID_HANDLE: Handle = 0;

/// Pseudo handle that names the calling thread.
pub const CURRENT_THREAD_PSEUDO_HANDLE: Handle = 0xFFFF8000;

/// Pseudo handle that names the calling process.
pub const CURRENT_PROCESS_PSEUDO_HANDLE: Handle = 0xFFFF8001;

/// What the kernel can be asked about a process.
#[derive(Copy, Clone, PartialEq, Eq, Structural, Debug)]
pub enum InfoId {
    CoreMask,
    PriorityMask,
    AliasRegionAddress,
    AliasRegionSize,
    HeapRegionAddress,
    HeapRegionSize,
    TotalMemorySize,
    UsedMemorySize,
    DebuggerAttached,
    ResourceLimit,
    IdleTickCount,
    RandomEntropy,
    AslrRegionAddress,
    AslrRegionSize,
    StackRegionAddress,
    StackRegionSize,
}

impl InfoId {
    /// The number that stands for the variant.
    pub open spec fn spec_value(self) -> u32 {
        match self {
            InfoId::CoreMask => 0,
            InfoId::PriorityMask => 1,
            InfoId::AliasRegionAddress => 2,
            InfoId::AliasRegionSize => 3,
            InfoId::HeapRegionAddress => 4,
            InfoId::HeapRegionSize => 5,
            InfoId::TotalMemorySize => 6,
            InfoId::UsedMemorySize => 7,
            InfoId::DebuggerAttached => 8,
            InfoId::ResourceLimit => 9,
            InfoId::IdleTickCount => 0xa,
            InfoId::RandomEntropy => 0xb,
            InfoId::AslrRegionAddress => 0xc,
            InfoId::AslrRegionSize => 0xd,
            InfoId::StackRegionAddress => 0xe,
            InfoId::StackRegionSize => 0xf,
        }
    }

    /// The variant that `value` stands for, if it stands for one.
    pub open spec fn spec_from_value(value: u32) -> Option<Self> {
        if value == 0 {
            Some(InfoId::CoreMask)
        } else if value == 1 {
            Some(InfoId::PriorityMask)
        } else if value == 2 {
            Some(InfoId::AliasRegionAddress)
        } else if value == 3 {
            Some(InfoId::AliasRegionSize)
        } else if value == 4 {
            Some(InfoId::HeapRegionAddress)
        } else if value == 5 {
            Some(InfoId::HeapRegionSize)
        } else if value == 6 {
            Some(InfoId::TotalMemorySize)
        } else if value == 7 {
            Some(InfoId::UsedMemorySize)
        } else if value == 8 {
            Some(InfoId::DebuggerAttached)
        } else if value == 9 {
            Some(InfoId::ResourceLimit)
        } else if value == 0xa {
            Some(InfoId::IdleTickCount)
        } else if value == 0xb {
            Some(InfoId::RandomEntropy)
        } else if value == 0xc {
            Some(InfoId::AslrRegionAddress)
        } else if value == 0xd {
            Some(InfoId::AslrRegionSize)
        } else if value == 0xe {
            Some(InfoId::StackRegionAddress)
        } else if value == 0xf {
            Some(InfoId::StackRegionSize)
        } else {
            None
        }
    }

    pub fn value(self) -> (value: u32)
        ensures
            value == self.spec_value(),
    {
        match self {
            InfoId::CoreMask => 0,
            InfoId::PriorityMask => 1,
            InfoId::AliasRegionAddress => 2,
            InfoId::AliasRegionSize => 3,
            InfoId::HeapRegionAddress => 4,
            InfoId::HeapRegionSize => 5,
            InfoId::TotalMemorySize => 6,
            InfoId::UsedMemorySize => 7,
            InfoId::DebuggerAttached => 8,
            InfoId::ResourceLimit => 9,
            InfoId::IdleTickCount => 0xa,
            InfoId::RandomEntropy => 0xb,
            InfoId::AslrRegionAddress => 0xc,
            InfoId::AslrRegionSize => 0xd,
            InfoId::StackRegionAddress => 0xe,
            InfoId::StackRegionSize => 0xf,
        }
    }

    /// The variant that `value` stands for, if it stands for one.
    pub fn from_value(value: u32) -> (variant: Option<Self>)
        ensures
            variant == Self::spec_from_value(value),
    {
        if value == 0 {
            Some(InfoId::CoreMask)
        } else if value == 1 {
            Some(InfoId::PriorityMask)
        } else if value == 2 {
            Some(InfoId::AliasRegionAddress)
        } else if value == 3 {
            Some(InfoId::AliasRegionSize)
        } else if value == 4 {
            Some(InfoId::HeapRegionAddress)
        } else if value == 5 {
            Some(InfoId::HeapRegionSize)
        } else if value == 6 {
            Some(InfoId::TotalMemorySize)
        } else if value == 7 {
            Some(InfoId::UsedMemorySize)
        } else if value == 8 {
            Some(InfoId::DebuggerAttached)
        } else if value == 9 {
            Some(InfoId::ResourceLimit)
        } else if value == 0xa {
            Some(InfoId::IdleTickCount)
        } else if value == 0xb {
            Some(InfoId::RandomEntropy)
        } else if value == 0xc {
            Some(InfoId::AslrRegionAddress)
        } else if value == 0xd {
            Some(InfoId::AslrRegionSize)
        } else if value == 0xe {
            Some(InfoId::StackRegionAddress)
        } else if value == 0xf {
            Some(InfoId::StackRegionSize)
        } else {
            None
        }
    }
}

/// What a range of the address space is used for.
#[derive(Copy, Clone, PartialEq, Eq, Structural, Debug)]
pub enum MemoryState {
    Free,
    Io,
    Static,
    Code,
    CodeData,
    Normal,
    Shared,
    Alias,
    AliasCode,
    AliasCodeData,
    Ipc,
    Stack,
    ThreadLocal,
    Transferred,
    SharedTransferred,
    SharedCode,
    Inaccessible,
    NonSecureIpc,
    NonDeviceIpc,
    Kernel,
    GeneratedCode,
    CodeOut,
}

impl MemoryState {
    /// The number that stands for the variant.
    pub open spec fn spec_value(self) -> u32 {
        match self {
            MemoryState::Free => 0,
            MemoryState::Io => 1,
            MemoryState::Static => 2,
            MemoryState::Code => 3,
            MemoryState::CodeData => 4,
            MemoryState::Normal => 5,
            MemoryState::Shared => 6,
            MemoryState::Alias => 7,
            MemoryState::AliasCode => 8,
            MemoryState::AliasCodeData => 9,
            MemoryState::Ipc => 0xa,
            MemoryState::Stack => 0xb,
            MemoryState::ThreadLocal => 0xc,
            MemoryState::Transferred => 0xd,
            MemoryState::SharedTransferred => 0xe,
            MemoryState::SharedCode => 0xf,
            MemoryState::Inaccessible => 0x10,
            MemoryState::NonSecureIpc => 0x11,
            MemoryState::NonDeviceIpc => 0x12,
            MemoryState::Kernel => 0x13,
            MemoryState::GeneratedCode => 0x14,
            MemoryState::CodeOut => 0x15,
        }
    }

    /// The variant that `value` stands for, if it stands for one.
    pub open spec fn spec_from_value(value: u32) -> Option<Self> {
        if value == 0 {
            Some(MemoryState::Free)
        } else if value == 1 {
            Some(MemoryState::Io)
        } else if value == 2 {
            Some(MemoryState::Static)
        } else if value == 3 {
            Some(MemoryState::Code)
        } else if value == 4 {
            Some(MemoryState::CodeData)
        } else if value == 5 {
            Some(MemoryState::Normal)
        } else if value == 6 {
            Some(MemoryState::Shared)
        } else if value == 7 {
            Some(MemoryState::Alias)
        } else if value == 8 {
            Some(MemoryState::AliasCode)
        } else if value == 9 {
            Some(MemoryState::AliasCodeData)
        } else if value == 0xa {
            Some(MemoryState::Ipc)
        } else if value == 0xb {
            Some(MemoryState::Stack)
        } else if value == 0xc {
            Some(MemoryState::ThreadLocal)
        } else if value == 0xd {
            Some(MemoryState::Transferred)
        } else if value == 0xe {
            Some(MemoryState::SharedTransferred)
        } else if value == 0xf {
            Some(MemoryState::SharedCode)
        } else if value == 0x10 {
            Some(MemoryState::Inaccessible)
        } else if value == 0x11 {
            Some(MemoryState::NonSecureIpc)
        } else if value == 0x12 {
            Some(MemoryState::NonDeviceIpc)
        } else if value == 0x13 {
            Some(MemoryState::Kernel)
        } else if value == 0x14 {
            Some(MemoryState::GeneratedCode)
        } else if value == 0x15 {
            Some(MemoryState::CodeOut)
        } else {
            None
        }
    }

    pub fn value(self) -> (value: u32)
        ensures
            value == self.spec_value(),
    {
        match self {
            MemoryState::Free => 0,
            MemoryState::Io => 1,
            MemoryState::Static => 2,
            MemoryState::Code => 3,
            MemoryState::CodeData => 4,
            MemoryState::Normal => 5,
            MemoryState::Shared => 6,
            MemoryState::Alias => 7,
            MemoryState::AliasCode => 8,
            MemoryState::AliasCodeData => 9,
            MemoryState::Ipc => 0xa,
            MemoryState::Stack => 0xb,
            MemoryState::ThreadLocal => 0xc,
            MemoryState::Transferred => 0xd,
            MemoryState::SharedTransferred => 0xe,
            MemoryState::SharedCode => 0xf,
            MemoryState::Inaccessible => 0x10,
            MemoryState::NonSecureIpc => 0x11,
            MemoryState::NonDeviceIpc => 0x12,
            MemoryState::Kernel => 0x13,
            MemoryState::GeneratedCode => 0x14,
            MemoryState::CodeOut => 0x15,
        }
    }

    /// The variant that `value` stands for, if it stands for one.
    pub fn from_value(value: u32) -> (variant: Option<Self>)
        ensures
            variant == Self::spec_from_value(value),
    {
        if value == 0 {
            Some(MemoryState::Free)
        } else if value == 1 {
            Some(MemoryState::Io)
        } else if value == 2 {
            Some(MemoryState::Static)
        } else if value == 3 {
            Some(MemoryState::Code)
        } else if value == 4 {
            Some(MemoryState::CodeData)
        } else if value == 5 {
            Some(MemoryState::Normal)
        } else if value == 6 {
            Some(MemoryState::Shared)
        } else if value == 7 {
            Some(MemoryState::Alias)
        } else if value == 8 {
            Some(MemoryState::AliasCode)
        } else if value == 9 {
            Some(MemoryState::AliasCodeData)
        } else if value == 0xa {
            Some(MemoryState::Ipc)
        } else if value == 0xb {
            Some(MemoryState::Stack)
        } else if value == 0xc {
            Some(MemoryState::ThreadLocal)
        } else if value == 0xd {
            Some(MemoryState::Transferred)
        } else if value == 0xe {
            Some(MemoryState::SharedTransferred)
        } else if value == 0xf {
            Some(MemoryState::SharedCode)
        } else if value == 0x10 {
            Some(MemoryState::Inaccessible)
        } else if value == 0x11 {
            Some(MemoryState::NonSecureIpc)
        } else if value == 0x12 {
            Some(MemoryState::NonDeviceIpc)
        } else if value == 0x13 {
            Some(MemoryState::Kernel)
        } else if value == 0x14 {
            Some(MemoryState::GeneratedCode)
        } else if value == 0x15 {
            Some(MemoryState::CodeOut)
        } else {
            None
        }
    }
}

/// What the kernel says of the range of the address space that holds an
/// address.
#[derive(Copy, Clone, PartialEq, Eq, Structural, Debug)]
pub struct MemoryInfo {
    /// Where the range starts.
    pub base_address: usize,
    /// The size of the range in bytes.
    pub size: usize,
    /// What the range is used for.
    pub state: MemoryState,
    /// The attributes of the range.
    pub attribute: u32,
    /// The permissions of the range.
    pub permission: u32,
    /// How many IPC mappings hold the range.
    pub ipc_refcount: u32,
    /// How many device mappings hold the range.
    pub device_refcount: u32,
}

} // verus!
