//! Sessions' addressing records, the raw-data cursor and the command context.

use crate::ipc::cmif::client::{
    control_response, read_control_command_response_from_msg_buffer,
    write_control_command_on_msg_buffer,
};
use crate::ipc::cmif::rc::ResultInvalidHeaderSize;
use crate::ipc::cmif::ControlRequestId;
use crate::ipc::message::{received_head, word_at};
use crate::ipc::raw::{le_bytes_u32, push_u32, put, write_at, RawValue, Wire};
use crate::ipc::rc::{
    ResultCopyHandlesFull, ResultDomainObjectsFull, ResultExchangeBuffersFull,
    ResultInvalidBufferAttributes, ResultInvalidDomainObject, ResultInvalidProtocol,
    ResultMoveHandlesFull,
    ResultPointerSizesFull, ResultReceiveBuffersFull, ResultReceiveStaticsFull,
    ResultSendBuffersFull, ResultSendStaticsFull,
};
use crate::ipc::sf::{Buffer, Handle as SfHandle};
use crate::result::{code_of, ResultBase, ResultCode};
use crate::svc::{Handle, INVALID_HANDLE};
use vstd::prelude::*;

pub mod client;
pub mod cmif;
pub mod message;
pub mod raw;
pub mod rc;
pub mod server;
pub mod sf;
pub mod tipc;

verus! {

/// The wire encoding that a remote object speaks.
#[derive(Copy, Clone, PartialEq, Eq, Structural, Debug)]
pub enum CommandProtocol {
    /// The primary protocol: domains, control commands, typed commands.
    Cmif,
    /// The secondary, thin protocol of a few low-level objects.
    Tipc,
}

impl Default for CommandProtocol {
    fn default() -> (p: Self)
        ensures
            p == CommandProtocol::Cmif,
    {
        CommandProtocol::Cmif
    }
}

/// Identifier of an object inside a domain.
pub type DomainObjectId = u32;

/// The identifier that names no domain object.
pub const INVALID_DOMAIN_OBJECT_ID: DomainObjectId = 0;

/// How a remote object is reached at the moment.
#[derive(Copy, Clone, PartialEq, Eq, Structural, Debug)]
pub enum ObjectState {
    /// No handle: nothing is reachable.
    Invalid,
    /// Reached by its own kernel handle.
    Plain,
    /// Reached by an object id inside the domain that the handle addresses.
    Domain,
}

/// Identity of a remote endpoint: a kernel handle, and inside a domain an
/// object id as well.
#[derive(Copy, Clone, PartialEq, Eq, Structural, Debug)]
pub struct ObjectInfo {
    /// The kernel handle, or `INVALID_HANDLE`.
    pub handle: Handle,
    /// The object's id in the domain, or `INVALID_DOMAIN_OBJECT_ID`.
    pub domain_object_id: DomainObjectId,
    /// Whether closing this object releases the handle.
    pub owns_handle: bool,
    /// The wire encoding of the object.
    pub protocol: CommandProtocol,
}

impl ObjectInfo {
    /// The state that the fields stand for. A domain id counts only beside a
    /// live handle.
    pub open spec fn state(&self) -> ObjectState {
        if self.handle == INVALID_HANDLE {
            ObjectState::Invalid
        } else if self.domain_object_id == INVALID_DOMAIN_OBJECT_ID {
            ObjectState::Plain
        } else {
            ObjectState::Domain
        }
    }

    /// The record that addresses nothing.
    pub open spec fn spec_new() -> Self {
        ObjectInfo {
            handle: INVALID_HANDLE,
            domain_object_id: INVALID_DOMAIN_OBJECT_ID,
            owns_handle: false,
            protocol: CommandProtocol::Cmif,
        }
    }

    pub fn new() -> (info: Self)
        ensures
            info == Self::spec_new(),
            info.state() == ObjectState::Invalid,
    {
        Self {
            handle: INVALID_HANDLE,
            domain_object_id: INVALID_DOMAIN_OBJECT_ID,
            owns_handle: false,
            protocol: CommandProtocol::Cmif,
        }
    }

    /// An object reached by `handle`, which it owns, over the primary protocol.
    pub fn from_handle(handle: Handle) -> (info: Self)
        ensures
            info == (ObjectInfo {
                handle,
                domain_object_id: INVALID_DOMAIN_OBJECT_ID,
                owns_handle: true,
                protocol: CommandProtocol::Cmif,
            }),
    {
        Self {
            handle,
            domain_object_id: INVALID_DOMAIN_OBJECT_ID,
            owns_handle: true,
            protocol: CommandProtocol::Cmif,
        }
    }

    /// An object of the domain behind `parent_handle`, which stays the
    /// parent's to close.
    pub fn from_domain_object_id(parent_handle: Handle, domain_object_id: DomainObjectId) -> (info:
        Self)
        ensures
            info == (ObjectInfo {
                handle: parent_handle,
                domain_object_id,
                owns_handle: false,
                protocol: CommandProtocol::Cmif,
            }),
    {
        Self {
            handle: parent_handle,
            domain_object_id,
            owns_handle: false,
            protocol: CommandProtocol::Cmif,
        }
    }

    pub fn is_valid(&self) -> (b: bool)
        ensures
            b == (self.state() != ObjectState::Invalid),
            b == (self.handle != INVALID_HANDLE),
    {
        self.handle != INVALID_HANDLE
    }

    pub fn is_domain(&self) -> (b: bool)
        ensures
            b == (self.domain_object_id != INVALID_DOMAIN_OBJECT_ID),
            self.handle != INVALID_HANDLE ==> b == (self.state() == ObjectState::Domain),
    {
        self.domain_object_id != INVALID_DOMAIN_OBJECT_ID
    }

    pub fn get_state(&self) -> (s: ObjectState)
        ensures
            s == self.state(),
    {
        if self.handle == INVALID_HANDLE {
            ObjectState::Invalid
        } else if self.domain_object_id == INVALID_DOMAIN_OBJECT_ID {
            ObjectState::Plain
        } else {
            ObjectState::Domain
        }
    }

    pub fn uses_cmif_protocol(&self) -> (b: bool)
        ensures
            b == (self.protocol == CommandProtocol::Cmif),
    {
        match self.protocol {
            CommandProtocol::Cmif => true,
            CommandProtocol::Tipc => false,
        }
    }

    pub fn uses_tipc_protocol(&self) -> (b: bool)
        ensures
            b == (self.protocol == CommandProtocol::Tipc),
    {
        match self.protocol {
            CommandProtocol::Cmif => false,
            CommandProtocol::Tipc => true,
        }
    }
}

/// The smallest multiple of `align` that is not below `offset`.
pub open spec fn aligned_offset(offset: int, align: int) -> int
    recommends
        offset >= 0,
        align > 0,
{
    if offset % align == 0 {
        offset
    } else {
        offset + align - offset % align
    }
}

/// Where a value of type `T` starts when the cursor stands at `offset`.
pub open spec fn value_start<T: RawValue>(offset: int) -> int {
    aligned_offset(offset, T::spec_align() as int)
}

/// Where the cursor stands after a value of type `T`, coming from `offset`.
pub open spec fn value_end<T: RawValue>(offset: int) -> int {
    value_start::<T>(offset) + T::spec_size()
}

/// A cursor over the raw-data region of a message: the region's place in the
/// message buffer and the offset reached inside it.
#[derive(Copy, Clone, PartialEq, Eq, Structural, Debug)]
pub struct DataWalker {
    /// Index in the message buffer at which the region starts.
    pub base: usize,
    /// Offset reached inside the region.
    pub cur_offset: usize,
}

impl DataWalker {
    /// A cursor for planning a layout: it stands at offset zero of no region.
    pub fn empty() -> (w: Self)
        ensures
            w.base == 0,
            w.cur_offset == 0,
    {
        Self { base: 0, cur_offset: 0 }
    }

    /// A cursor at the start of the region that begins at `base`.
    pub fn new(base: usize) -> (w: Self)
        ensures
            w.base == base,
            w.cur_offset == 0,
    {
        Self { base, cur_offset: 0 }
    }

    /// Whether a value of type `T` at the cursor lies inside a buffer of
    /// `len` bytes.
    pub open spec fn fits<T: RawValue>(&self, len: nat) -> bool {
        self.base + value_end::<T>(self.cur_offset as int) <= len
    }

    fn aligned_for<T: RawValue>(&self) -> (start: usize)
        requires
            value_start::<T>(self.cur_offset as int) <= usize::MAX,
        ensures
            start == value_start::<T>(self.cur_offset as int),
            self.cur_offset <= start,
    {
        proof {
            T::lemma_layout();
        }
        let align = T::align();
        let rem = self.cur_offset % align;
        if rem == 0 {
            self.cur_offset
        } else {
            self.cur_offset + (align - rem)
        }
    }

    /// Reserves the room of a value of type `T` without touching memory.
    pub fn advance<T: RawValue>(&mut self)
        requires
            value_end::<T>(old(self).cur_offset as int) <= usize::MAX,
        ensures
            final(self).cur_offset == value_end::<T>(old(self).cur_offset as int),
            final(self).base == old(self).base,
    {
        let start = self.aligned_for::<T>();
        self.cur_offset = start + T::size();
    }

    /// Reads the value of type `T` at the cursor and moves past it.
    pub fn advance_get<T: RawValue>(&mut self, buf: &Vec<u8>) -> (t: T)
        requires
            old(self).fits::<T>(buf@.len()),
        ensures
            final(self).cur_offset == value_end::<T>(old(self).cur_offset as int),
            final(self).base == old(self).base,
            t == T::spec_value(
                buf@.subrange(
                    old(self).base + value_start::<T>(old(self).cur_offset as int),
                    old(self).base + value_end::<T>(old(self).cur_offset as int),
                ),
            ),
    {
        let _len: usize = buf.len();
        let start = self.aligned_for::<T>();
        self.cur_offset = start + T::size();
        T::read_at(buf, self.base + start)
    }

    /// Writes `t` at the cursor and moves past it.
    pub fn advance_set<T: RawValue>(&mut self, buf: &mut Vec<u8>, t: T)
        requires
            old(self).fits::<T>(old(buf)@.len()),
        ensures
            final(self).cur_offset == value_end::<T>(old(self).cur_offset as int),
            final(self).base == old(self).base,
            final(buf)@ == put(
                old(buf)@,
                old(self).base + value_start::<T>(old(self).cur_offset as int),
                t.spec_bytes(),
            ),
    {
        let _len: usize = buf.len();
        let start = self.aligned_for::<T>();
        self.cur_offset = start + T::size();
        let bytes = t.to_bytes();
        proof {
            T::lemma_round_trip(t);
        }
        write_at(buf, self.base + start, &bytes);
    }

    /// Back to the start of the region.
    pub fn reset(&mut self)
        ensures
            final(self).cur_offset == 0,
            final(self).base == old(self).base,
    {
        self.cur_offset = 0;
    }

    /// To the start of the region that begins at `base`.
    pub fn reset_with(&mut self, base: usize)
        ensures
            final(self).cur_offset == 0,
            final(self).base == base,
    {
        self.base = base;
        self.cur_offset = 0;
    }

    pub fn get_offset(&self) -> (offset: usize)
        ensures
            offset == self.cur_offset,
    {
        self.cur_offset
    }
}

/// A value written at a cursor is the value read at a cursor that stands at
/// the same place, and both cursors, like one that only reserves the room,
/// end at the same offset: a reader that asks for the types the writer wrote,
/// in the writer's order, sees the writer's values.
pub proof fn lemma_set_then_get<T: RawValue>(buf: Seq<u8>, walker: DataWalker, t: T)
    requires
        walker.fits::<T>(buf.len()),
    ensures
        ({
            let start = walker.base + value_start::<T>(walker.cur_offset as int);
            let end = walker.base + value_end::<T>(walker.cur_offset as int);
            let written = put(buf, start, t.spec_bytes());
            &&& written.len() == buf.len()
            &&& T::spec_value(written.subrange(start, end)) == t
            &&& written.subrange(0, start) == buf.subrange(0, start)
            &&& written.subrange(end, buf.len() as int) == buf.subrange(end, buf.len() as int)
        }),
{
    T::lemma_layout();
    T::lemma_round_trip(t);
    let start = walker.base + value_start::<T>(walker.cur_offset as int);
    crate::ipc::raw::lemma_put_then_read(buf, start, t.spec_bytes());
}

/// Writing a raw value at the cursor changes no byte before the cursor and
/// none after the value.
#[verifier::rlimit(50)]
pub proof fn lemma_set_frame<T: RawValue>(buf: Seq<u8>, walker: DataWalker, t: T)
    requires
        walker.fits::<T>(buf.len()),
    ensures
        ({
            let start = walker.base + value_start::<T>(walker.cur_offset as int);
            let end = walker.base + value_end::<T>(walker.cur_offset as int);
            let written = put(buf, start, t.spec_bytes());
            &&& written.len() == buf.len()
            &&& walker.cur_offset <= value_start::<T>(walker.cur_offset as int)
            &&& written.subrange(0, walker.base + walker.cur_offset) == buf.subrange(
                0,
                walker.base + walker.cur_offset,
            )
            &&& written.subrange(end, buf.len() as int) == buf.subrange(end, buf.len() as int)
        }),
{
    T::lemma_round_trip(t);
    lemma_value_start::<T>(walker.cur_offset as int);
    let start = walker.base + value_start::<T>(walker.cur_offset as int);
    let end = walker.base + value_end::<T>(walker.cur_offset as int);
    let written = put(buf, start, t.spec_bytes());
    assert(written.subrange(0, walker.base + walker.cur_offset) =~= buf.subrange(
        0,
        walker.base + walker.cur_offset,
    ));
    assert(written.subrange(end, buf.len() as int) =~= buf.subrange(end, buf.len() as int));
}

/// The start of a value is aligned, and lies less than one alignment past
/// the cursor.
pub proof fn lemma_value_start<T: RawValue>(offset: int)
    requires
        offset >= 0,
    ensures
        offset <= value_start::<T>(offset) < offset + T::spec_align(),
        value_start::<T>(offset) % (T::spec_align() as int) == 0,
{
    T::lemma_layout();
    let a = T::spec_align() as int;
    if offset % a != 0 {
        vstd::arithmetic::div_mod::lemma_fundamental_div_mod(offset, a);
        let q = offset / a;
        assert(offset + a - offset % a == a * (q + 1)) by (nonlinear_arith)
            requires
                offset == a * q + offset % a,
        ;
        vstd::arithmetic::div_mod::lemma_mod_multiples_basic(q + 1, a);
        assert((a * (q + 1)) % a == 0) by {
            assert(a * (q + 1) == (q + 1) * a) by (nonlinear_arith);
        }
    }
}

/// How many entries each list of a command can hold.
pub const MAX_COUNT: usize = 8;

/// Memory attributes that a mapped buffer asks of the kernel.
#[derive(Copy, Clone, PartialEq, Eq, Structural, Debug)]
pub enum BufferFlags {
    Normal,
    NonSecure,
    Invalid,
    NonDevice,
}

impl BufferFlags {
    /// The two-bit value on the wire.
    pub open spec fn spec_value(self) -> u32 {
        match self {
            BufferFlags::Normal => 0,
            BufferFlags::NonSecure => 1,
            BufferFlags::Invalid => 2,
            BufferFlags::NonDevice => 3,
        }
    }

    pub fn value(self) -> (v: u32)
        ensures
            v == self.spec_value(),
    {
        match self {
            BufferFlags::Normal => 0,
            BufferFlags::NonSecure => 1,
            BufferFlags::Invalid => 2,
            BufferFlags::NonDevice => 3,
        }
    }
}

/// A mapped range: the kernel maps it into the receiver for the call.
#[derive(Copy, Clone, PartialEq, Eq, Structural, Debug)]
pub struct BufferDescriptor {
    pub address: usize,
    pub size: usize,
    pub flags: BufferFlags,
}

impl BufferDescriptor {
    pub fn new(address: usize, size: usize, flags: BufferFlags) -> (d: Self)
        ensures
            d == (BufferDescriptor { address, size, flags }),
    {
        Self { address, size, flags }
    }

    /// First word: the low 32 bits of the size.
    pub open spec fn size_low(&self) -> u32 {
        (self.size as u64 % 0x1_0000_0000) as u32
    }

    /// Second word: the low 32 bits of the address.
    pub open spec fn address_low(&self) -> u32 {
        (self.address as u64 % 0x1_0000_0000) as u32
    }

    /// Third word: the flags in bits 0 to 1, address bits 36 and up in bits
    /// 2 to 23, size bits 32 to 35 in bits 24 to 27, address bits 32 to 35 in
    /// bits 28 to 31.
    pub open spec fn bits(&self) -> u32 {
        (self.flags.spec_value() + ((self.address as u64 / 0x10_0000_0000) % 0x40_0000) * 4 + ((
        self.size as u64 / 0x1_0000_0000) % 16) * 0x100_0000 + ((self.address as u64
            / 0x1_0000_0000) % 16) * 0x1000_0000) as u32
    }

    /// The twelve bytes of the descriptor on the wire.
    pub open spec fn spec_bytes(&self) -> Seq<u8> {
        le_bytes_u32(self.size_low()) + le_bytes_u32(self.address_low()) + le_bytes_u32(
            self.bits(),
        )
    }

    /// Appends the descriptor's wire form to `out`.
    pub fn write(&self, out: &mut Vec<u8>)
        ensures
            final(out)@ == old(out)@ + self.spec_bytes(),
    {
        let address = self.address as u64;
        let size = self.size as u64;
        let bits: u64 = self.flags.value() as u64 + ((address / 0x10_0000_0000) % 0x40_0000) * 4
            + ((size / 0x1_0000_0000) % 16) * 0x100_0000 + ((address / 0x1_0000_0000) % 16)
            * 0x1000_0000;
        push_u32(out, (size % 0x1_0000_0000) as u32);
        push_u32(out, (address % 0x1_0000_0000) as u32);
        push_u32(out, bits as u32);
        assert(out@ =~= old(out)@ + self.spec_bytes());
    }
}

impl Wire for BufferDescriptor {
    open spec fn spec_wire(&self) -> Seq<u8> {
        self.spec_bytes()
    }

    fn write_wire(&self, out: &mut Vec<u8>) {
        self.write(out);
    }
}

/// A range that the kernel copies to the receiver's pointer buffer.
#[derive(Copy, Clone, PartialEq, Eq, Structural, Debug)]
pub struct SendStaticDescriptor {
    pub address: usize,
    pub size: usize,
    pub index: u32,
}

impl SendStaticDescriptor {
    pub fn new(address: usize, size: usize, index: u32) -> (d: Self)
        ensures
            d == (SendStaticDescriptor { address, size, index }),
    {
        Self { address, size, index }
    }

    /// First word: the index in bits 0 to 5, address bits 36 to 41 in bits 6
    /// to 11, address bits 32 to 35 in bits 12 to 15, the low 16 bits of the
    /// size in bits 16 to 31.
    pub open spec fn bits(&self) -> u32 {
        (self.index % 64 + ((self.address as u64 / 0x10_0000_0000) % 64) * 64 + ((
        self.address as u64 / 0x1_0000_0000) % 16) * 0x1000 + (self.size as u64 % 0x1_0000)
            * 0x1_0000) as u32
    }

    /// Second word: the low 32 bits of the address.
    pub open spec fn address_low(&self) -> u32 {
        (self.address as u64 % 0x1_0000_0000) as u32
    }

    /// The eight bytes of the descriptor on the wire.
    pub open spec fn spec_bytes(&self) -> Seq<u8> {
        le_bytes_u32(self.bits()) + le_bytes_u32(self.address_low())
    }

    /// Appends the descriptor's wire form to `out`.
    pub fn write(&self, out: &mut Vec<u8>)
        ensures
            final(out)@ == old(out)@ + self.spec_bytes(),
    {
        let address = self.address as u64;
        let size = self.size as u64;
        let bits: u64 = (self.index % 64) as u64 + ((address / 0x10_0000_0000) % 64) * 64 + ((
        address / 0x1_0000_0000) % 16) * 0x1000 + (size % 0x1_0000) * 0x1_0000;
        push_u32(out, bits as u32);
        push_u32(out, (address % 0x1_0000_0000) as u32);
        assert(out@ =~= old(out)@ + self.spec_bytes());
    }
}

impl Wire for SendStaticDescriptor {
    open spec fn spec_wire(&self) -> Seq<u8> {
        self.spec_bytes()
    }

    fn write_wire(&self, out: &mut Vec<u8>) {
        self.write(out);
    }
}

/// A range into which the kernel copies what the other side sends by pointer.
#[derive(Copy, Clone, PartialEq, Eq, Structural, Debug)]
pub struct ReceiveStaticDescriptor {
    pub address: usize,
    pub size: usize,
}

impl ReceiveStaticDescriptor {
    pub fn new(address: usize, size: usize) -> (d: Self)
        ensures
            d == (ReceiveStaticDescriptor { address, size }),
    {
        Self { address, size }
    }

    /// First word: the low 32 bits of the address.
    pub open spec fn address_low(&self) -> u32 {
        (self.address as u64 % 0x1_0000_0000) as u32
    }

    /// Second word: address bits 32 to 47 in bits 0 to 15, the low 16 bits of
    /// the size in bits 16 to 31.
    pub open spec fn bits(&self) -> u32 {
        ((self.address as u64 / 0x1_0000_0000) % 0x1_0000 + (self.size as u64 % 0x1_0000)
            * 0x1_0000) as u32
    }

    /// The eight bytes of the descriptor on the wire.
    pub open spec fn spec_bytes(&self) -> Seq<u8> {
        le_bytes_u32(self.address_low()) + le_bytes_u32(self.bits())
    }

    /// Appends the descriptor's wire form to `out`.
    pub fn write(&self, out: &mut Vec<u8>)
        ensures
            final(out)@ == old(out)@ + self.spec_bytes(),
    {
        let address = self.address as u64;
        let size = self.size as u64;
        let bits: u64 = (address / 0x1_0000_0000) % 0x1_0000 + (size % 0x1_0000) * 0x1_0000;
        push_u32(out, (address % 0x1_0000_0000) as u32);
        push_u32(out, bits as u32);
        assert(out@ =~= old(out)@ + self.spec_bytes());
    }
}

impl Wire for ReceiveStaticDescriptor {
    open spec fn spec_wire(&self) -> Seq<u8> {
        self.spec_bytes()
    }

    fn write_wire(&self, out: &mut Vec<u8>) {
        self.write(out);
    }
}

/// What a request carries besides its buffers.
pub struct CommandIn {
    /// Whether the kernel is asked to fill in the sender's process id.
    pub send_process_id: bool,
    /// Room for the process id.
    pub process_id: u64,
    /// Size in bytes of the raw arguments.
    pub data_size: u32,
    /// Index in the message buffer of the first raw argument.
    pub data_offset: usize,
    /// Index in the message buffer of the first data word.
    pub data_words_offset: usize,
    /// Index in the message buffer of the first domain object id.
    pub objects_offset: usize,
    /// Handles that the kernel duplicates for the receiver, in call order.
    pub copy_handles: Vec<Handle>,
    /// Handles that pass to the receiver, in call order.
    pub move_handles: Vec<Handle>,
    /// Domain objects sent along, in call order.
    pub objects: Vec<DomainObjectId>,
    /// Sizes of the ranges that take what the receiver sends back by pointer.
    pub out_pointer_sizes: Vec<u16>,
}

impl CommandIn {
    /// No list holds more than `MAX_COUNT` entries.
    pub open spec fn wf(&self) -> bool {
        &&& self.copy_handles@.len() <= MAX_COUNT
        &&& self.move_handles@.len() <= MAX_COUNT
        &&& self.objects@.len() <= MAX_COUNT
        &&& self.out_pointer_sizes@.len() <= MAX_COUNT
    }

    /// Whether nothing but the list of copy handles differs from `other`.
    pub open spec fn same_but_copy_handles(&self, other: &Self) -> bool {
        &&& self.send_process_id == other.send_process_id
        &&& self.process_id == other.process_id
        &&& self.data_size == other.data_size
        &&& self.data_offset == other.data_offset
        &&& self.data_words_offset == other.data_words_offset
        &&& self.objects_offset == other.objects_offset
        &&& self.move_handles@ == other.move_handles@
        &&& self.objects@ == other.objects@
        &&& self.out_pointer_sizes@ == other.out_pointer_sizes@
    }

    /// Whether nothing but the list of move handles differs from `other`.
    pub open spec fn same_but_move_handles(&self, other: &Self) -> bool {
        &&& self.send_process_id == other.send_process_id
        &&& self.process_id == other.process_id
        &&& self.data_size == other.data_size
        &&& self.data_offset == other.data_offset
        &&& self.data_words_offset == other.data_words_offset
        &&& self.objects_offset == other.objects_offset
        &&& self.copy_handles@ == other.copy_handles@
        &&& self.objects@ == other.objects@
        &&& self.out_pointer_sizes@ == other.out_pointer_sizes@
    }

    /// Whether nothing but the list of domain objects differs from `other`.
    pub open spec fn same_but_objects(&self, other: &Self) -> bool {
        &&& self.send_process_id == other.send_process_id
        &&& self.process_id == other.process_id
        &&& self.data_size == other.data_size
        &&& self.data_offset == other.data_offset
        &&& self.data_words_offset == other.data_words_offset
        &&& self.objects_offset == other.objects_offset
        &&& self.copy_handles@ == other.copy_handles@
        &&& self.move_handles@ == other.move_handles@
        &&& self.out_pointer_sizes@ == other.out_pointer_sizes@
    }

    /// Whether nothing but the list of out-pointer sizes differs from `other`.
    pub open spec fn same_but_out_pointer_sizes(&self, other: &Self) -> bool {
        &&& self.send_process_id == other.send_process_id
        &&& self.process_id == other.process_id
        &&& self.data_size == other.data_size
        &&& self.data_offset == other.data_offset
        &&& self.data_words_offset == other.data_words_offset
        &&& self.objects_offset == other.objects_offset
        &&& self.copy_handles@ == other.copy_handles@
        &&& self.move_handles@ == other.move_handles@
        &&& self.objects@ == other.objects@
    }

    /// A request that carries nothing yet.
    pub fn empty() -> (c: Self)
        ensures
            c.wf(),
            !c.send_process_id,
            c.process_id == 0,
            c.data_size == 0,
            c.data_offset == 0,
            c.data_words_offset == 0,
            c.objects_offset == 0,
            c.copy_handles@.len() == 0,
            c.move_handles@.len() == 0,
            c.objects@.len() == 0,
            c.out_pointer_sizes@.len() == 0,
    {
        Self {
            send_process_id: false,
            process_id: 0,
            data_size: 0,
            data_offset: 0,
            data_words_offset: 0,
            objects_offset: 0,
            copy_handles: Vec::new(),
            move_handles: Vec::new(),
            objects: Vec::new(),
            out_pointer_sizes: Vec::new(),
        }
    }

    /// Appends a copy handle. Fails with `ResultCopyHandlesFull`, changing
    /// nothing, exactly when the list is full.
    pub fn add_copy_handle(&mut self, handle: Handle) -> (r: Result<(), ResultCode>)
        requires
            old(self).wf(),
        ensures
            final(self).wf(),
            final(self).same_but_copy_handles(old(self)),
            match r {
                Ok(()) => old(self).copy_handles@.len() < MAX_COUNT && final(self).copy_handles@
                    == old(self).copy_handles@.push(handle),
                Err(rc) => old(self).copy_handles@.len() == MAX_COUNT && rc == code_of::<
                    ResultCopyHandlesFull,
                >() && final(self).copy_handles@ == old(self).copy_handles@,
            },
    {
        if self.copy_handles.len() < MAX_COUNT {
            self.copy_handles.push(handle);
            Ok(())
        } else {
            ResultCopyHandlesFull::make_err()
        }
    }

    /// Appends a move handle. Fails with `ResultMoveHandlesFull`, changing
    /// nothing, exactly when the list is full.
    pub fn add_move_handle(&mut self, handle: Handle) -> (r: Result<(), ResultCode>)
        requires
            old(self).wf(),
        ensures
            final(self).wf(),
            final(self).same_but_move_handles(old(self)),
            match r {
                Ok(()) => old(self).move_handles@.len() < MAX_COUNT && final(self).move_handles@
                    == old(self).move_handles@.push(handle),
                Err(rc) => old(self).move_handles@.len() == MAX_COUNT && rc == code_of::<
                    ResultMoveHandlesFull,
                >() && final(self).move_handles@ == old(self).move_handles@,
            },
    {
        if self.move_handles.len() < MAX_COUNT {
            self.move_handles.push(handle);
            Ok(())
        } else {
            ResultMoveHandlesFull::make_err()
        }
    }

    /// Appends a handle to the list that its type names.
    pub fn add_handle<const MOVE: bool>(&mut self, handle: SfHandle<MOVE>) -> (r: Result<
        (),
        ResultCode,
    >)
        requires
            old(self).wf(),
        ensures
            final(self).wf(),
            MOVE ==> final(self).same_but_move_handles(old(self)) && match r {
                Ok(()) => old(self).move_handles@.len() < MAX_COUNT && final(self).move_handles@
                    == old(self).move_handles@.push(handle.handle),
                Err(rc) => old(self).move_handles@.len() == MAX_COUNT && rc == code_of::<
                    ResultMoveHandlesFull,
                >() && final(self).move_handles@ == old(self).move_handles@,
            },
            !MOVE ==> final(self).same_but_copy_handles(old(self)) && match r {
                Ok(()) => old(self).copy_handles@.len() < MAX_COUNT && final(self).copy_handles@
                    == old(self).copy_handles@.push(handle.handle),
                Err(rc) => old(self).copy_handles@.len() == MAX_COUNT && rc == code_of::<
                    ResultCopyHandlesFull,
                >() && final(self).copy_handles@ == old(self).copy_handles@,
            },
    {
        if MOVE {
            self.add_move_handle(handle.handle)
        } else {
            self.add_copy_handle(handle.handle)
        }
    }

    /// Appends a domain object id. Fails with `ResultDomainObjectsFull`,
    /// changing nothing, exactly when the list is full.
    pub fn add_domain_object(&mut self, domain_object_id: DomainObjectId) -> (r: Result<
        (),
        ResultCode,
    >)
        requires
            old(self).wf(),
        ensures
            final(self).wf(),
            final(self).same_but_objects(old(self)),
            match r {
                Ok(()) => old(self).objects@.len() < MAX_COUNT && final(self).objects@ == old(self).objects@.push(domain_object_id),
                Err(rc) => old(self).objects@.len() == MAX_COUNT && rc == code_of::<
                    ResultDomainObjectsFull,
                >() && final(self).objects@ == old(self).objects@,
            },
    {
        if self.objects.len() < MAX_COUNT {
            self.objects.push(domain_object_id);
            Ok(())
        } else {
            ResultDomainObjectsFull::make_err()
        }
    }

    /// Appends the size of a range that takes data sent back by pointer.
    /// Fails with `ResultPointerSizesFull`, changing nothing, exactly when
    /// the list is full.
    pub fn add_out_pointer_size(&mut self, pointer_size: u16) -> (r: Result<(), ResultCode>)
        requires
            old(self).wf(),
        ensures
            final(self).wf(),
            final(self).same_but_out_pointer_sizes(old(self)),
            match r {
                Ok(()) => old(self).out_pointer_sizes@.len() < MAX_COUNT && final(self).out_pointer_sizes@ == old(self).out_pointer_sizes@.push(pointer_size),
                Err(rc) => old(self).out_pointer_sizes@.len() == MAX_COUNT && rc == code_of::<
                    ResultPointerSizesFull,
                >() && final(self).out_pointer_sizes@ == old(self).out_pointer_sizes@,
            },
    {
        if self.out_pointer_sizes.len() < MAX_COUNT {
            self.out_pointer_sizes.push(pointer_size);
            Ok(())
        } else {
            ResultPointerSizesFull::make_err()
        }
    }
}

/// What a response carries.
pub struct CommandOut {
    /// Whether the response carries a process id.
    pub send_process_id: bool,
    /// The process id, where one is carried.
    pub process_id: u64,
    /// Size in bytes of the raw results.
    pub data_size: u32,
    /// Index in the message buffer of the first raw result.
    pub data_offset: usize,
    /// Index in the message buffer of the first data word.
    pub data_words_offset: usize,
    /// Handles that the kernel duplicated for this side, in wire order.
    pub copy_handles: Vec<Handle>,
    /// Handles that passed to this side, in wire order.
    pub move_handles: Vec<Handle>,
    /// Domain objects that came along, in wire order.
    pub objects: Vec<DomainObjectId>,
}

impl CommandOut {
    /// A response of which nothing is known yet.
    pub fn empty() -> (c: Self)
        ensures
            !c.send_process_id,
            c.process_id == 0,
            c.data_size == 0,
            c.data_offset == 0,
            c.data_words_offset == 0,
            c.copy_handles@.len() == 0,
            c.move_handles@.len() == 0,
            c.objects@.len() == 0,
    {
        Self {
            send_process_id: false,
            process_id: 0,
            data_size: 0,
            data_offset: 0,
            data_words_offset: 0,
            copy_handles: Vec::new(),
            move_handles: Vec::new(),
            objects: Vec::new(),
        }
    }
}

/// The eight capabilities of a buffer descriptor, as values.
#[derive(Copy, Clone, PartialEq, Eq, Structural, Debug)]
pub struct BufferCaps {
    pub is_in: bool,
    pub is_out: bool,
    pub map_alias: bool,
    pub pointer: bool,
    pub fixed_size: bool,
    pub auto_select: bool,
    pub allow_non_secure: bool,
    pub allow_non_device: bool,
}

/// What one buffer adds to the lists of a command.
#[derive(Copy, Clone, Debug)]
pub struct BufferPlan {
    /// The entry for the list of mapped input ranges.
    pub send_buffer: Option<BufferDescriptor>,
    /// Address and size of the entry for the list of copied input ranges.
    pub send_static: Option<(usize, usize)>,
    /// The entry for the list of mapped output ranges.
    pub receive_buffer: Option<BufferDescriptor>,
    /// The entry for the list of copied output ranges.
    pub receive_static: Option<ReceiveStaticDescriptor>,
    /// The entry for the list of out-pointer sizes.
    pub out_pointer_size: Option<u16>,
    /// The entry for the list of ranges mapped both ways.
    pub exchange_buffer: Option<BufferDescriptor>,
    /// How much of the receiver's pointer buffer the buffer takes up.
    pub pointer_bytes: usize,
}

/// The memory attributes that the capabilities of a mapped buffer ask for.
pub open spec fn map_alias_flags(caps: BufferCaps) -> BufferFlags {
    if caps.allow_non_secure {
        BufferFlags::NonSecure
    } else if caps.allow_non_device {
        BufferFlags::NonDevice
    } else {
        BufferFlags::Normal
    }
}

/// Whether an auto-select buffer of `size` bytes travels by pointer: the
/// receiver has a pointer buffer, and what is left of it takes the buffer.
pub open spec fn travels_by_pointer(size: usize, pointer_buffer_size: usize, used: usize) -> bool {
    pointer_buffer_size > 0 && used <= pointer_buffer_size && size <= pointer_buffer_size - used
}

/// The entries that a buffer with capabilities `caps` over `size` bytes at
/// `address` adds to a command, where the receiver's pointer buffer has
/// `pointer_buffer_size` bytes of which `used` are taken.
///
/// An auto-select buffer adds, for each of its directions, one entry to the
/// mapped list and one to the copied list; the one that is not used is empty.
/// A pointer buffer adds a copied entry for each direction, and an
/// out-pointer size unless its size is fixed. A mapped buffer adds one entry
/// to the list of its direction. Capabilities that name none of the three
/// modes, or a mapped buffer with no direction, are refused.
pub open spec fn buffer_plan(
    caps: BufferCaps,
    address: usize,
    size: usize,
    pointer_buffer_size: usize,
    used: usize,
) -> Result<BufferPlan, ResultCode> {
    let none = BufferPlan {
        send_buffer: None,
        send_static: None,
        receive_buffer: None,
        receive_static: None,
        out_pointer_size: None,
        exchange_buffer: None,
        pointer_bytes: 0,
    };
    let whole = BufferDescriptor { address, size, flags: BufferFlags::Normal };
    let empty = BufferDescriptor { address: 0, size: 0, flags: BufferFlags::Normal };
    if caps.auto_select {
        let by_pointer = travels_by_pointer(size, pointer_buffer_size, used);
        Ok(
            BufferPlan {
                send_buffer: if !caps.is_in {
                    None
                } else if by_pointer {
                    Some(empty)
                } else {
                    Some(whole)
                },
                send_static: if !caps.is_in {
                    None
                } else if by_pointer {
                    Some((address, size))
                } else {
                    Some((0usize, 0usize))
                },
                receive_buffer: if !caps.is_out {
                    None
                } else if by_pointer {
                    Some(empty)
                } else {
                    Some(whole)
                },
                receive_static: if !caps.is_out {
                    None
                } else if by_pointer {
                    Some(ReceiveStaticDescriptor { address, size })
                } else {
                    Some(ReceiveStaticDescriptor { address: 0, size: 0 })
                },
                out_pointer_size: if !caps.is_out {
                    None
                } else if by_pointer {
                    Some((size % 0x1_0000) as u16)
                } else {
                    Some(0u16)
                },
                exchange_buffer: None,
                pointer_bytes: if by_pointer {
                    size
                } else {
                    0
                },
            },
        )
    } else if caps.pointer {
        Ok(
            BufferPlan {
                send_static: if caps.is_in {
                    Some((address, size))
                } else {
                    None
                },
                receive_static: if caps.is_out {
                    Some(ReceiveStaticDescriptor { address, size })
                } else {
                    None
                },
                out_pointer_size: if caps.is_out && !caps.fixed_size {
                    Some((size % 0x1_0000) as u16)
                } else {
                    None
                },
                ..none
            },
        )
    } else if caps.map_alias {
        let desc = BufferDescriptor { address, size, flags: map_alias_flags(caps) };
        if caps.is_in && caps.is_out {
            Ok(BufferPlan { exchange_buffer: Some(desc), ..none })
        } else if caps.is_in {
            Ok(BufferPlan { send_buffer: Some(desc), ..none })
        } else if caps.is_out {
            Ok(BufferPlan { receive_buffer: Some(desc), ..none })
        } else {
            Err(code_of::<ResultInvalidBufferAttributes>())
        }
    } else {
        Err(code_of::<ResultInvalidBufferAttributes>())
    }
}

/// Computes the entries that a buffer adds to a command.
#[verifier::rlimit(50)]
pub fn plan_buffer(
    caps: BufferCaps,
    address: usize,
    size: usize,
    pointer_buffer_size: usize,
    used: usize,
) -> (r: Result<BufferPlan, ResultCode>)
    ensures
        r == buffer_plan(caps, address, size, pointer_buffer_size, used),
{
    let mut plan = BufferPlan {
        send_buffer: None,
        send_static: None,
        receive_buffer: None,
        receive_static: None,
        out_pointer_size: None,
        exchange_buffer: None,
        pointer_bytes: 0,
    };
    if caps.auto_select {
        let by_pointer = pointer_buffer_size > 0 && used <= pointer_buffer_size && size
            <= pointer_buffer_size - used;
        if caps.is_in {
            if by_pointer {
                plan.send_buffer = Some(BufferDescriptor::new(0, 0, BufferFlags::Normal));
                plan.send_static = Some((address, size));
            } else {
                plan.send_buffer = Some(BufferDescriptor::new(address, size, BufferFlags::Normal));
                plan.send_static = Some((0, 0));
            }
        }
        if caps.is_out {
            if by_pointer {
                plan.receive_buffer = Some(BufferDescriptor::new(0, 0, BufferFlags::Normal));
                plan.receive_static = Some(ReceiveStaticDescriptor::new(address, size));
                plan.out_pointer_size = Some((size % 0x1_0000) as u16);
            } else {
                plan.receive_buffer = Some(
                    BufferDescriptor::new(address, size, BufferFlags::Normal),
                );
                plan.receive_static = Some(ReceiveStaticDescriptor::new(0, 0));
                plan.out_pointer_size = Some(0);
            }
        }
        if by_pointer {
            plan.pointer_bytes = size;
        }
        Ok(plan)
    } else if caps.pointer {
        if caps.is_in {
            plan.send_static = Some((address, size));
        }
        if caps.is_out {
            plan.receive_static = Some(ReceiveStaticDescriptor::new(address, size));
            if !caps.fixed_size {
                plan.out_pointer_size = Some((size % 0x1_0000) as u16);
            }
        }
        Ok(plan)
    } else if caps.map_alias {
        let flags = if caps.allow_non_secure {
            BufferFlags::NonSecure
        } else if caps.allow_non_device {
            BufferFlags::NonDevice
        } else {
            BufferFlags::Normal
        };
        let desc = BufferDescriptor::new(address, size, flags);
        if caps.is_in && caps.is_out {
            plan.exchange_buffer = Some(desc);
            Ok(plan)
        } else if caps.is_in {
            plan.send_buffer = Some(desc);
            Ok(plan)
        } else if caps.is_out {
            plan.receive_buffer = Some(desc);
            Ok(plan)
        } else {
            ResultInvalidBufferAttributes::make_err()
        }
    } else {
        ResultInvalidBufferAttributes::make_err()
    }
}

/// A buffer adds to the input lists only if it is an input, and to the output
/// lists only if it is an output; an auto-select buffer adds to the mapped
/// and to the copied list of each of its directions alike, so that the two
/// lists keep step.
pub proof fn lemma_plan_follows_direction(
    caps: BufferCaps,
    address: usize,
    size: usize,
    pointer_buffer_size: usize,
    used: usize,
)
    requires
        buffer_plan(caps, address, size, pointer_buffer_size, used).is_ok(),
    ensures
        ({
            let plan = buffer_plan(caps, address, size, pointer_buffer_size, used).unwrap();
            &&& !caps.is_in ==> plan.send_buffer.is_none() && plan.send_static.is_none()
                && plan.exchange_buffer.is_none()
            &&& !caps.is_out ==> plan.receive_buffer.is_none() && plan.receive_static.is_none()
                && plan.out_pointer_size.is_none() && plan.exchange_buffer.is_none()
            &&& caps.auto_select ==> plan.send_buffer.is_some() == plan.send_static.is_some()
                && plan.receive_buffer.is_some() == plan.receive_static.is_some()
            &&& plan.pointer_bytes <= size
            &&& plan.pointer_bytes > 0 ==> used + plan.pointer_bytes <= pointer_buffer_size
        }),
{
}

/// A list with the entry of `item` appended, where there is one.
pub open spec fn with_entry<A>(list: Seq<A>, item: Option<A>) -> Seq<A> {
    match item {
        Some(a) => list.push(a),
        None => list,
    }
}

/// The per-call aggregate that argument marshaling writes to: the target
/// object, the buffers by kind in call order, the handles and the process id
/// slot of the request, and what was read of the response.
pub struct CommandContext {
    /// The object that the command addresses.
    pub object_info: ObjectInfo,
    /// What the request carries.
    pub in_params: CommandIn,
    /// What the response carried.
    pub out_params: CommandOut,
    /// Input ranges that the kernel copies, in call order.
    pub send_statics: Vec<SendStaticDescriptor>,
    /// Output ranges that the kernel copies into, in call order.
    pub receive_statics: Vec<ReceiveStaticDescriptor>,
    /// Input ranges that the kernel maps, in call order.
    pub send_buffers: Vec<BufferDescriptor>,
    /// Output ranges that the kernel maps, in call order.
    pub receive_buffers: Vec<BufferDescriptor>,
    /// Ranges that the kernel maps both ways, in call order.
    pub exchange_buffers: Vec<BufferDescriptor>,
    /// Size of the receiver's pointer buffer; zero where it has none or the
    /// size is not known.
    pub pointer_buffer_size: usize,
    /// How much of the receiver's pointer buffer the inputs take up so far.
    pub in_pointer_buffer_offset: usize,
    /// How much of this side's pointer buffer the outputs take up so far.
    pub out_pointer_buffer_offset: usize,
}

impl CommandContext {
    /// No list holds more than `MAX_COUNT` entries, and no more of the
    /// pointer buffer is taken than there is.
    pub open spec fn wf(&self) -> bool {
        &&& self.in_params.wf()
        &&& self.send_statics@.len() <= MAX_COUNT
        &&& self.receive_statics@.len() <= MAX_COUNT
        &&& self.send_buffers@.len() <= MAX_COUNT
        &&& self.receive_buffers@.len() <= MAX_COUNT
        &&& self.exchange_buffers@.len() <= MAX_COUNT
        &&& self.in_pointer_buffer_offset <= self.pointer_buffer_size
    }

    /// Whether the context holds no buffer, no handle and no object yet and
    /// addresses `object_info`.
    pub open spec fn is_fresh(&self, object_info: ObjectInfo, pointer_buffer_size: usize) -> bool {
        &&& self.object_info == object_info
        &&& self.pointer_buffer_size == pointer_buffer_size
        &&& self.in_pointer_buffer_offset == 0
        &&& self.out_pointer_buffer_offset == 0
        &&& self.send_statics@.len() == 0
        &&& self.receive_statics@.len() == 0
        &&& self.send_buffers@.len() == 0
        &&& self.receive_buffers@.len() == 0
        &&& self.exchange_buffers@.len() == 0
        &&& !self.in_params.send_process_id
        &&& self.in_params.process_id == 0
        &&& self.in_params.data_size == 0
        &&& self.in_params.data_offset == 0
        &&& self.in_params.data_words_offset == 0
        &&& self.in_params.objects_offset == 0
        &&& self.in_params.copy_handles@.len() == 0
        &&& self.in_params.move_handles@.len() == 0
        &&& self.in_params.objects@.len() == 0
        &&& self.in_params.out_pointer_sizes@.len() == 0
        &&& !self.out_params.send_process_id
        &&& self.out_params.process_id == 0
        &&& self.out_params.data_size == 0
        &&& self.out_params.data_offset == 0
        &&& self.out_params.data_words_offset == 0
        &&& self.out_params.copy_handles@.len() == 0
        &&& self.out_params.move_handles@.len() == 0
        &&& self.out_params.objects@.len() == 0
    }

    fn empty(object_info: ObjectInfo, pointer_buffer_size: usize) -> (ctx: Self)
        ensures
            ctx.wf(),
            ctx.is_fresh(object_info, pointer_buffer_size),
    {
        Self {
            object_info,
            in_params: CommandIn::empty(),
            out_params: CommandOut::empty(),
            send_statics: Vec::new(),
            receive_statics: Vec::new(),
            send_buffers: Vec::new(),
            receive_buffers: Vec::new(),
            exchange_buffers: Vec::new(),
            pointer_buffer_size,
            in_pointer_buffer_offset: 0,
            out_pointer_buffer_offset: 0,
        }
    }

    /// The context of an outgoing call to `object_info`. The size of the
    /// receiver's pointer buffer is not known yet.
    pub fn new_client(object_info: ObjectInfo) -> (ctx: Self)
        ensures
            ctx.wf(),
            ctx.is_fresh(object_info, 0),
    {
        Self::empty(object_info, 0)
    }

    /// The context of a call that came in for `object_info`, on a side whose
    /// pointer buffer has `pointer_buffer_size` bytes.
    pub fn new_server(object_info: ObjectInfo, pointer_buffer_size: usize) -> (ctx: Self)
        ensures
            ctx.wf(),
            ctx.is_fresh(object_info, pointer_buffer_size),
    {
        Self::empty(object_info, pointer_buffer_size)
    }

    /// The first list, in the order in which a buffer's entries are added,
    /// that has no room for an entry of `plan`, by its error.
    pub open spec fn room_error(&self, plan: BufferPlan) -> Option<ResultCode> {
        if plan.send_buffer.is_some() && self.send_buffers@.len() >= MAX_COUNT {
            Some(code_of::<ResultSendBuffersFull>())
        } else if plan.send_static.is_some() && self.send_statics@.len() >= MAX_COUNT {
            Some(code_of::<ResultSendStaticsFull>())
        } else if plan.receive_buffer.is_some() && self.receive_buffers@.len() >= MAX_COUNT {
            Some(code_of::<ResultReceiveBuffersFull>())
        } else if plan.receive_static.is_some() && self.receive_statics@.len() >= MAX_COUNT {
            Some(code_of::<ResultReceiveStaticsFull>())
        } else if plan.out_pointer_size.is_some() && self.in_params.out_pointer_sizes@.len()
            >= MAX_COUNT {
            Some(code_of::<ResultPointerSizesFull>())
        } else if plan.exchange_buffer.is_some() && self.exchange_buffers@.len() >= MAX_COUNT {
            Some(code_of::<ResultExchangeBuffersFull>())
        } else {
            None
        }
    }

    /// Whether `self` is `before` with the entries of `plan` appended, each
    /// at the end of its list, and nothing else changed. A copied input range
    /// gets the next free index.
    pub open spec fn is_after(&self, before: &Self, plan: BufferPlan) -> bool {
        &&& self.object_info == before.object_info
        &&& self.pointer_buffer_size == before.pointer_buffer_size
        &&& self.in_pointer_buffer_offset == before.in_pointer_buffer_offset + plan.pointer_bytes
        &&& self.out_pointer_buffer_offset == before.out_pointer_buffer_offset
        &&& self.in_params.same_but_out_pointer_sizes(&before.in_params)
        &&& self.in_params.out_pointer_sizes@ == with_entry(
            before.in_params.out_pointer_sizes@,
            plan.out_pointer_size,
        )
        &&& self.out_params == before.out_params
        &&& self.send_buffers@ == with_entry(before.send_buffers@, plan.send_buffer)
        &&& self.send_statics@ == with_entry(
            before.send_statics@,
            match plan.send_static {
                Some((address, size)) => Some(
                    SendStaticDescriptor {
                        address,
                        size,
                        index: before.send_statics@.len() as u32,
                    },
                ),
                None => None,
            },
        )
        &&& self.receive_buffers@ == with_entry(before.receive_buffers@, plan.receive_buffer)
        &&& self.receive_statics@ == with_entry(before.receive_statics@, plan.receive_static)
        &&& self.exchange_buffers@ == with_entry(before.exchange_buffers@, plan.exchange_buffer)
    }

    /// Whether nothing that a buffer can change differs from `before`.
    pub open spec fn is_unchanged(&self, before: &Self) -> bool {
        self.is_after(
            before,
            BufferPlan {
                send_buffer: None,
                send_static: None,
                receive_buffer: None,
                receive_static: None,
                out_pointer_size: None,
                exchange_buffer: None,
                pointer_bytes: 0,
            },
        )
    }

    /// Appends the entries of `plan`, all of them or, where one of the lists
    /// has no room, none.
    #[verifier::rlimit(50)]
    pub fn apply_plan(&mut self, plan: BufferPlan) -> (r: Result<(), ResultCode>)
        requires
            old(self).wf(),
            old(self).in_pointer_buffer_offset + plan.pointer_bytes <= old(self).pointer_buffer_size,
        ensures
            final(self).wf(),
            match r {
                Ok(()) => old(self).room_error(plan).is_none() && final(self).is_after(
                    old(self),
                    plan,
                ),
                Err(rc) => old(self).room_error(plan) == Some(rc) && final(self).is_unchanged(
                    old(self),
                ),
            },
    {
        if plan.send_buffer.is_some() && self.send_buffers.len() >= MAX_COUNT {
            return ResultSendBuffersFull::make_err();
        }
        if plan.send_static.is_some() && self.send_statics.len() >= MAX_COUNT {
            return ResultSendStaticsFull::make_err();
        }
        if plan.receive_buffer.is_some() && self.receive_buffers.len() >= MAX_COUNT {
            return ResultReceiveBuffersFull::make_err();
        }
        if plan.receive_static.is_some() && self.receive_statics.len() >= MAX_COUNT {
            return ResultReceiveStaticsFull::make_err();
        }
        if plan.out_pointer_size.is_some() && self.in_params.out_pointer_sizes.len() >= MAX_COUNT {
            return ResultPointerSizesFull::make_err();
        }
        if plan.exchange_buffer.is_some() && self.exchange_buffers.len() >= MAX_COUNT {
            return ResultExchangeBuffersFull::make_err();
        }
        if let Some(desc) = plan.send_buffer {
            self.send_buffers.push(desc);
        }
        if let Some((address, size)) = plan.send_static {
            let index = self.send_statics.len() as u32;
            self.send_statics.push(SendStaticDescriptor::new(address, size, index));
        }
        if let Some(desc) = plan.receive_buffer {
            self.receive_buffers.push(desc);
        }
        if let Some(desc) = plan.receive_static {
            self.receive_statics.push(desc);
        }
        if let Some(pointer_size) = plan.out_pointer_size {
            self.in_params.out_pointer_sizes.push(pointer_size);
        }
        if let Some(desc) = plan.exchange_buffer {
            self.exchange_buffers.push(desc);
        }
        self.in_pointer_buffer_offset = self.in_pointer_buffer_offset + plan.pointer_bytes;
        Ok(())
    }

    /// Adds `buffer` to the command: its entries go to the ends of the lists
    /// that `buffer_plan` names for its capabilities. Fails, changing
    /// nothing, where the capabilities are refused or a list has no room.
    #[verifier::rlimit(50)]
    pub fn add_buffer<
        const IN: bool,
        const OUT: bool,
        const MAP_ALIAS: bool,
        const POINTER: bool,
        const FIXED_SIZE: bool,
        const AUTO_SELECT: bool,
        const ALLOW_NON_SECURE: bool,
        const ALLOW_NON_DEVICE: bool,
        T,
    >(
        &mut self,
        buffer: &Buffer<
            IN,
            OUT,
            MAP_ALIAS,
            POINTER,
            FIXED_SIZE,
            AUTO_SELECT,
            ALLOW_NON_SECURE,
            ALLOW_NON_DEVICE,
            T,
        >,
    ) -> (r: Result<(), ResultCode>)
        requires
            old(self).wf(),
            buffer.count() * vstd::layout::size_of::<T>() <= usize::MAX,
        ensures
            final(self).wf(),
            ({
                let planned = buffer_plan(
                    Buffer::<
                        IN,
                        OUT,
                        MAP_ALIAS,
                        POINTER,
                        FIXED_SIZE,
                        AUTO_SELECT,
                        ALLOW_NON_SECURE,
                        ALLOW_NON_DEVICE,
                        T,
                    >::caps(),
                    buffer.address(),
                    (buffer.count() * vstd::layout::size_of::<T>()) as usize,
                    old(self).pointer_buffer_size,
                    old(self).in_pointer_buffer_offset,
                );
                match r {
                    Ok(()) => planned.is_ok() && old(self).room_error(planned.unwrap()).is_none()
                        && final(self).is_after(old(self), planned.unwrap()),
                    Err(rc) => final(self).is_unchanged(old(self)) && match planned {
                        Ok(plan) => old(self).room_error(plan) == Some(rc),
                        Err(refused) => rc == refused,
                    },
                }
            }),
    {
        let caps = buffer.capabilities();
        let planned = plan_buffer(
            caps,
            buffer.get_address(),
            buffer.get_size(),
            self.pointer_buffer_size,
            self.in_pointer_buffer_offset,
        );
        match planned {
            Ok(plan) => self.apply_plan(plan),
            Err(rc) => Err(rc),
        }
    }
}

/// What the reply to the request to become a domain says: the id that the
/// object has in the new domain, or the error that the reply carries or
/// that its form amounts to. A reply whose raw results are shorter than an
/// id is `ResultInvalidHeaderSize`. A reply that names the id zero, which
/// names no object, is `ResultInvalidDomainObject`.
pub open spec fn convert_reply(msg: Seq<u8>) -> Result<DomainObjectId, ResultCode> {
    match control_response(msg) {
        Err(rc) => Err(rc),
        Ok(at) => {
            let head = received_head(msg).unwrap();
            if at + 4 > head.data_words_offset + 4 * head.data_words {
                Err(code_of::<ResultInvalidHeaderSize>())
            } else if word_at(msg, at as int) == INVALID_DOMAIN_OBJECT_ID {
                Err(code_of::<ResultInvalidDomainObject>())
            } else {
                Ok(word_at(msg, at as int))
            }
        },
    }
}

impl ObjectInfo {
    /// Writes into `msg` the control request that turns the object into a
    /// domain. Fails with `ResultInvalidProtocol`, leaving `msg` as it is,
    /// exactly when the object speaks the secondary protocol, which has no
    /// domains.
    #[verifier::rlimit(50)]
    pub fn convert_current_object_to_domain_request(&self, msg: &mut Vec<u8>) -> (r: Result<
        (),
        ResultCode,
    >)
        ensures
            match r {
                Ok(()) => self.protocol == CommandProtocol::Cmif && final(msg)@
                    == crate::ipc::cmif::client::bare_control_message(
                    ControlRequestId::ConvertCurrentObjectToDomain,
                ),
                Err(rc) => self.protocol == CommandProtocol::Tipc && rc == code_of::<
                    ResultInvalidProtocol,
                >() && final(msg)@ == old(msg)@,
            },
    {
        if self.uses_tipc_protocol() {
            return ResultInvalidProtocol::make_err();
        }
        let mut ctx = CommandContext::new_client(*self);
        let ghost fresh = ctx;
        write_control_command_on_msg_buffer(
            &mut ctx,
            msg,
            ControlRequestId::ConvertCurrentObjectToDomain,
        );
        proof {
            crate::ipc::cmif::client::lemma_control_message_of_fresh(
                *self,
                ControlRequestId::ConvertCurrentObjectToDomain,
            );
            assert(fresh.is_fresh(*self, 0));
        }
        Ok(())
    }

    /// Reads from `msg`, the reply to the request to become a domain, the id
    /// that the object has in the new domain.
    #[verifier::rlimit(50)]
    pub fn convert_current_object_to_domain_reply(&self, msg: &Vec<u8>) -> (r: Result<
        DomainObjectId,
        ResultCode,
    >)
        ensures
            r == convert_reply(msg@),
    {
        let mut ctx = CommandContext::new_client(*self);
        match read_control_command_response_from_msg_buffer(&mut ctx, msg) {
            Err(rc) => Err(rc),
            Ok(()) => {
                if ctx.out_params.data_size < 4 {
                    return ResultInvalidHeaderSize::make_err();
                }
                let mut walker = DataWalker::new(ctx.out_params.data_offset);
                assert(value_start::<u32>(0) == 0);
                let id: u32 = walker.advance_get(msg);
                if id == INVALID_DOMAIN_OBJECT_ID {
                    return ResultInvalidDomainObject::make_err();
                }
                Ok(id)
            },
        }
    }
}

} // verus!
