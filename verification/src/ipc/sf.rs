//! What travels in a command besides raw data: buffer descriptors, handles,
//! process ids; and the session that owns a remote object.

use crate::ipc::raw::{
    all_from_bytes, all_to_bytes, bytes_of_all, put, values_of, zeros, RawValue,
};
use crate::ipc::rc::{ResultInvalidBufferPointer, ResultInvalidDuration, ResultInvalidProtocol};
use crate::ipc::server::ServerContext;
use crate::ipc::{
    client, cmif, convert_reply, lemma_set_frame, lemma_value_start, server, tipc, value_end,
    value_start,
    BufferCaps, CommandContext, CommandProtocol, DataWalker, DomainObjectId, ObjectInfo,
    ObjectState, INVALID_DOMAIN_OBJECT_ID,
};
use crate::result::{code_of, ResultBase, ResultCode};
use crate::svc::Handle as SvcHandle;
use core::time::Duration;
use vstd::prelude::*;
use vstd::slice::slice_to_vec;
use zeroize::Zeroize;

pub mod dispdrv;
pub mod hid;
pub mod mii;
pub mod ncm;
pub mod nfc;
pub mod nfp;
pub mod nv;
pub mod sm;
pub mod vi;

verus! {

/// A view over a range of the caller's memory: the address of its first
/// element and the elements themselves. The eight flags say which way the
/// data flows and how the kernel transfers it; they are part of the type.
pub struct Buffer<
    const IN: bool,
    const OUT: bool,
    const MAP_ALIAS: bool,
    const POINTER: bool,
    const FIXED_SIZE: bool,
    const AUTO_SELECT: bool,
    const ALLOW_NON_SECURE: bool,
    const ALLOW_NON_DEVICE: bool,
    T,
> {
    addr: usize,
    mem: Vec<T>,
}

impl<
    const IN: bool,
    const OUT: bool,
    const MAP_ALIAS: bool,
    const POINTER: bool,
    const FIXED_SIZE: bool,
    const AUTO_SELECT: bool,
    const ALLOW_NON_SECURE: bool,
    const ALLOW_NON_DEVICE: bool,
    T,
> View for Buffer<IN, OUT, MAP_ALIAS, POINTER, FIXED_SIZE, AUTO_SELECT, ALLOW_NON_SECURE, ALLOW_NON_DEVICE, T> {
    type V = Seq<T>;

    /// The elements in the viewed range.
    closed spec fn view(&self) -> Seq<T> {
        self.mem@
    }
}

impl<
    const IN: bool,
    const OUT: bool,
    const MAP_ALIAS: bool,
    const POINTER: bool,
    const FIXED_SIZE: bool,
    const AUTO_SELECT: bool,
    const ALLOW_NON_SECURE: bool,
    const ALLOW_NON_DEVICE: bool,
    T,
> Buffer<IN, OUT, MAP_ALIAS, POINTER, FIXED_SIZE, AUTO_SELECT, ALLOW_NON_SECURE, ALLOW_NON_DEVICE, T> {
    /// The address of the first element; zero is the null address.
    pub closed spec fn address(&self) -> usize {
        self.addr
    }

    /// The number of elements in the range.
    pub open spec fn count(&self) -> nat {
        self@.len()
    }

    /// Whether the address can be turned into a view of the elements: it is
    /// neither null nor misaligned for `T`.
    pub open spec fn is_live(&self) -> bool {
        self.address() != 0 && self.address() as nat % vstd::layout::align_of::<T>() == 0
    }

    /// The capabilities that the type's flags stand for.
    pub open spec fn caps() -> BufferCaps {
        BufferCaps {
            is_in: IN,
            is_out: OUT,
            map_alias: MAP_ALIAS,
            pointer: POINTER,
            fixed_size: FIXED_SIZE,
            auto_select: AUTO_SELECT,
            allow_non_secure: ALLOW_NON_SECURE,
            allow_non_device: ALLOW_NON_DEVICE,
        }
    }

    /// The capabilities that the type's flags stand for.
    pub fn capabilities(&self) -> (caps: BufferCaps)
        ensures
            caps == Self::caps(),
    {
        BufferCaps {
            is_in: IN,
            is_out: OUT,
            map_alias: MAP_ALIAS,
            pointer: POINTER,
            fixed_size: FIXED_SIZE,
            auto_select: AUTO_SELECT,
            allow_non_secure: ALLOW_NON_SECURE,
            allow_non_device: ALLOW_NON_DEVICE,
        }
    }

    /// A descriptor of the `size` bytes at `addr`, which hold `mem`.
    pub fn new(addr: usize, size: usize, mem: Vec<T>) -> (b: Self)
        requires
            vstd::layout::size_of::<T>() > 0,
            size as nat % vstd::layout::size_of::<T>() == 0,
            mem@.len() == size as nat / vstd::layout::size_of::<T>(),
        ensures
            b.address() == addr,
            b@ == mem@,
            b.count() * vstd::layout::size_of::<T>() == size,
    {
        proof {
            vstd::arithmetic::div_mod::lemma_fundamental_div_mod(
                size as int,
                vstd::layout::size_of::<T>() as int,
            );
            assert(mem@.len() * vstd::layout::size_of::<T>() == vstd::layout::size_of::<T>() * (
            size as nat / vstd::layout::size_of::<T>())) by (nonlinear_arith)
                requires
                    mem@.len() == size as nat / vstd::layout::size_of::<T>(),
            ;
        }
        Self { addr, mem }
    }

    /// A descriptor of the elements `mem`, which stand at `addr`.
    pub fn from_ptr(addr: usize, mem: Vec<T>) -> (b: Self)
        ensures
            b.address() == addr,
            b@ == mem@,
    {
        Self { addr, mem }
    }

    /// A descriptor of the elements `mem`, which stand at `addr` and may be
    /// written.
    pub fn from_mut_ptr(addr: usize, mem: Vec<T>) -> (b: Self)
        ensures
            b.address() == addr,
            b@ == mem@,
    {
        Self { addr, mem }
    }

    pub fn get_address(&self) -> (addr: usize)
        ensures
            addr == self.address(),
    {
        self.addr
    }

    /// The size of the range in bytes: the count times the element size.
    pub fn get_size(&self) -> (size: usize)
        requires
            self.count() * vstd::layout::size_of::<T>() <= usize::MAX,
        ensures
            size == self.count() * vstd::layout::size_of::<T>(),
    {
        self.mem.len() * core::mem::size_of::<T>()
    }

    pub fn get_count(&self) -> (count: usize)
        ensures
            count == self.count(),
    {
        self.mem.len()
    }

    /// The first element, to be changed in place. The address must allow a
    /// view: it is neither null nor misaligned.
    pub fn get_mut_var(&mut self) -> (var: &mut T)
        requires
            old(self).is_live(),
            old(self).count() >= 1,
        ensures
            *var == old(self)@[0],
            final(self)@ == old(self)@.update(0, *final(var)),
            final(self).address() == old(self).address(),
    {
        &mut self.mem[0]
    }

    /// Stores `t` as the first element. The address must allow a view: it is
    /// neither null nor misaligned.
    pub fn set_var(&mut self, t: T)
        requires
            old(self).is_live(),
            old(self).count() >= 1,
        ensures
            final(self)@ == old(self)@.update(0, t),
            final(self).address() == old(self).address(),
    {
        self.mem.set(0, t);
    }
}

impl<
    const IN: bool,
    const OUT: bool,
    const MAP_ALIAS: bool,
    const POINTER: bool,
    const FIXED_SIZE: bool,
    const AUTO_SELECT: bool,
    const ALLOW_NON_SECURE: bool,
    const ALLOW_NON_DEVICE: bool,
    T: Copy,
> Buffer<IN, OUT, MAP_ALIAS, POINTER, FIXED_SIZE, AUTO_SELECT, ALLOW_NON_SECURE, ALLOW_NON_DEVICE, T> {
    /// A copy of the elements, read one by one with no regard to alignment.
    pub fn get_maybe_unaligned(&self) -> (out: Vec<T>)
        requires
            self.address() != 0,
        ensures
            out@ == self@,
    {
        slice_to_vec(self.mem.as_slice())
    }

    /// Writes the first element back to the variable that the descriptor
    /// was made from.
    pub fn write_back_var(&self, var: &mut T)
        requires
            self.count() >= 1,
        ensures
            *final(var) == self@[0],
    {
        *var = self.mem[0];
    }

    /// Writes the elements back to the array that the descriptor was made
    /// from.
    pub fn write_back_array(&self, arr: &mut [T])
        requires
            old(arr)@.len() == self.count(),
        ensures
            final(arr)@ == self@,
    {
        let n = self.mem.len();
        let mut i: usize = 0;
        while i < n
            invariant
                i <= n,
                n == self.mem@.len(),
                arr@.len() == n,
                forall|j: int| 0 <= j < i ==> arr@[j] == self.mem@[j],
            decreases n - i,
        {
            arr[i] = self.mem[i];
            i = i + 1;
        }
        assert(arr@ =~= self.mem@);
    }

    /// A descriptor of the one element `var`, which stands at `addr` and may
    /// be written.
    pub fn from_mut_var(addr: usize, var: &mut T) -> (b: Self)
        ensures
            b.address() == addr,
            b@ == seq![*old(var)],
            *final(var) == *old(var),
    {
        let mut mem: Vec<T> = Vec::new();
        mem.push(*var);
        assert(mem@ =~= seq![*var]);
        Self { addr, mem }
    }

    /// A descriptor of the elements of `arr`, which stand at `addr` and may
    /// be written.
    pub fn from_mut_array(addr: usize, arr: &mut [T]) -> (b: Self)
        ensures
            b.address() == addr,
            b@ == old(arr)@,
            final(arr)@ == old(arr)@,
    {
        Self { addr, mem: slice_to_vec(arr) }
    }
}

impl<
    const IN: bool,
    const OUT: bool,
    const MAP_ALIAS: bool,
    const POINTER: bool,
    const FIXED_SIZE: bool,
    const AUTO_SELECT: bool,
    const ALLOW_NON_SECURE: bool,
    const ALLOW_NON_DEVICE: bool,
    T: RawValue,
> Buffer<IN, OUT, MAP_ALIAS, POINTER, FIXED_SIZE, AUTO_SELECT, ALLOW_NON_SECURE, ALLOW_NON_DEVICE, T> {
    /// A descriptor of the same range as `other`, under this type's flags
    /// and element type: the address is kept, and the bytes of the elements
    /// of `other` are read as elements of `T`, so that the range is as many
    /// bytes long as before. The byte size of `other` must be a multiple of
    /// the size of `T`.
    pub fn from_other<
        const IN2: bool,
        const OUT2: bool,
        const MAP_ALIAS2: bool,
        const POINTER2: bool,
        const FIXED_SIZE2: bool,
        const AUTO_SELECT2: bool,
        const ALLOW_NON_SECURE2: bool,
        const ALLOW_NON_DEVICE2: bool,
        U: RawValue,
    >(
        other: &Buffer<
            IN2,
            OUT2,
            MAP_ALIAS2,
            POINTER2,
            FIXED_SIZE2,
            AUTO_SELECT2,
            ALLOW_NON_SECURE2,
            ALLOW_NON_DEVICE2,
            U,
        >,
    ) -> (b: Self)
        requires
            (other.count() * U::spec_size()) % T::spec_size() == 0,
        ensures
            b.address() == other.address(),
            b@ == values_of::<T>(bytes_of_all(other@)),
            b.count() == (other.count() * U::spec_size()) / T::spec_size(),
            b.count() * T::spec_size() == other.count() * U::spec_size(),
            T::spec_size() == vstd::layout::size_of::<T>() && U::spec_size()
                == vstd::layout::size_of::<U>() ==> b.count() * vstd::layout::size_of::<T>()
                == other.count() * vstd::layout::size_of::<U>(),
    {
        let bytes = all_to_bytes(&other.mem);
        let mem = all_from_bytes::<T>(&bytes);
        proof {
            T::lemma_layout();
            vstd::arithmetic::div_mod::lemma_fundamental_div_mod(
                bytes@.len() as int,
                T::spec_size() as int,
            );
            let count = mem@.len() as int;
            let size = T::spec_size() as int;
            let quotient = bytes@.len() as int / size;
            assert(count == quotient);
            assert(count * size == size * quotient) by (nonlinear_arith)
                requires
                    count == quotient,
            ;
        }
        Self { addr: other.addr, mem }
    }
}

impl<
    const IN: bool,
    const OUT: bool,
    const MAP_ALIAS: bool,
    const POINTER: bool,
    const FIXED_SIZE: bool,
    const AUTO_SELECT: bool,
    const ALLOW_NON_SECURE: bool,
    const ALLOW_NON_DEVICE: bool,
> Buffer<IN, OUT, MAP_ALIAS, POINTER, FIXED_SIZE, AUTO_SELECT, ALLOW_NON_SECURE, ALLOW_NON_DEVICE, u8> {
    /// Writes the bytes back to the value that the descriptor was made from:
    /// the value becomes what the bytes stand for.
    pub fn write_back_other_var<U: RawValue>(&self, var: &mut U)
        requires
            self.count() == U::spec_size(),
        ensures
            *final(var) == U::spec_value(self@),
    {
        proof {
            assert(self.mem@.subrange(0, U::spec_size() as int) =~= self.mem@);
        }
        *var = U::read_at(&self.mem, 0);
    }

    /// A byte descriptor of the value `var`, which stands at `addr` and may
    /// be written.
    pub fn from_other_mut_var<U: RawValue>(addr: usize, var: &mut U) -> (b: Self)
        ensures
            b.address() == addr,
            b@ == old(var).spec_bytes(),
            *final(var) == *old(var),
    {
        Self { addr, mem: (*var).to_bytes() }
    }
}

impl<
    const OUT: bool,
    const MAP_ALIAS: bool,
    const POINTER: bool,
    const FIXED_SIZE: bool,
    const AUTO_SELECT: bool,
    const ALLOW_NON_SECURE: bool,
    const ALLOW_NON_DEVICE: bool,
    T,
> Buffer<true, OUT, MAP_ALIAS, POINTER, FIXED_SIZE, AUTO_SELECT, ALLOW_NON_SECURE, ALLOW_NON_DEVICE, T> {
    /// The first element, or the error that the address is null or
    /// misaligned.
    pub open spec fn spec_get_var(&self) -> Result<T, ResultCode> {
        if self.is_live() {
            Ok(self@[0])
        } else {
            Err(code_of::<ResultInvalidBufferPointer>())
        }
    }

    /// The first element. Fails with `ResultInvalidBufferPointer` exactly
    /// when the address is null or misaligned, whatever the range holds; a
    /// range at an address that allows a view must hold an element.
    pub fn get_var(&self) -> (r: Result<&T, ResultCode>)
        requires
            self.is_live() ==> self.count() >= 1,
        ensures
            match r {
                Ok(var) => self.spec_get_var() == Ok::<T, ResultCode>(*var),
                Err(rc) => self.spec_get_var() == Err::<T, ResultCode>(rc),
            },
    {
        vstd::layout::layout_for_type_is_valid::<T>();
        if self.addr != 0 && self.addr % core::mem::align_of::<T>() == 0 {
            Ok(&self.mem[0])
        } else {
            ResultInvalidBufferPointer::make_err()
        }
    }

    /// The elements, or the error that the address is null or misaligned.
    pub open spec fn spec_as_slice(&self) -> Result<Seq<T>, ResultCode> {
        if self.is_live() {
            Ok(self@)
        } else {
            Err(code_of::<ResultInvalidBufferPointer>())
        }
    }

    /// The elements. Fails with `ResultInvalidBufferPointer` exactly when the
    /// address is null or misaligned.
    pub fn as_slice(&self) -> (r: Result<&[T], ResultCode>)
        ensures
            match r {
                Ok(slice) => self.spec_as_slice() == Ok::<Seq<T>, ResultCode>(slice@),
                Err(rc) => self.spec_as_slice() == Err::<Seq<T>, ResultCode>(rc),
            },
    {
        vstd::layout::layout_for_type_is_valid::<T>();
        if self.addr != 0 && self.addr % core::mem::align_of::<T>() == 0 {
            Ok(self.mem.as_slice())
        } else {
            ResultInvalidBufferPointer::make_err()
        }
    }
}

impl<
    const IN: bool,
    const MAP_ALIAS: bool,
    const POINTER: bool,
    const FIXED_SIZE: bool,
    const AUTO_SELECT: bool,
    const ALLOW_NON_SECURE: bool,
    const ALLOW_NON_DEVICE: bool,
    T: Copy,
> Buffer<IN, false, MAP_ALIAS, POINTER, FIXED_SIZE, AUTO_SELECT, ALLOW_NON_SECURE, ALLOW_NON_DEVICE, T> {
    /// A descriptor of the one element `var`, which stands at `addr`.
    pub fn from_var(addr: usize, var: &T) -> (b: Self)
        ensures
            b.address() == addr,
            b@ == seq![*var],
    {
        let mut mem: Vec<T> = Vec::new();
        mem.push(*var);
        assert(mem@ =~= seq![*var]);
        Self { addr, mem }
    }

    /// A descriptor of the elements of `arr`, which stand at `addr`.
    pub fn from_array(addr: usize, arr: &[T]) -> (b: Self)
        ensures
            b.address() == addr,
            b@ == arr@,
    {
        Self { addr, mem: slice_to_vec(arr) }
    }
}

impl<
    const IN: bool,
    const MAP_ALIAS: bool,
    const POINTER: bool,
    const FIXED_SIZE: bool,
    const AUTO_SELECT: bool,
    const ALLOW_NON_SECURE: bool,
    const ALLOW_NON_DEVICE: bool,
> Buffer<IN, false, MAP_ALIAS, POINTER, FIXED_SIZE, AUTO_SELECT, ALLOW_NON_SECURE, ALLOW_NON_DEVICE, u8> {
    /// A byte descriptor of the value `var`, which stands at `addr`.
    pub fn from_other_var<U: RawValue>(addr: usize, var: &U) -> (b: Self)
        ensures
            b.address() == addr,
            b@ == var.spec_bytes(),
    {
        Self { addr, mem: (*var).to_bytes() }
    }
}

impl<
    const MAP_ALIAS: bool,
    const POINTER: bool,
    const FIXED_SIZE: bool,
    const AUTO_SELECT: bool,
    const ALLOW_NON_SECURE: bool,
    const ALLOW_NON_DEVICE: bool,
    T,
> Buffer<true, true, MAP_ALIAS, POINTER, FIXED_SIZE, AUTO_SELECT, ALLOW_NON_SECURE, ALLOW_NON_DEVICE, T> {
    /// The elements, to be changed in place. Fails with
    /// `ResultInvalidBufferPointer` exactly when the address is null or
    /// misaligned, and then changes nothing.
    pub fn as_slice_mut(&mut self) -> (r: Result<&mut [T], ResultCode>)
        ensures
            final(self).address() == old(self).address(),
            match r {
                Ok(slice) => {
                    &&& old(self).is_live()
                    &&& slice@ == old(self)@
                    &&& final(self)@ == final(slice)@
                },
                Err(rc) => !old(self).is_live() && rc == code_of::<ResultInvalidBufferPointer>()
                    && final(self)@ == old(self)@,
            },
    {
        vstd::layout::layout_for_type_is_valid::<T>();
        if self.addr != 0 && self.addr % core::mem::align_of::<T>() == 0 {
            Ok(self.mem.as_mut_slice())
        } else {
            ResultInvalidBufferPointer::make_err()
        }
    }
}

impl<
    const MAP_ALIAS: bool,
    const POINTER: bool,
    const FIXED_SIZE: bool,
    const AUTO_SELECT: bool,
    const ALLOW_NON_SECURE: bool,
    const ALLOW_NON_DEVICE: bool,
    T,
> Buffer<false, true, MAP_ALIAS, POINTER, FIXED_SIZE, AUTO_SELECT, ALLOW_NON_SECURE, ALLOW_NON_DEVICE, T> {
    /// The elements of an output-only range, to be filled in. What they hold
    /// before the first write carries no meaning. Fails with
    /// `ResultInvalidBufferPointer` exactly when the address is null or
    /// misaligned, and then changes nothing.
    pub fn as_maybeuninit_mut(&mut self) -> (r: Result<&mut [T], ResultCode>)
        ensures
            final(self).address() == old(self).address(),
            match r {
                Ok(slice) => {
                    &&& old(self).is_live()
                    &&& slice@.len() == old(self).count()
                    &&& final(self)@ == final(slice)@
                },
                Err(rc) => !old(self).is_live() && rc == code_of::<ResultInvalidBufferPointer>()
                    && final(self)@ == old(self)@,
            },
    {
        vstd::layout::layout_for_type_is_valid::<T>();
        if self.addr != 0 && self.addr % core::mem::align_of::<T>() == 0 {
            Ok(self.mem.as_mut_slice())
        } else {
            ResultInvalidBufferPointer::make_err()
        }
    }
}

/// What `String::from_utf8_lossy` makes of `bytes`.
pub uninterp spec fn utf8_lossy(bytes: Seq<u8>) -> Seq<char>;

/// `String::from_utf8_lossy`, owned: the text that the bytes spell, with the
/// replacement character in place of each malformed sequence. Bytes that are
/// valid UTF-8 come out as the string they encode.
#[verifier::external_body]
fn string_from_utf8_lossy(bytes: &Vec<u8>) -> (s: String)
    ensures
        s@ == utf8_lossy(bytes@),
        vstd::utf8::valid_utf8(bytes@) ==> vstd::utf8::encode_utf8(s@) == bytes@,
{
    String::from_utf8_lossy(bytes.as_slice()).into_owned()
}

/// `zeroize::Zeroize::zeroize` on a byte slice: every byte becomes zero and
/// the length stays. The call refuses a slice longer than `isize::MAX`.
#[verifier::external_body]
fn zeroize_bytes(bytes: &mut Vec<u8>)
    requires
        old(bytes)@.len() <= isize::MAX,
    ensures
        final(bytes)@ == zeros(old(bytes)@.len()),
{
    bytes.as_mut_slice().zeroize();
}

/// What a range of `capacity` bytes holds after `text` was stored in it as a
/// terminated string: as much of `text` as leaves room for one zero byte,
/// then zeros to the end.
pub open spec fn string_image(capacity: nat, text: Seq<u8>) -> Seq<u8>
    recommends
        capacity >= 1,
{
    Seq::new(
        capacity,
        |i: int|
            if i < text.len() && i < capacity - 1 {
                text[i]
            } else {
                0u8
            },
    )
}

/// A text that does not fit is cut to one byte less than the capacity and
/// terminated; a text that fits is followed by zeros to the end.
pub proof fn lemma_string_image(capacity: nat, text: Seq<u8>)
    requires
        capacity >= 1,
    ensures
        string_image(capacity, text).len() == capacity,
        string_image(capacity, text)[capacity - 1] == 0,
        text.len() >= capacity ==> string_image(capacity, text) == text.subrange(
            0,
            capacity - 1,
        ) + seq![0u8],
        text.len() < capacity ==> string_image(capacity, text) == text + zeros(
            (capacity - text.len()) as nat,
        ),
{
    if text.len() >= capacity {
        assert(string_image(capacity, text) =~= text.subrange(0, capacity - 1) + seq![0u8]);
    } else {
        assert(string_image(capacity, text) =~= text + zeros((capacity - text.len()) as nat));
    }
}

impl<
    const OUT: bool,
    const MAP_ALIAS: bool,
    const POINTER: bool,
    const FIXED_SIZE: bool,
    const AUTO_SELECT: bool,
    const ALLOW_NON_SECURE: bool,
    const ALLOW_NON_DEVICE: bool,
> Buffer<true, OUT, MAP_ALIAS, POINTER, FIXED_SIZE, AUTO_SELECT, ALLOW_NON_SECURE, ALLOW_NON_DEVICE, u8> {
    /// The bytes of the range as text, zero bytes included.
    pub fn get_string(&self) -> (s: String)
        ensures
            s@ == utf8_lossy(self@),
            vstd::utf8::valid_utf8(self@) ==> vstd::utf8::encode_utf8(s@) == self@,
    {
        string_from_utf8_lossy(&self.mem)
    }
}

impl<
    const IN: bool,
    const MAP_ALIAS: bool,
    const POINTER: bool,
    const FIXED_SIZE: bool,
    const AUTO_SELECT: bool,
    const ALLOW_NON_SECURE: bool,
    const ALLOW_NON_DEVICE: bool,
> Buffer<IN, true, MAP_ALIAS, POINTER, FIXED_SIZE, AUTO_SELECT, ALLOW_NON_SECURE, ALLOW_NON_DEVICE, u8> {
    /// Stores `string` as a terminated string: the range is zeroed, then as
    /// many bytes of `string` are copied as leave room for the terminator.
    /// A longer string is cut without notice.
    #[verifier::rlimit(50)]
    pub fn set_string(&mut self, string: String)
        requires
            old(self).count() >= 1,
        ensures
            final(self)@ == string_image(old(self).count(), vstd::utf8::encode_utf8(string@)),
            final(self).address() == old(self).address(),
    {
        let count = self.mem.len();
        if count <= isize::MAX as usize {
            zeroize_bytes(&mut self.mem);
        } else {
            fill_zero(&mut self.mem);
        }
        let text = string.as_str().as_bytes();
        let n = if text.len() < count - 1 {
            text.len()
        } else {
            count - 1
        };
        let mut i: usize = 0;
        while i < n
            invariant
                i <= n,
                n <= text@.len(),
                n <= count - 1,
                self.mem@.len() == count,
                self.addr == old(self).addr,
                forall|j: int| 0 <= j < i ==> self.mem@[j] == text@[j],
                forall|j: int| i <= j < count ==> self.mem@[j] == 0u8,
            decreases n - i,
        {
            self.mem.set(i, text[i]);
            i = i + 1;
        }
        assert(self.mem@ =~= string_image(count as nat, text@));
    }
}

/// Sets every byte of `bytes` to zero.
fn fill_zero(bytes: &mut Vec<u8>)
    ensures
        final(bytes)@ == zeros(old(bytes)@.len()),
{
    let n = bytes.len();
    let mut i: usize = 0;
    while i < n
        invariant
            i <= n,
            n == bytes@.len(),
            forall|j: int| 0 <= j < i ==> bytes@[j] == 0u8,
        decreases n - i,
    {
        bytes.set(i, 0u8);
        i = i + 1;
    }
    assert(bytes@ =~= zeros(n as nat));
}

/// Through a range that flows both ways, an element that was stored is the
/// element that is read.
pub proof fn lemma_set_var_then_get_var<
    const MAP_ALIAS: bool,
    const POINTER: bool,
    const FIXED_SIZE: bool,
    const AUTO_SELECT: bool,
    const ALLOW_NON_SECURE: bool,
    const ALLOW_NON_DEVICE: bool,
    T,
>(
    before: Buffer<true, true, MAP_ALIAS, POINTER, FIXED_SIZE, AUTO_SELECT, ALLOW_NON_SECURE, ALLOW_NON_DEVICE, T>,
    after: Buffer<true, true, MAP_ALIAS, POINTER, FIXED_SIZE, AUTO_SELECT, ALLOW_NON_SECURE, ALLOW_NON_DEVICE, T>,
    t: T,
)
    requires
        before.is_live(),
        before.count() >= 1,
        after@ == before@.update(0, t),
        after.address() == before.address(),
    ensures
        after.spec_get_var() == Ok::<T, ResultCode>(t),
        after.count() == before.count(),
        forall|i: int| 1 <= i < before.count() ==> after@[i] == before@[i],
{
}

/// Through a range that flows both ways, the elements that were written
/// through the mutable view are the elements that the view reads.
pub proof fn lemma_slice_write_then_read<
    const MAP_ALIAS: bool,
    const POINTER: bool,
    const FIXED_SIZE: bool,
    const AUTO_SELECT: bool,
    const ALLOW_NON_SECURE: bool,
    const ALLOW_NON_DEVICE: bool,
    T,
>(
    before: Buffer<true, true, MAP_ALIAS, POINTER, FIXED_SIZE, AUTO_SELECT, ALLOW_NON_SECURE, ALLOW_NON_DEVICE, T>,
    after: Buffer<true, true, MAP_ALIAS, POINTER, FIXED_SIZE, AUTO_SELECT, ALLOW_NON_SECURE, ALLOW_NON_DEVICE, T>,
    written: Seq<T>,
)
    requires
        before.is_live(),
        after.address() == before.address(),
        after@ == written,
    ensures
        after.spec_as_slice() == Ok::<Seq<T>, ResultCode>(written),
{
}

/// Input, mapped into the receiver.
pub type InMapAliasBuffer<T> = Buffer<true, false, true, false, false, false, false, false, T>;

/// Output, mapped into the receiver.
pub type OutMapAliasBuffer<T> = Buffer<false, true, true, false, false, false, false, false, T>;

/// Input, mapped, non-secure memory allowed.
pub type InNonSecureMapAliasBuffer<T> = Buffer<true, false, true, false, false, false, true, false, T>;

/// Output, mapped, non-secure memory allowed.
pub type OutNonSecureMapAliasBuffer<T> = Buffer<false, true, true, false, false, false, true, false, T>;

/// Input, mapped or copied as its size decides.
pub type InAutoSelectBuffer<T> = Buffer<true, false, false, false, false, true, false, false, T>;

/// Output, mapped or copied as its size decides.
pub type OutAutoSelectBuffer<T> = Buffer<false, true, false, false, false, true, false, false, T>;

/// Both ways, mapped or copied as its size decides.
pub type InOutAutoSelectBuffer<T> = Buffer<true, true, false, false, false, true, false, false, T>;

/// Input, copied by the kernel.
pub type InPointerBuffer<T> = Buffer<true, false, false, true, false, false, false, false, T>;

/// Output, copied by the kernel.
pub type OutPointerBuffer<T> = Buffer<false, true, false, true, false, false, false, false, T>;

/// Input, copied by the kernel, of a size fixed by the command.
pub type InFixedPointerBuffer<T> = Buffer<true, false, false, true, true, false, false, false, T>;

/// Output, copied by the kernel, of a size fixed by the command.
pub type OutFixedPointerBuffer<T> = Buffer<false, true, false, true, true, false, false, false, T>;

/// A kernel handle that travels with a command. A copy handle is duplicated
/// for the receiver and stays valid for the sender; a move handle passes to
/// the receiver. The two are different types.
#[derive(Copy, Clone, PartialEq, Eq, Debug)]
pub struct Handle<const MOVE: bool> {
    pub handle: SvcHandle,
}

impl<const MOVE: bool> Handle<MOVE> {
    pub fn from(handle: SvcHandle) -> (h: Self)
        ensures
            h.handle == handle,
    {
        Self { handle }
    }
}

/// A handle that the kernel duplicates for the receiver.
pub type CopyHandle = Handle<false>;

/// A handle whose ownership passes to the receiver.
pub type MoveHandle = Handle<true>;

/// A process id that the kernel fills in while the request travels.
#[derive(Copy, Clone, PartialEq, Eq, Structural, Debug)]
pub struct ProcessId {
    pub process_id: u64,
}

impl ProcessId {
    pub fn from(process_id: u64) -> (p: Self)
        ensures
            p.process_id == process_id,
    {
        Self { process_id }
    }

    pub fn new() -> (p: Self)
        ensures
            p.process_id == 0,
    {
        Self { process_id: 0 }
    }
}

impl Default for ProcessId {
    fn default() -> (p: Self)
        ensures
            p.process_id == 0,
    {
        Self { process_id: 0 }
    }
}

/// An applet resource user id. The id itself is zero or the sender's own
/// process id; sending it also asks the kernel to fill in the process id,
/// which is why the value carries both.
#[derive(Copy, Clone, PartialEq, Eq, Structural, Debug)]
pub struct AppletResourceUserId {
    /// Filled in by the kernel.
    pub process_id: u64,
    /// Zero, or the sender's own process id.
    pub aruid: u64,
}

impl AppletResourceUserId {
    /// Whether a process with id `own_process_id` may send this value: the id
    /// is zero or that process's id.
    pub open spec fn permitted_for(&self, own_process_id: u64) -> bool {
        self.aruid == 0 || self.aruid == own_process_id
    }

    pub fn from(process_id: u64, aruid: u64) -> (a: Self)
        ensures
            a.process_id == process_id,
            a.aruid == aruid,
    {
        Self { process_id, aruid }
    }

    /// The value for the id that the process registered at startup.
    pub fn from_global(global_aruid: u64) -> (a: Self)
        ensures
            a.process_id == 0,
            a.aruid == global_aruid,
    {
        Self { process_id: 0, aruid: global_aruid }
    }

    pub fn new(aruid: u64) -> (a: Self)
        ensures
            a.process_id == 0,
            a.aruid == aruid,
    {
        Self { process_id: 0, aruid }
    }

    /// The value for the id `aruid`, sent by the process with id
    /// `own_process_id`; or nothing where that process may not send it.
    pub fn new_checked(aruid: u64, own_process_id: u64) -> (a: Option<Self>)
        ensures
            match a {
                Some(value) => value.aruid == aruid && value.process_id == 0
                    && value.permitted_for(own_process_id),
                None => aruid != 0 && aruid != own_process_id,
            },
    {
        if aruid == 0 || aruid == own_process_id {
            Some(Self { process_id: 0, aruid })
        } else {
            None
        }
    }

    /// Whether a process with id `own_process_id` may send this value.
    pub fn is_permitted_for(&self, own_process_id: u64) -> (b: bool)
        ensures
            b == self.permitted_for(own_process_id),
    {
        self.aruid == 0 || self.aruid == own_process_id
    }
}

impl Default for AppletResourceUserId {
    fn default() -> (a: Self)
        ensures
            a.process_id == 0,
            a.aruid == 0,
    {
        Self { process_id: 0, aruid: 0 }
    }
}


/// An enum of type `E` that travels as the primitive `T`.
pub trait PrimitiveEnum<T>: Copy {
    /// The primitive that stands for the variant.
    spec fn spec_to_primitive(self) -> T;

    /// The variant that the primitive stands for, if it stands for one.
    spec fn spec_from_primitive(value: T) -> Option<Self>;

    /// Every variant is found again from its primitive.
    proof fn lemma_round_trip(self)
        ensures
            Self::spec_from_primitive(self.spec_to_primitive()) == Some(self),
    ;

    fn to_primitive(self) -> (value: T)
        ensures
            value == self.spec_to_primitive(),
    ;

    fn from_primitive(value: T) -> (variant: Option<Self>)
        ensures
            variant == Self::spec_from_primitive(value),
    ;
}

/// An enum value in the form of the primitive that carries it in a command:
/// a narrow enum, for instance, that commands send as 32 bits.
pub struct EnumAsPrimitiveType<E: Copy, T: Copy> {
    val: T,
    _enum: core::marker::PhantomData<E>,
}

impl<E: Copy, T: Copy> Copy for EnumAsPrimitiveType<E, T> {

}

impl<E: Copy, T: Copy> Clone for EnumAsPrimitiveType<E, T> {
    fn clone(&self) -> (copy: Self)
        ensures
            copy == *self,
    {
        *self
    }
}

impl<E: Copy, T: Copy> EnumAsPrimitiveType<E, T> {
    /// The primitive that is held.
    pub closed spec fn value(&self) -> T {
        self.val
    }

    pub fn from_val(val: T) -> (e: Self)
        ensures
            e.value() == val,
    {
        Self { val, _enum: core::marker::PhantomData }
    }

    pub fn get_value(&self) -> (val: T)
        ensures
            val == self.value(),
    {
        self.val
    }

    pub fn set_value(&mut self, val: T)
        ensures
            final(self).value() == val,
    {
        self.val = val;
    }
}

impl<T: Copy, E: PrimitiveEnum<T>> EnumAsPrimitiveType<E, T> {
    pub fn from(enum_val: E) -> (e: Self)
        ensures
            e.value() == enum_val.spec_to_primitive(),
    {
        Self { val: enum_val.to_primitive(), _enum: core::marker::PhantomData }
    }

    /// The variant that the held primitive stands for, if it stands for one.
    pub fn get(&self) -> (enum_val: Option<E>)
        ensures
            enum_val == E::spec_from_primitive(self.value()),
    {
        E::from_primitive(self.val)
    }

    pub fn set(&mut self, enum_val: E)
        ensures
            final(self).value() == enum_val.spec_to_primitive(),
    {
        self.val = enum_val.to_primitive();
    }
}

/// A variant that was stored is the variant that is read.
pub proof fn lemma_enum_set_then_get<T: Copy, E: PrimitiveEnum<T>>(
    holder: EnumAsPrimitiveType<E, T>,
    enum_val: E,
)
    requires
        holder.value() == enum_val.spec_to_primitive(),
    ensures
        E::spec_from_primitive(holder.value()) == Some(enum_val),
{
    enum_val.lemma_round_trip();
}

impl<E: Copy, T: RawValue> RawValue for EnumAsPrimitiveType<E, T> {
    open spec fn spec_size() -> nat {
        T::spec_size()
    }

    open spec fn spec_align() -> nat {
        T::spec_align()
    }

    open spec fn spec_bytes(self) -> Seq<u8> {
        self.value().spec_bytes()
    }

    closed spec fn spec_value(bytes: Seq<u8>) -> Self {
        EnumAsPrimitiveType { val: T::spec_value(bytes), _enum: core::marker::PhantomData }
    }

    proof fn lemma_layout() {
        T::lemma_layout();
    }

    proof fn lemma_round_trip(v: Self) {
        T::lemma_round_trip(v.val);
    }

    fn size() -> (n: usize) {
        T::size()
    }

    fn align() -> (n: usize) {
        T::align()
    }

    fn to_bytes(self) -> (bytes: Vec<u8>) {
        self.val.to_bytes()
    }

    fn read_at(buf: &Vec<u8>, at: usize) -> (v: Self) {
        Self { val: T::read_at(buf, at), _enum: core::marker::PhantomData }
    }
}

/// The value read from bytes holds the primitive that the bytes stand for.
pub proof fn lemma_enum_value_of_bytes<E: Copy, T: RawValue>(bytes: Seq<u8>)
    ensures
        EnumAsPrimitiveType::<E, T>::spec_value(bytes).value() == T::spec_value(bytes),
{
}

/// The whole seconds of a duration: what `Duration::as_secs` returns.
pub uninterp spec fn duration_secs(d: Duration) -> u64;

/// The nanoseconds of a duration beyond its whole seconds: what
/// `Duration::subsec_nanos` returns.
pub uninterp spec fn duration_subsec_nanos(d: Duration) -> u32;

/// Nanoseconds in a second.
pub const NANOS_PER_SEC: u32 = 1_000_000_000;

/// `Duration::as_secs`: the whole seconds of the duration.
#[verifier::external_body]
fn duration_as_secs(d: &Duration) -> (secs: u64)
    ensures
        secs == duration_secs(*d),
{
    d.as_secs()
}

/// `Duration::subsec_nanos`: the part of the duration beyond its whole
/// seconds, in nanoseconds; it is less than a second.
#[verifier::external_body]
fn duration_as_subsec_nanos(d: &Duration) -> (nanos: u32)
    ensures
        nanos == duration_subsec_nanos(*d),
        nanos < NANOS_PER_SEC,
{
    d.subsec_nanos()
}

/// `Duration::new`: the duration of `secs` seconds and `nanos` nanoseconds,
/// whole seconds among the nanoseconds carried over. The call refuses a
/// carry that overflows the seconds.
#[verifier::external_body]
fn duration_new(secs: u64, nanos: u32) -> (d: Duration)
    requires
        secs + nanos / NANOS_PER_SEC <= u64::MAX,
    ensures
        duration_secs(d) == secs + nanos / NANOS_PER_SEC,
        duration_subsec_nanos(d) == nanos % NANOS_PER_SEC,
{
    Duration::new(secs, nanos)
}

/// Where the cursor stands after the two 64-bit fields of a duration.
pub open spec fn duration_end(offset: int) -> int {
    value_end::<u64>(value_end::<u64>(offset))
}

/// `buf` with a duration of `secs` seconds and `nanos` nanoseconds written
/// at the cursor `walker`: two 64-bit fields, the seconds first.
pub open spec fn put_duration(buf: Seq<u8>, walker: DataWalker, secs: u64, nanos: u32) -> Seq<u8> {
    put(
        put(buf, walker.base + value_start::<u64>(walker.cur_offset as int), secs.spec_bytes()),
        walker.base + value_start::<u64>(value_end::<u64>(walker.cur_offset as int)),
        (nanos as u64).spec_bytes(),
    )
}

impl client::RequestCommandParameter for Duration {
    open spec fn raw_end(offset: int) -> int {
        duration_end(offset)
    }

    proof fn lemma_raw_end(offset: int) {
        lemma_value_start::<u64>(offset);
        lemma_value_start::<u64>(value_end::<u64>(offset));
    }

    fn before_request_write(var: &Self, walker: &mut DataWalker, ctx: &mut CommandContext) -> (r:
        Result<(), ResultCode>)
        ensures
            r.is_ok(),
            *final(ctx) == *old(ctx),
    {
        proof {
            lemma_value_start::<u64>(walker.cur_offset as int);
            lemma_value_start::<u64>(value_end::<u64>(walker.cur_offset as int));
        }
        walker.advance::<u64>();
        walker.advance::<u64>();
        Ok(())
    }

    #[verifier::rlimit(50)]
    fn before_send_sync_request(
        var: &Self,
        walker: &mut DataWalker,
        ctx: &mut CommandContext,
        msg: &mut Vec<u8>,
    ) -> (r: Result<(), ResultCode>)
        ensures
            r.is_ok(),
            *final(ctx) == *old(ctx),
            final(msg)@ == put_duration(
                old(msg)@,
                *old(walker),
                duration_secs(*var),
                duration_subsec_nanos(*var),
            ),
            duration_subsec_nanos(*var) < NANOS_PER_SEC,
    {
        let secs = duration_as_secs(var);
        let nanos = duration_as_subsec_nanos(var) as u64;
        proof {
            lemma_value_start::<u64>(walker.cur_offset as int);
            lemma_value_start::<u64>(value_end::<u64>(walker.cur_offset as int));
            lemma_set_frame::<u64>(msg@, *walker, secs);
        }
        walker.advance_set::<u64>(msg, secs);
        let ghost mid = msg@;
        proof {
            lemma_set_frame::<u64>(mid, *walker, nanos);
        }
        walker.advance_set::<u64>(msg, nanos);
        proof {
            let a = old(walker).base + old(walker).cur_offset;
            let b = old(walker).base + duration_end(old(walker).cur_offset as int);
            let n = old(msg)@.len() as int;
            assert(msg@.subrange(0, a) =~= mid.subrange(0, walker.base + value_end::<u64>(
                old(walker).cur_offset as int,
            )).subrange(0, a));
            assert(mid.subrange(0, a) =~= old(msg)@.subrange(0, a));
            assert(msg@.subrange(0, a) =~= old(msg)@.subrange(0, a));
            assert(mid.subrange(b, n) =~= mid.subrange(
                old(walker).base + value_end::<u64>(old(walker).cur_offset as int),
                n,
            ).subrange(
                b - (old(walker).base + value_end::<u64>(old(walker).cur_offset as int)),
                n - (old(walker).base + value_end::<u64>(old(walker).cur_offset as int)),
            ));
            assert(mid.subrange(b, n) =~= old(msg)@.subrange(b, n));
            assert(msg@.subrange(b, n) =~= old(msg)@.subrange(b, n));
        }
        Ok(())
    }
}

/// The duration that the two 64-bit fields at the cursor stand for: the
/// seconds of the first field and the low 32 bits of the second as
/// nanoseconds, whole seconds among them carried over; or nothing where the
/// carry overflows the seconds.
pub open spec fn read_duration(buf: Seq<u8>, walker: DataWalker) -> Option<(u64, u32)> {
    let secs = u64::spec_value(
        buf.subrange(
            walker.base + value_start::<u64>(walker.cur_offset as int),
            walker.base + value_end::<u64>(walker.cur_offset as int),
        ),
    );
    let field = u64::spec_value(
        buf.subrange(
            walker.base + value_start::<u64>(value_end::<u64>(walker.cur_offset as int)),
            walker.base + duration_end(walker.cur_offset as int),
        ),
    );
    let nanos = (field % 0x1_0000_0000) as u32;
    if secs + nanos / NANOS_PER_SEC <= u64::MAX {
        Some(((secs + nanos / NANOS_PER_SEC) as u64, nanos % NANOS_PER_SEC))
    } else {
        None
    }
}

/// A duration that was written at a cursor is the duration that is read at
/// a cursor at the same place: the same seconds, and the same nanoseconds
/// beyond them, which are less than a second. The reader takes the two
/// fields in the order in which the writer put them, and both cursors end at
/// the same offset.
pub proof fn lemma_duration_round_trip(buf: Seq<u8>, walker: DataWalker, secs: u64, nanos: u32)
    requires
        walker.base + duration_end(walker.cur_offset as int) <= buf.len(),
        buf.len() <= usize::MAX,
        nanos < NANOS_PER_SEC,
    ensures
        put_duration(buf, walker, secs, nanos).len() == buf.len(),
        read_duration(put_duration(buf, walker, secs, nanos), walker) == Some((secs, nanos)),
{
    let offset = walker.cur_offset as int;
    lemma_value_start::<u64>(offset);
    lemma_value_start::<u64>(value_end::<u64>(offset));
    let second = DataWalker { base: walker.base, cur_offset: value_end::<u64>(offset) as usize };
    let s1 = walker.base + value_start::<u64>(offset);
    let e1 = walker.base + value_end::<u64>(offset);
    let s2 = walker.base + value_start::<u64>(value_end::<u64>(offset));
    let e2 = walker.base + duration_end(offset);
    let field = nanos as u64;
    let mid = put(buf, s1, secs.spec_bytes());
    let written = put(mid, s2, field.spec_bytes());
    crate::ipc::lemma_set_then_get::<u64>(buf, walker, secs);
    crate::ipc::lemma_set_then_get::<u64>(mid, second, field);
    assert(written == put_duration(buf, walker, secs, nanos));
    crate::ipc::raw::lemma_subrange_twice(written, 0, s2, s1, e1);
    crate::ipc::raw::lemma_subrange_twice(mid, 0, s2, s1, e1);
    assert(written.subrange(s1, e1) == mid.subrange(s1, e1));
    assert(field % 0x1_0000_0000 == nanos);
    assert(nanos / NANOS_PER_SEC == 0);
    assert(nanos % NANOS_PER_SEC == nanos);
}

impl server::RequestCommandParameter<Duration> for Duration {
    open spec fn raw_end(offset: int) -> int {
        duration_end(offset)
    }

    proof fn lemma_raw_end(offset: int) {
        lemma_value_start::<u64>(offset);
        lemma_value_start::<u64>(value_end::<u64>(offset));
    }

    /// Reads a duration. Fails with `ResultInvalidDuration` exactly when the
    /// seconds and nanoseconds on the wire do not fit a duration.
    #[verifier::rlimit(50)]
    fn after_request_read(ctx: &mut ServerContext) -> (r: Result<Duration, ResultCode>)
        ensures
            final(ctx).raw_data_walker.cur_offset == duration_end(
                old(ctx).raw_data_walker.cur_offset as int,
            ),
            match r {
                Ok(d) => read_duration(old(ctx).msg@, old(ctx).raw_data_walker) == Some(
                    (duration_secs(d), duration_subsec_nanos(d)),
                ),
                Err(rc) => read_duration(old(ctx).msg@, old(ctx).raw_data_walker).is_none() && rc
                    == code_of::<ResultInvalidDuration>(),
            },
    {
        proof {
            lemma_value_start::<u64>(ctx.raw_data_walker.cur_offset as int);
            lemma_value_start::<u64>(value_end::<u64>(ctx.raw_data_walker.cur_offset as int));
        }
        let seconds: u64 = ctx.raw_data_walker.advance_get::<u64>(&ctx.msg);
        let field: u64 = ctx.raw_data_walker.advance_get::<u64>(&ctx.msg);
        let nanos: u32 = (field % 0x1_0000_0000) as u32;
        if seconds <= u64::MAX - (nanos / NANOS_PER_SEC) as u64 {
            Ok(duration_new(seconds, nanos))
        } else {
            ResultInvalidDuration::make_err()
        }
    }
}

/// A handle is an argument that adds itself to the list of its kind, behind
/// the handles that are there, and takes no room in the raw data.
impl<const MOVE: bool> client::RequestCommandParameter for Handle<MOVE> {
    open spec fn raw_end(offset: int) -> int {
        offset
    }

    proof fn lemma_raw_end(offset: int) {
    }

    /// Fails, changing nothing, exactly when the list of the handle's kind
    /// is full.
    fn before_request_write(var: &Self, walker: &mut DataWalker, ctx: &mut CommandContext) -> (r:
        Result<(), ResultCode>)
        ensures
            *final(walker) == *old(walker),
            *final(ctx) == (CommandContext { in_params: final(ctx).in_params, ..*old(ctx) }),
            MOVE ==> final(ctx).in_params.same_but_move_handles(&old(ctx).in_params) && match r {
                Ok(()) => final(ctx).in_params.move_handles@ == old(ctx).in_params.move_handles@.push(var.handle),
                Err(rc) => old(ctx).in_params.move_handles@.len() == crate::ipc::MAX_COUNT && rc
                    == code_of::<crate::ipc::rc::ResultMoveHandlesFull>() && final(ctx).in_params.move_handles@ == old(ctx).in_params.move_handles@,
            },
            !MOVE ==> final(ctx).in_params.same_but_copy_handles(&old(ctx).in_params) && match r {
                Ok(()) => final(ctx).in_params.copy_handles@ == old(ctx).in_params.copy_handles@.push(var.handle),
                Err(rc) => old(ctx).in_params.copy_handles@.len() == crate::ipc::MAX_COUNT && rc
                    == code_of::<crate::ipc::rc::ResultCopyHandlesFull>() && final(ctx).in_params.copy_handles@ == old(ctx).in_params.copy_handles@,
            },
    {
        ctx.in_params.add_handle(*var)
    }

    #[verifier::rlimit(50)]
    fn before_send_sync_request(
        var: &Self,
        walker: &mut DataWalker,
        ctx: &mut CommandContext,
        msg: &mut Vec<u8>,
    ) -> (r: Result<(), ResultCode>)
        ensures
            r.is_ok(),
            *final(walker) == *old(walker),
            *final(ctx) == *old(ctx),
            final(msg)@ == old(msg)@,
    {
        Ok(())
    }
}

/// A process id is an argument that asks the kernel to fill in the sender's
/// process id, and keeps eight bytes of the raw data for it.
impl client::RequestCommandParameter for ProcessId {
    open spec fn raw_end(offset: int) -> int {
        value_end::<u64>(offset)
    }

    proof fn lemma_raw_end(offset: int) {
        lemma_value_start::<u64>(offset);
    }

    fn before_request_write(var: &Self, walker: &mut DataWalker, ctx: &mut CommandContext) -> (r:
        Result<(), ResultCode>)
        ensures
            r.is_ok(),
            *final(ctx) == (CommandContext {
                in_params: crate::ipc::CommandIn { send_process_id: true, ..old(ctx).in_params },
                ..*old(ctx)
            }),
    {
        ctx.in_params.send_process_id = true;
        walker.advance::<u64>();
        Ok(())
    }

    #[verifier::rlimit(50)]
    fn before_send_sync_request(
        var: &Self,
        walker: &mut DataWalker,
        ctx: &mut CommandContext,
        msg: &mut Vec<u8>,
    ) -> (r: Result<(), ResultCode>)
        ensures
            r.is_ok(),
            *final(ctx) == *old(ctx),
            final(msg)@ == put(
                old(msg)@,
                old(walker).base + value_start::<u64>(old(walker).cur_offset as int),
                var.process_id.spec_bytes(),
            ),
    {
        proof {
            lemma_set_frame::<u64>(msg@, *walker, var.process_id);
        }
        walker.advance_set::<u64>(msg, var.process_id);
        Ok(())
    }
}

/// An applet resource user id is an argument that asks the kernel to fill in
/// the sender's process id, and travels itself in eight bytes of the raw
/// data.
impl client::RequestCommandParameter for AppletResourceUserId {
    open spec fn raw_end(offset: int) -> int {
        value_end::<u64>(offset)
    }

    proof fn lemma_raw_end(offset: int) {
        lemma_value_start::<u64>(offset);
    }

    fn before_request_write(var: &Self, walker: &mut DataWalker, ctx: &mut CommandContext) -> (r:
        Result<(), ResultCode>)
        ensures
            r.is_ok(),
            *final(ctx) == (CommandContext {
                in_params: crate::ipc::CommandIn { send_process_id: true, ..old(ctx).in_params },
                ..*old(ctx)
            }),
    {
        ctx.in_params.send_process_id = true;
        walker.advance::<u64>();
        Ok(())
    }

    #[verifier::rlimit(50)]
    fn before_send_sync_request(
        var: &Self,
        walker: &mut DataWalker,
        ctx: &mut CommandContext,
        msg: &mut Vec<u8>,
    ) -> (r: Result<(), ResultCode>)
        ensures
            r.is_ok(),
            *final(ctx) == *old(ctx),
            final(msg)@ == put(
                old(msg)@,
                old(walker).base + value_start::<u64>(old(walker).cur_offset as int),
                var.aruid.spec_bytes(),
            ),
    {
        proof {
            lemma_set_frame::<u64>(msg@, *walker, var.aruid);
        }
        walker.advance_set::<u64>(msg, var.aruid);
        Ok(())
    }
}

/// The send and the close that end a session, for the caller to carry out.
/// Neither can fail in a way that matters: errors of both are dropped.
pub struct CloseActions {
    /// The handle that the actions are about.
    pub handle: SvcHandle,
    /// The message to send on the handle, where one is to be sent.
    pub message: Option<Vec<u8>>,
    /// Whether the handle is then to be released to the kernel.
    pub close_handle: bool,
}

/// The message that ends the object behind `info`, where one is sent: to a
/// domain object the request to close that object; to a session that is
/// owned the close command of its protocol; else none.
pub open spec fn close_message(info: ObjectInfo) -> Option<Seq<u8>> {
    match info.state() {
        ObjectState::Invalid => None,
        ObjectState::Domain => Some(
            cmif::client::bare_domain_message(
                cmif::DomainCommandType::Close,
                info.domain_object_id,
            ),
        ),
        ObjectState::Plain => if !info.owns_handle {
            None
        } else {
            match info.protocol {
                CommandProtocol::Cmif => Some(
                    cmif::client::bare_command_message(cmif::CommandType::Close.spec_value()),
                ),
                CommandProtocol::Tipc => Some(
                    cmif::client::bare_command_message(
                        tipc::CommandType::CloseSession.spec_value(),
                    ),
                ),
            }
        },
    }
}

/// Whether ending the object behind `info` releases its handle: the object
/// is reached by its own handle and owns it. Closing a domain object never
/// releases the handle, which other objects of the domain may still use.
pub open spec fn releases_handle(info: ObjectInfo) -> bool {
    info.state() == ObjectState::Plain && info.owns_handle
}

/// A remote object that this side holds open.
#[derive(Debug)]
pub struct Session {
    pub object_info: ObjectInfo,
}

impl Default for Session {
    fn default() -> (s: Self)
        ensures
            s.object_info == ObjectInfo::spec_new(),
    {
        Self { object_info: ObjectInfo::new() }
    }
}

impl Session {
    /// A session that holds nothing.
    pub fn new() -> (s: Self)
        ensures
            s.object_info == ObjectInfo::spec_new(),
            s.object_info.state() == ObjectState::Invalid,
    {
        Self { object_info: ObjectInfo::new() }
    }

    pub fn from(object_info: ObjectInfo) -> (s: Self)
        ensures
            s.object_info == object_info,
    {
        Self { object_info }
    }

    /// A session over `handle`, which it owns; not a domain.
    pub fn from_handle(handle: SvcHandle) -> (s: Self)
        ensures
            s.object_info == (ObjectInfo {
                handle,
                domain_object_id: INVALID_DOMAIN_OBJECT_ID,
                owns_handle: true,
                protocol: CommandProtocol::Cmif,
            }),
    {
        Self::from(ObjectInfo::from_handle(handle))
    }

    /// Writes into `msg` the request that turns the session's object into a
    /// domain. Fails with `ResultInvalidProtocol`, leaving `msg` as it is,
    /// exactly when the session speaks the secondary protocol.
    pub fn convert_to_domain_request(&self, msg: &mut Vec<u8>) -> (r: Result<(), ResultCode>)
        ensures
            match r {
                Ok(()) => self.object_info.protocol == CommandProtocol::Cmif && final(msg)@
                    == cmif::client::bare_control_message(
                    cmif::ControlRequestId::ConvertCurrentObjectToDomain,
                ),
                Err(rc) => self.object_info.protocol == CommandProtocol::Tipc && rc == code_of::<
                    ResultInvalidProtocol,
                >() && final(msg)@ == old(msg)@,
            },
    {
        self.object_info.convert_current_object_to_domain_request(msg)
    }

    /// Completes the conversion into a domain with `reply`, the message that
    /// answered the request, or the error with which sending it failed. On
    /// success the id that the reply names, which is not zero, is recorded
    /// and nothing else changes: a session that holds an object is a domain
    /// object from then on. On failure, which a reply that names the id zero
    /// is too, nothing changes at all and the error is handed on.
    #[verifier::rlimit(50)]
    pub fn convert_to_domain(&mut self, reply: Result<Vec<u8>, ResultCode>) -> (r: Result<
        (),
        ResultCode,
    >)
        ensures
            match (match reply {
                Ok(msg) => convert_reply(msg@),
                Err(rc) => Err(rc),
            }) {
                Ok(id) => {
                    &&& r.is_ok()
                    &&& id != INVALID_DOMAIN_OBJECT_ID
                    &&& final(self).object_info == (ObjectInfo {
                        domain_object_id: id,
                        ..old(self).object_info
                    })
                    &&& old(self).object_info.state() != ObjectState::Invalid ==> final(self).object_info.state() == ObjectState::Domain
                },
                Err(rc) => r == Err::<(), ResultCode>(rc) && final(self).object_info == old(self).object_info,
            },
    {
        match reply {
            Err(rc) => Err(rc),
            Ok(msg) => match self.object_info.convert_current_object_to_domain_reply(&msg) {
                Err(rc) => Err(rc),
                Ok(id) => {
                    self.object_info.domain_object_id = id;
                    Ok(())
                },
            },
        }
    }

    pub fn get_info(&mut self) -> (info: &mut ObjectInfo)
        ensures
            *info == old(self).object_info,
            final(self).object_info == *final(info),
    {
        &mut self.object_info
    }

    pub fn set_info(&mut self, info: ObjectInfo)
        ensures
            final(self).object_info == info,
    {
        self.object_info = info;
    }

    /// Ends the session: it holds nothing afterwards. Returns what is left
    /// for the caller to do: the message to send, where the object gets one,
    /// and whether to release the handle. A session that holds nothing stays
    /// as it is and gets neither, so that closing twice does no more than
    /// closing once.
    #[verifier::rlimit(50)]
    pub fn close(&mut self) -> (actions: CloseActions)
        ensures
            final(self).object_info.state() == ObjectState::Invalid,
            final(self).object_info == if old(self).object_info.state() == ObjectState::Invalid {
                old(self).object_info
            } else {
                ObjectInfo::spec_new()
            },
            actions.handle == old(self).object_info.handle,
            actions.close_handle == releases_handle(old(self).object_info),
            match close_message(old(self).object_info) {
                Some(bytes) => actions.message.is_some() && actions.message.unwrap()@ == bytes,
                None => actions.message.is_none(),
            },
    {
        let info = self.object_info;
        let mut actions = CloseActions { handle: info.handle, message: None, close_handle: false };
        if info.is_valid() {
            if info.is_domain() {
                let mut ctx = CommandContext::new_client(info);
                let ghost fresh = ctx;
                let mut msg: Vec<u8> = Vec::new();
                cmif::client::write_request_command_on_msg_buffer(
                    &mut ctx,
                    &mut msg,
                    None,
                    cmif::DomainCommandType::Close,
                );
                proof {
                    cmif::client::lemma_domain_message_of_fresh(
                        info,
                        cmif::DomainCommandType::Close,
                    );
                    assert(fresh.is_fresh(info, 0));
                }
                actions.message = Some(msg);
            } else if info.owns_handle {
                let mut ctx = CommandContext::new_client(info);
                let ghost fresh = ctx;
                let mut msg: Vec<u8> = Vec::new();
                match info.protocol {
                    CommandProtocol::Cmif => {
                        cmif::client::write_close_command_on_msg_buffer(&mut ctx, &mut msg);
                        proof {
                            cmif::client::lemma_command_message_of_fresh(
                                info,
                                cmif::CommandType::Close,
                            );
                            assert(fresh.is_fresh(info, 0));
                        }
                    },
                    CommandProtocol::Tipc => {
                        tipc::client::write_close_command_on_msg_buffer(&mut ctx, &mut msg);
                        proof {
                            tipc::client::lemma_command_message_of_fresh(
                                info,
                                tipc::CommandType::CloseSession.spec_value(),
                            );
                            assert(fresh.is_fresh(info, 0));
                        }
                    },
                }
                actions.message = Some(msg);
                actions.close_handle = true;
            }
            self.object_info = ObjectInfo::new();
        }
        actions
    }
}

/// Closing a session that was closed sends nothing and releases nothing, and
/// leaves the session as it is: closing twice is closing once.
pub proof fn lemma_close_is_idempotent(closed: Session)
    requires
        closed.object_info.state() == ObjectState::Invalid,
    ensures
        close_message(closed.object_info).is_none(),
        !releases_handle(closed.object_info),
{
}

/// What a conversion makes of its reply: the id to record, or the error to
/// hand on. `reply` is the message that answered the request, or the error
/// with which sending it failed.
pub open spec fn conversion_outcome(reply: Result<Seq<u8>, ResultCode>) -> Result<
    DomainObjectId,
    ResultCode,
> {
    match reply {
        Ok(msg) => convert_reply(msg),
        Err(rc) => Err(rc),
    }
}

/// A conversion into a domain either succeeds, and the session is then a
/// domain object with the id that the reply named, or fails, and the session
/// is as it was. `after` is the session that `convert_to_domain` leaves for
/// `before` and `reply`.
pub proof fn lemma_conversion_is_all_or_nothing(
    before: Session,
    after: Session,
    reply: Result<Seq<u8>, ResultCode>,
)
    requires
        before.object_info.state() != ObjectState::Invalid,
        match conversion_outcome(reply) {
            Ok(id) => after.object_info == (ObjectInfo {
                domain_object_id: id,
                ..before.object_info
            }),
            Err(rc) => after.object_info == before.object_info,
        },
    ensures
        match conversion_outcome(reply) {
            Ok(id) => after.object_info.state() == ObjectState::Domain
                && after.object_info.domain_object_id == id && after.object_info.handle
                == before.object_info.handle,
            Err(rc) => after.object_info.state() == before.object_info.state() && after == before,
        },
{
}

} // verus!
