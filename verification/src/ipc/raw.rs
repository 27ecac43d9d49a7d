//! Little-endian byte forms of the values that travel in the raw-data region.

use vstd::prelude::*;

verus! {

/// The two bytes of `x`, least significant first.
pub open spec fn le_bytes_u16(x: u16) -> Seq<u8> {
    seq![(x % 256) as u8, (x / 256) as u8]
}

/// The value whose two bytes, least significant first, start `s`.
pub open spec fn le_value_u16(s: Seq<u8>) -> u16
    recommends
        s.len() >= 2,
{
    (s[0] + s[1] * 256) as u16
}

/// The four bytes of `x`, least significant first.
pub open spec fn le_bytes_u32(x: u32) -> Seq<u8> {
    seq![
        (x % 256) as u8,
        ((x / 256) % 256) as u8,
        ((x / 65536) % 256) as u8,
        (x / 16777216) as u8,
    ]
}

/// The value whose four bytes, least significant first, start `s`.
pub open spec fn le_value_u32(s: Seq<u8>) -> u32
    recommends
        s.len() >= 4,
{
    (s[0] + s[1] * 256 + s[2] * 65536 + s[3] * 16777216) as u32
}

/// The eight bytes of `x`, least significant first.
pub open spec fn le_bytes_u64(x: u64) -> Seq<u8> {
    le_bytes_u32((x % 0x1_0000_0000) as u32) + le_bytes_u32((x / 0x1_0000_0000) as u32)
}

/// The value whose eight bytes, least significant first, start `s`.
pub open spec fn le_value_u64(s: Seq<u8>) -> u64
    recommends
        s.len() >= 8,
{
    (le_value_u32(s.subrange(0, 4)) + le_value_u32(s.subrange(4, 8)) * 0x1_0000_0000) as u64
}

/// Reading back the bytes of a 16-bit value gives the value.
pub proof fn lemma_le_u16_round_trip(x: u16)
    ensures
        le_bytes_u16(x).len() == 2,
        le_value_u16(le_bytes_u16(x)) == x,
{
}

/// Reading back the bytes of a 32-bit value gives the value.
pub proof fn lemma_le_u32_round_trip(x: u32)
    ensures
        le_bytes_u32(x).len() == 4,
        le_value_u32(le_bytes_u32(x)) == x,
{
}

/// Reading back the bytes of a 64-bit value gives the value.
pub proof fn lemma_le_u64_round_trip(x: u64)
    ensures
        le_bytes_u64(x).len() == 8,
        le_value_u64(le_bytes_u64(x)) == x,
{
    let lo = (x % 0x1_0000_0000) as u32;
    let hi = (x / 0x1_0000_0000) as u32;
    let s = le_bytes_u64(x);
    assert(s.subrange(0, 4) =~= le_bytes_u32(lo));
    assert(s.subrange(4, 8) =~= le_bytes_u32(hi));
    lemma_le_u32_round_trip(lo);
    lemma_le_u32_round_trip(hi);
}

/// Appends the two bytes of `x` to `out`.
pub fn push_u16(out: &mut Vec<u8>, x: u16)
    ensures
        final(out)@ == old(out)@ + le_bytes_u16(x),
{
    out.push((x % 256) as u8);
    out.push((x / 256) as u8);
    assert(out@ =~= old(out)@ + le_bytes_u16(x));
}

/// Appends the four bytes of `x` to `out`.
pub fn push_u32(out: &mut Vec<u8>, x: u32)
    ensures
        final(out)@ == old(out)@ + le_bytes_u32(x),
{
    out.push((x % 256) as u8);
    out.push(((x / 256) % 256) as u8);
    out.push(((x / 65536) % 256) as u8);
    out.push((x / 16777216) as u8);
    assert(out@ =~= old(out)@ + le_bytes_u32(x));
}

/// Appends the eight bytes of `x` to `out`.
pub fn push_u64(out: &mut Vec<u8>, x: u64)
    ensures
        final(out)@ == old(out)@ + le_bytes_u64(x),
{
    push_u32(out, (x % 0x1_0000_0000) as u32);
    push_u32(out, (x / 0x1_0000_0000) as u32);
    assert(out@ =~= old(out)@ + le_bytes_u64(x));
}

/// Appends `count` zero bytes to `out`.
pub fn push_zeros(out: &mut Vec<u8>, count: usize)
    ensures
        final(out)@ == old(out)@ + zeros(count as nat),
{
    let mut i: usize = 0;
    while i < count
        invariant
            i <= count,
            out@ == old(out)@ + zeros(i as nat),
        decreases count - i,
    {
        out.push(0u8);
        i = i + 1;
        assert(out@ =~= old(out)@ + zeros(i as nat));
    }
}

/// `count` zero bytes.
pub open spec fn zeros(count: nat) -> Seq<u8> {
    Seq::new(count, |i: int| 0u8)
}

/// The 16-bit value at `at` in `buf`.
pub fn read_u16(buf: &Vec<u8>, at: usize) -> (x: u16)
    requires
        at + 2 <= buf@.len(),
    ensures
        x == le_value_u16(buf@.subrange(at as int, at + 2)),
{
    let _len: usize = buf.len();
    let b0: u16 = buf[at] as u16;
    let b1: u16 = buf[at + 1] as u16;
    b0 + b1 * 256
}

/// The 32-bit value at `at` in `buf`.
pub fn read_u32(buf: &Vec<u8>, at: usize) -> (x: u32)
    requires
        at + 4 <= buf@.len(),
    ensures
        x == le_value_u32(buf@.subrange(at as int, at + 4)),
{
    let _len: usize = buf.len();
    let b0: u32 = buf[at] as u32;
    let b1: u32 = buf[at + 1] as u32;
    let b2: u32 = buf[at + 2] as u32;
    let b3: u32 = buf[at + 3] as u32;
    b0 + b1 * 256 + b2 * 65536 + b3 * 16777216
}

/// The 64-bit value at `at` in `buf`.
pub fn read_u64(buf: &Vec<u8>, at: usize) -> (x: u64)
    requires
        at + 8 <= buf@.len(),
    ensures
        x == le_value_u64(buf@.subrange(at as int, at + 8)),
{
    let _len: usize = buf.len();
    let lo: u64 = read_u32(buf, at) as u64;
    let hi: u64 = read_u32(buf, at + 4) as u64;
    proof {
        let s = buf@.subrange(at as int, at + 8);
        assert(s.subrange(0, 4) =~= buf@.subrange(at as int, at + 4));
        assert(s.subrange(4, 8) =~= buf@.subrange(at + 4, at + 8));
    }
    lo + hi * 0x1_0000_0000
}

/// `buf` with the bytes from `at` on replaced by `bytes`.
pub open spec fn put(buf: Seq<u8>, at: int, bytes: Seq<u8>) -> Seq<u8>
    recommends
        0 <= at,
        at + bytes.len() <= buf.len(),
{
    Seq::new(
        buf.len(),
        |i: int|
            if at <= i < at + bytes.len() {
                bytes[i - at]
            } else {
                buf[i]
            },
    )
}

/// Overwrites the bytes of `buf` from `at` on with `bytes`.
pub fn write_at(buf: &mut Vec<u8>, at: usize, bytes: &Vec<u8>)
    requires
        at + bytes@.len() <= old(buf)@.len(),
    ensures
        final(buf)@ == put(old(buf)@, at as int, bytes@),
{
    let n = bytes.len();
    let len: usize = buf.len();
    let mut i: usize = 0;
    while i < n
        invariant
            i <= n,
            n == bytes@.len(),
            len == buf@.len(),
            at + n <= len,
            buf@ == put(old(buf)@, at as int, bytes@.subrange(0, i as int)),
        decreases n - i,
    {
        buf.set(at + i, bytes[i]);
        i = i + 1;
        assert(buf@ =~= put(old(buf)@, at as int, bytes@.subrange(0, i as int)));
    }
    assert(bytes@.subrange(0, n as int) =~= bytes@);
    assert(buf@ =~= put(old(buf)@, at as int, bytes@));
}

/// What was put at a place is what is there, and the rest is untouched.
pub proof fn lemma_put_then_read(buf: Seq<u8>, at: int, bytes: Seq<u8>)
    requires
        0 <= at,
        at + bytes.len() <= buf.len(),
    ensures
        put(buf, at, bytes).len() == buf.len(),
        put(buf, at, bytes).subrange(at, at + bytes.len()) == bytes,
        put(buf, at, bytes).subrange(0, at) == buf.subrange(0, at),
        put(buf, at, bytes).subrange(at + bytes.len(), buf.len() as int) == buf.subrange(
            at + bytes.len(),
            buf.len() as int,
        ),
{
    let p = put(buf, at, bytes);
    assert(p.subrange(at, at + bytes.len()) =~= bytes);
    assert(p.subrange(0, at) =~= buf.subrange(0, at));
    assert(p.subrange(at + bytes.len(), buf.len() as int) =~= buf.subrange(
        at + bytes.len(),
        buf.len() as int,
    ));
}

/// The middle of three joined sequences is found again at its place.
pub proof fn lemma_concat_part<A>(a: Seq<A>, b: Seq<A>, c: Seq<A>)
    ensures
        (a + b + c).len() == a.len() + b.len() + c.len(),
        (a + b + c).subrange(a.len() as int, (a.len() + b.len()) as int) == b,
        (a + b + c).subrange(0, a.len() as int) == a,
{
    assert((a + b + c).subrange(a.len() as int, (a.len() + b.len()) as int) =~= b);
    assert((a + b + c).subrange(0, a.len() as int) =~= a);
}

/// Joining is associative, and joining nothing changes nothing.
pub proof fn lemma_concat_assoc<A>(a: Seq<A>, b: Seq<A>, c: Seq<A>)
    ensures
        (a + b) + c == a + (b + c),
        Seq::<A>::empty() + a == a,
        a + Seq::<A>::empty() == a,
{
    assert((a + b) + c =~= a + (b + c));
    assert(Seq::<A>::empty() + a =~= a);
    assert(a + Seq::<A>::empty() =~= a);
}

/// A part of a part is a part of the whole.
pub proof fn lemma_subrange_twice<A>(s: Seq<A>, i: int, j: int, k: int, l: int)
    requires
        0 <= i <= j <= s.len(),
        0 <= k <= l <= j - i,
    ensures
        s.subrange(i, j).subrange(k, l) == s.subrange(i + k, i + l),
{
    assert(s.subrange(i, j).subrange(k, l) =~= s.subrange(i + k, i + l));
}

/// An item of one of a message's lists, with its byte form on the wire.
pub trait Wire {
    /// The item's bytes on the wire.
    spec fn spec_wire(&self) -> Seq<u8>;

    /// Appends the item's bytes to `out`.
    fn write_wire(&self, out: &mut Vec<u8>)
        ensures
            final(out)@ == old(out)@ + self.spec_wire(),
    ;
}

impl Wire for u16 {
    open spec fn spec_wire(&self) -> Seq<u8> {
        le_bytes_u16(*self)
    }

    fn write_wire(&self, out: &mut Vec<u8>) {
        push_u16(out, *self);
    }
}

impl Wire for u32 {
    open spec fn spec_wire(&self) -> Seq<u8> {
        le_bytes_u32(*self)
    }

    fn write_wire(&self, out: &mut Vec<u8>) {
        push_u32(out, *self);
    }
}

/// The bytes of the items of a list, one item after the other.
pub open spec fn wire_all<W: Wire>(items: Seq<W>) -> Seq<u8>
    decreases items.len(),
{
    if items.len() == 0 {
        Seq::empty()
    } else {
        wire_all(items.drop_last()) + items.last().spec_wire()
    }
}

/// Appends the bytes of every item of `items`, in order, to `out`.
pub fn write_all<W: Wire>(items: &Vec<W>, out: &mut Vec<u8>)
    ensures
        final(out)@ == old(out)@ + wire_all(items@),
{
    let n = items.len();
    let mut i: usize = 0;
    assert(old(out)@ + wire_all(items@.subrange(0, 0)) =~= old(out)@);
    while i < n
        invariant
            i <= n,
            n == items@.len(),
            out@ == old(out)@ + wire_all(items@.subrange(0, i as int)),
        decreases n - i,
    {
        items[i].write_wire(out);
        proof {
            let next = items@.subrange(0, i + 1);
            assert(next.drop_last() =~= items@.subrange(0, i as int));
            assert(next.last() == items@[i as int]);
            assert(out@ =~= old(out)@ + wire_all(next));
        }
        i = i + 1;
    }
    assert(items@.subrange(0, n as int) =~= items@);
}

/// A list of items that all take `width` bytes takes `width` bytes an item.
pub proof fn lemma_wire_all_len<W: Wire>(items: Seq<W>, width: nat)
    requires
        forall|i: int| 0 <= i < items.len() ==> (#[trigger] items[i]).spec_wire().len() == width,
    ensures
        wire_all(items).len() == items.len() * width,
    decreases items.len(),
{
    if items.len() > 0 {
        lemma_wire_all_len(items.drop_last(), width);
        assert(items.len() * width == (items.len() - 1) * width + width) by (nonlinear_arith);
    }
}

/// A value with a fixed byte form in the raw-data region of a message.
pub trait RawValue: Copy {
    /// Number of bytes the value takes.
    spec fn spec_size() -> nat;

    /// Alignment of the value's offset in the region.
    spec fn spec_align() -> nat;

    /// The bytes that stand for the value.
    spec fn spec_bytes(self) -> Seq<u8>;

    /// The value that the first `spec_size()` bytes of `bytes` stand for.
    spec fn spec_value(bytes: Seq<u8>) -> Self;

    /// The alignment and the size are positive.
    proof fn lemma_layout()
        ensures
            Self::spec_align() > 0,
            Self::spec_size() > 0,
    ;

    /// The byte form has the stated size and reads back as the value.
    proof fn lemma_round_trip(v: Self)
        ensures
            v.spec_bytes().len() == Self::spec_size(),
            Self::spec_value(v.spec_bytes()) == v,
    ;

    fn size() -> (n: usize)
        ensures
            n == Self::spec_size(),
    ;

    fn align() -> (n: usize)
        ensures
            n == Self::spec_align(),
    ;

    /// The bytes of the value, in a vector.
    fn to_bytes(self) -> (bytes: Vec<u8>)
        ensures
            bytes@ == self.spec_bytes(),
    ;

    /// The value that stands at `at` in `buf`.
    fn read_at(buf: &Vec<u8>, at: usize) -> (v: Self)
        requires
            at + Self::spec_size() <= buf@.len(),
        ensures
            v == Self::spec_value(buf@.subrange(at as int, at + Self::spec_size())),
    ;
}

impl RawValue for u8 {
    open spec fn spec_size() -> nat {
        1
    }

    open spec fn spec_align() -> nat {
        1
    }

    open spec fn spec_bytes(self) -> Seq<u8> {
        seq![self]
    }

    open spec fn spec_value(bytes: Seq<u8>) -> Self {
        bytes[0]
    }

    proof fn lemma_layout() {
    }

    proof fn lemma_round_trip(v: Self) {
    }

    fn size() -> (n: usize) {
        1
    }

    fn align() -> (n: usize) {
        1
    }

    fn to_bytes(self) -> (bytes: Vec<u8>) {
        let mut bytes: Vec<u8> = Vec::new();
        bytes.push(self);
        assert(bytes@ =~= seq![self]);
        bytes
    }

    fn read_at(buf: &Vec<u8>, at: usize) -> (v: Self) {
        buf[at]
    }
}

impl RawValue for bool {
    open spec fn spec_size() -> nat {
        1
    }

    open spec fn spec_align() -> nat {
        1
    }

    open spec fn spec_bytes(self) -> Seq<u8> {
        seq![if self { 1u8 } else { 0u8 }]
    }

    open spec fn spec_value(bytes: Seq<u8>) -> Self {
        bytes[0] != 0
    }

    proof fn lemma_layout() {
    }

    proof fn lemma_round_trip(v: Self) {
    }

    fn size() -> (n: usize) {
        1
    }

    fn align() -> (n: usize) {
        1
    }

    fn to_bytes(self) -> (bytes: Vec<u8>) {
        let mut bytes: Vec<u8> = Vec::new();
        bytes.push(if self { 1u8 } else { 0u8 });
        assert(bytes@ =~= self.spec_bytes());
        bytes
    }

    fn read_at(buf: &Vec<u8>, at: usize) -> (v: Self) {
        buf[at] != 0
    }
}

impl RawValue for u16 {
    open spec fn spec_size() -> nat {
        2
    }

    open spec fn spec_align() -> nat {
        2
    }

    open spec fn spec_bytes(self) -> Seq<u8> {
        le_bytes_u16(self)
    }

    open spec fn spec_value(bytes: Seq<u8>) -> Self {
        le_value_u16(bytes)
    }

    proof fn lemma_layout() {
    }

    proof fn lemma_round_trip(v: Self) {
        lemma_le_u16_round_trip(v);
    }

    fn size() -> (n: usize) {
        2
    }

    fn align() -> (n: usize) {
        2
    }

    fn to_bytes(self) -> (bytes: Vec<u8>) {
        let mut bytes: Vec<u8> = Vec::new();
        push_u16(&mut bytes, self);
        assert(bytes@ =~= le_bytes_u16(self));
        bytes
    }

    fn read_at(buf: &Vec<u8>, at: usize) -> (v: Self) {
        read_u16(buf, at)
    }
}

impl RawValue for u32 {
    open spec fn spec_size() -> nat {
        4
    }

    open spec fn spec_align() -> nat {
        4
    }

    open spec fn spec_bytes(self) -> Seq<u8> {
        le_bytes_u32(self)
    }

    open spec fn spec_value(bytes: Seq<u8>) -> Self {
        le_value_u32(bytes)
    }

    proof fn lemma_layout() {
    }

    proof fn lemma_round_trip(v: Self) {
        lemma_le_u32_round_trip(v);
    }

    fn size() -> (n: usize) {
        4
    }

    fn align() -> (n: usize) {
        4
    }

    fn to_bytes(self) -> (bytes: Vec<u8>) {
        let mut bytes: Vec<u8> = Vec::new();
        push_u32(&mut bytes, self);
        assert(bytes@ =~= le_bytes_u32(self));
        bytes
    }

    fn read_at(buf: &Vec<u8>, at: usize) -> (v: Self) {
        read_u32(buf, at)
    }
}

impl RawValue for u64 {
    open spec fn spec_size() -> nat {
        8
    }

    open spec fn spec_align() -> nat {
        8
    }

    open spec fn spec_bytes(self) -> Seq<u8> {
        le_bytes_u64(self)
    }

    open spec fn spec_value(bytes: Seq<u8>) -> Self {
        le_value_u64(bytes)
    }

    proof fn lemma_layout() {
    }

    proof fn lemma_round_trip(v: Self) {
        lemma_le_u64_round_trip(v);
    }

    fn size() -> (n: usize) {
        8
    }

    fn align() -> (n: usize) {
        8
    }

    fn to_bytes(self) -> (bytes: Vec<u8>) {
        let mut bytes: Vec<u8> = Vec::new();
        push_u64(&mut bytes, self);
        assert(bytes@ =~= le_bytes_u64(self));
        bytes
    }

    fn read_at(buf: &Vec<u8>, at: usize) -> (v: Self) {
        read_u64(buf, at)
    }
}

impl RawValue for i8 {
    open spec fn spec_size() -> nat {
        1
    }

    open spec fn spec_align() -> nat {
        1
    }

    /// The bytes of the value's two's complement.
    open spec fn spec_bytes(self) -> Seq<u8> {
        (self as u8).spec_bytes()
    }

    open spec fn spec_value(bytes: Seq<u8>) -> Self {
        u8::spec_value(bytes) as i8
    }

    proof fn lemma_layout() {
    }

    proof fn lemma_round_trip(v: Self) {
        u8::lemma_round_trip(v as u8);
        assert((v as u8) as i8 == v) by (bit_vector);
    }

    fn size() -> (n: usize) {
        1
    }

    fn align() -> (n: usize) {
        1
    }

    fn to_bytes(self) -> (bytes: Vec<u8>) {
        let unsigned: u8 = #[verifier::truncate]
        (self as u8);
        unsigned.to_bytes()
    }

    fn read_at(buf: &Vec<u8>, at: usize) -> (v: Self) {
        let unsigned: u8 = u8::read_at(buf, at);
        #[verifier::truncate]
        (unsigned as i8)
    }
}

impl RawValue for i16 {
    open spec fn spec_size() -> nat {
        2
    }

    open spec fn spec_align() -> nat {
        2
    }

    /// The bytes of the value's two's complement.
    open spec fn spec_bytes(self) -> Seq<u8> {
        (self as u16).spec_bytes()
    }

    open spec fn spec_value(bytes: Seq<u8>) -> Self {
        u16::spec_value(bytes) as i16
    }

    proof fn lemma_layout() {
    }

    proof fn lemma_round_trip(v: Self) {
        u16::lemma_round_trip(v as u16);
        assert((v as u16) as i16 == v) by (bit_vector);
    }

    fn size() -> (n: usize) {
        2
    }

    fn align() -> (n: usize) {
        2
    }

    fn to_bytes(self) -> (bytes: Vec<u8>) {
        let unsigned: u16 = #[verifier::truncate]
        (self as u16);
        unsigned.to_bytes()
    }

    fn read_at(buf: &Vec<u8>, at: usize) -> (v: Self) {
        let unsigned: u16 = u16::read_at(buf, at);
        #[verifier::truncate]
        (unsigned as i16)
    }
}

impl RawValue for i32 {
    open spec fn spec_size() -> nat {
        4
    }

    open spec fn spec_align() -> nat {
        4
    }

    /// The bytes of the value's two's complement.
    open spec fn spec_bytes(self) -> Seq<u8> {
        (self as u32).spec_bytes()
    }

    open spec fn spec_value(bytes: Seq<u8>) -> Self {
        u32::spec_value(bytes) as i32
    }

    proof fn lemma_layout() {
    }

    proof fn lemma_round_trip(v: Self) {
        u32::lemma_round_trip(v as u32);
        assert((v as u32) as i32 == v) by (bit_vector);
    }

    fn size() -> (n: usize) {
        4
    }

    fn align() -> (n: usize) {
        4
    }

    fn to_bytes(self) -> (bytes: Vec<u8>) {
        let unsigned: u32 = #[verifier::truncate]
        (self as u32);
        unsigned.to_bytes()
    }

    fn read_at(buf: &Vec<u8>, at: usize) -> (v: Self) {
        let unsigned: u32 = u32::read_at(buf, at);
        #[verifier::truncate]
        (unsigned as i32)
    }
}

impl RawValue for i64 {
    open spec fn spec_size() -> nat {
        8
    }

    open spec fn spec_align() -> nat {
        8
    }

    /// The bytes of the value's two's complement.
    open spec fn spec_bytes(self) -> Seq<u8> {
        (self as u64).spec_bytes()
    }

    open spec fn spec_value(bytes: Seq<u8>) -> Self {
        u64::spec_value(bytes) as i64
    }

    proof fn lemma_layout() {
    }

    proof fn lemma_round_trip(v: Self) {
        u64::lemma_round_trip(v as u64);
        assert((v as u64) as i64 == v) by (bit_vector);
    }

    fn size() -> (n: usize) {
        8
    }

    fn align() -> (n: usize) {
        8
    }

    fn to_bytes(self) -> (bytes: Vec<u8>) {
        let unsigned: u64 = #[verifier::truncate]
        (self as u64);
        unsigned.to_bytes()
    }

    fn read_at(buf: &Vec<u8>, at: usize) -> (v: Self) {
        let unsigned: u64 = u64::read_at(buf, at);
        #[verifier::truncate]
        (unsigned as i64)
    }
}

/// The bytes of the values of a range, one value after the other.
pub open spec fn bytes_of_all<U: RawValue>(items: Seq<U>) -> Seq<u8>
    decreases items.len(),
{
    if items.len() == 0 {
        Seq::empty()
    } else {
        bytes_of_all(items.drop_last()) + items.last().spec_bytes()
    }
}

/// The values of type `T` that `bytes` stand for, read one after the other;
/// bytes at the end that do not make up a value are left out.
pub open spec fn values_of<T: RawValue>(bytes: Seq<u8>) -> Seq<T> {
    Seq::new(
        (bytes.len() / T::spec_size()) as nat,
        |i: int| T::spec_value(bytes.subrange(i * T::spec_size(), (i + 1) * T::spec_size())),
    )
}

/// The bytes of a range take the size of a value for each value.
pub proof fn lemma_bytes_of_all_len<U: RawValue>(items: Seq<U>)
    ensures
        bytes_of_all(items).len() == items.len() * U::spec_size(),
    decreases items.len(),
{
    if items.len() > 0 {
        lemma_bytes_of_all_len(items.drop_last());
        U::lemma_round_trip(items.last());
        assert(items.len() * U::spec_size() == (items.len() - 1) * U::spec_size()
            + U::spec_size()) by (nonlinear_arith);
    }
}

/// The bytes of the values of `items`, one value after the other.
pub fn all_to_bytes<U: RawValue>(items: &Vec<U>) -> (bytes: Vec<u8>)
    ensures
        bytes@ == bytes_of_all(items@),
        bytes@.len() == items@.len() * U::spec_size(),
{
    let n = items.len();
    let mut bytes: Vec<u8> = Vec::new();
    let mut i: usize = 0;
    assert(items@.subrange(0, 0) =~= Seq::<U>::empty());
    while i < n
        invariant
            i <= n,
            n == items@.len(),
            bytes@ == bytes_of_all(items@.subrange(0, i as int)),
        decreases n - i,
    {
        let mut one = items[i].to_bytes();
        bytes.append(&mut one);
        proof {
            let next = items@.subrange(0, i + 1);
            assert(next.drop_last() =~= items@.subrange(0, i as int));
            assert(next.last() == items@[i as int]);
        }
        i = i + 1;
    }
    proof {
        assert(items@.subrange(0, n as int) =~= items@);
        lemma_bytes_of_all_len(items@);
    }
    bytes
}

/// The values of type `T` that `bytes` stand for, read one after the other.
pub fn all_from_bytes<T: RawValue>(bytes: &Vec<u8>) -> (items: Vec<T>)
    ensures
        items@ == values_of::<T>(bytes@),
{
    proof {
        T::lemma_layout();
    }
    let size = T::size();
    let len = bytes.len();
    let count = len / size;
    let mut items: Vec<T> = Vec::new();
    let mut i: usize = 0;
    let mut at: usize = 0;
    proof {
        vstd::arithmetic::div_mod::lemma_fundamental_div_mod(len as int, size as int);
    }
    while i < count
        invariant
            i <= count,
            size == T::spec_size(),
            size > 0,
            len == bytes@.len(),
            count == len / size,
            size * count <= len,
            at == i * size,
            items@ == Seq::new(
                i as nat,
                |j: int|
                    T::spec_value(bytes@.subrange(j * T::spec_size(), (j + 1) * T::spec_size())),
            ),
        decreases count - i,
    {
        assert(at + size <= len) by (nonlinear_arith)
            requires
                at == i * size,
                i < count,
                size * count <= len,
                size > 0,
        ;
        assert((i + 1) * size == at + size) by (nonlinear_arith)
            requires
                at == i * size,
        ;
        let item = T::read_at(bytes, at);
        items.push(item);
        at = at + size;
        i = i + 1;
        assert(items@ =~= Seq::new(
            i as nat,
            |j: int| T::spec_value(bytes@.subrange(j * T::spec_size(), (j + 1) * T::spec_size())),
        ));
    }
    assert(items@ =~= values_of::<T>(bytes@));
    items
}

/// The value at place `i` of a range is found again in the bytes of the
/// range, at `i` times the size of a value.
pub proof fn lemma_bytes_of_item<T: RawValue>(items: Seq<T>, i: int)
    requires
        0 <= i < items.len(),
    ensures
        (i + 1) * T::spec_size() <= bytes_of_all(items).len(),
        bytes_of_all(items).subrange(i * T::spec_size(), (i + 1) * T::spec_size())
            == items[i].spec_bytes(),
    decreases items.len(),
{
    let size = T::spec_size() as int;
    let front = items.drop_last();
    let head = bytes_of_all(front);
    let last = items.last().spec_bytes();
    lemma_bytes_of_all_len(front);
    lemma_bytes_of_all_len(items);
    T::lemma_round_trip(items.last());
    assert(items.len() * size == (items.len() - 1) * size + size) by (nonlinear_arith);
    if i == items.len() - 1 {
        assert(head.len() == i * size);
        assert((head + last).subrange(i * size, (i + 1) * size) =~= last) by {
            assert((i + 1) * size == i * size + size) by (nonlinear_arith);
        }
    } else {
        lemma_bytes_of_item(front, i);
        assert((head + last).subrange(i * size, (i + 1) * size) =~= head.subrange(
            i * size,
            (i + 1) * size,
        )) by {
            assert(0 <= i * size <= (i + 1) * size) by (nonlinear_arith)
                requires
                    0 <= i,
                    size >= 0,
            ;
        }
        assert((i + 1) * size <= items.len() * size) by (nonlinear_arith)
            requires
                i + 1 <= items.len(),
                size >= 0,
        ;
    }
}

/// Reading the bytes of a range as values of its own type gives the range.
pub proof fn lemma_values_of_own_bytes<T: RawValue>(items: Seq<T>)
    ensures
        values_of::<T>(bytes_of_all(items)) == items,
{
    T::lemma_layout();
    lemma_bytes_of_all_len(items);
    let size = T::spec_size() as int;
    let bytes = bytes_of_all(items);
    assert(bytes.len() as int / size == items.len()) by {
        vstd::arithmetic::div_mod::lemma_div_by_multiple(items.len() as int, size);
    }
    assert forall|i: int| 0 <= i < items.len() implies T::spec_value(
        bytes.subrange(i * size, (i + 1) * size),
    ) == items[i] by {
        lemma_bytes_of_item(items, i);
        T::lemma_round_trip(items[i]);
    }
    assert(values_of::<T>(bytes) =~= items);
}

/// For the integers and `bool`, the size of the byte form is the size of the
/// value in memory.
pub proof fn lemma_sizes_in_memory()
    ensures
        u8::spec_size() == vstd::layout::size_of::<u8>(),
        u16::spec_size() == vstd::layout::size_of::<u16>(),
        u32::spec_size() == vstd::layout::size_of::<u32>(),
        u64::spec_size() == vstd::layout::size_of::<u64>(),
        i8::spec_size() == vstd::layout::size_of::<i8>(),
        i16::spec_size() == vstd::layout::size_of::<i16>(),
        i32::spec_size() == vstd::layout::size_of::<i32>(),
        i64::spec_size() == vstd::layout::size_of::<i64>(),
        bool::spec_size() == vstd::layout::size_of::<bool>(),
{
}

} // verus!
