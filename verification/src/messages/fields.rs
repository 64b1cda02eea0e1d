//! The field codec: how a value of fixed width is read from and written to a
//! byte range of a buffer.
//!
//! Integers are little-endian. Keys and digests are their bytes.

use vstd::prelude::*;
use vstd::arithmetic::div_mod::lemma_div_denominator;
use crate::crypto::PublicKey;

verus! {

/// The number that `bytes` stand for, least significant byte first.
pub open spec fn le_value(bytes: Seq<u8>) -> nat
    decreases bytes.len(),
{
    if bytes.len() == 0 {
        0
    } else {
        bytes[0] as nat + 256 * le_value(bytes.drop_first())
    }
}

/// The `width` least significant bytes of `value`, least significant first.
pub open spec fn le_bytes(value: nat, width: nat) -> Seq<u8>
    decreases width,
{
    if width == 0 {
        Seq::empty()
    } else {
        seq![(value % 256) as u8] + le_bytes(value / 256, (width - 1) as nat)
    }
}

/// 256 to the power `width`: the number of values that `width` bytes can hold.
pub open spec fn radix(width: nat) -> nat
    decreases width,
{
    if width == 0 {
        1
    } else {
        256 * radix((width - 1) as nat)
    }
}

/// `buffer` with the bytes from `at` on replaced by `patch`.
pub open spec fn splice(buffer: Seq<u8>, at: int, patch: Seq<u8>) -> Seq<u8> {
    buffer.subrange(0, at) + patch + buffer.subrange(at + patch.len(), buffer.len() as int)
}

pub proof fn lemma_radix_values()
    ensures
        radix(0) == 1,
        radix(1) == 0x100,
        radix(2) == 0x1_0000,
        radix(4) == 0x1_0000_0000,
        radix(7) == 0x100_0000_0000_0000,
        radix(8) == 0x1_0000_0000_0000_0000,
{
    reveal_with_fuel(radix, 9);
}

pub proof fn lemma_radix_monotone(a: nat, b: nat)
    requires
        a <= b,
    ensures
        0 < radix(a) <= radix(b),
    decreases b,
{
    if b == 0 {
    } else if a == b {
        lemma_radix_monotone((a - 1) as nat, (b - 1) as nat);
    } else {
        lemma_radix_monotone(a, (b - 1) as nat);
    }
}

pub proof fn lemma_le_bytes_len(value: nat, width: nat)
    ensures
        le_bytes(value, width).len() == width,
    decreases width,
{
    if width > 0 {
        lemma_le_bytes_len(value / 256, (width - 1) as nat);
    }
}

/// Byte `index` of an encoding is digit `index` of the value in base 256.
pub proof fn lemma_le_bytes_index(value: nat, width: nat, index: int)
    requires
        0 <= index < width,
    ensures
        le_bytes(value, width).len() == width,
        le_bytes(value, width)[index] == ((value / radix(index as nat)) % 256) as u8,
    decreases width,
{
    lemma_le_bytes_len(value, width);
    let rest = le_bytes(value / 256, (width - 1) as nat);
    lemma_le_bytes_len(value / 256, (width - 1) as nat);
    if index > 0 {
        let below = radix((index - 1) as nat);
        lemma_le_bytes_index(value / 256, (width - 1) as nat, index - 1);
        lemma_radix_monotone(0, (index - 1) as nat);
        lemma_div_denominator(value as int, 256, below as int);
        assert(radix(index as nat) == 256 * below);
        assert(le_bytes(value, width)[index] == rest[index - 1]);
    } else {
        assert(radix(0) == 1);
        assert(value / 1 == value);
    }
}

pub proof fn lemma_le_value_bound(bytes: Seq<u8>)
    ensures
        le_value(bytes) < radix(bytes.len()),
    decreases bytes.len(),
{
    if bytes.len() > 0 {
        lemma_le_value_bound(bytes.drop_first());
    }
}

/// Decoding the encoding of a value that fits gives the value back.
pub proof fn lemma_le_value_of_bytes(value: nat, width: nat)
    requires
        value < radix(width),
    ensures
        le_bytes(value, width).len() == width,
        le_value(le_bytes(value, width)) == value,
    decreases width,
{
    lemma_le_bytes_len(value, width);
    if width > 0 {
        let rest = le_bytes(value / 256, (width - 1) as nat);
        lemma_le_value_of_bytes(value / 256, (width - 1) as nat);
        assert(le_bytes(value, width).drop_first() =~= rest);
    }
}

/// Encoding what a byte string decodes to, at its own width, gives the bytes
/// back: at a given width the encoding is one-to-one.
pub proof fn lemma_le_bytes_of_value(bytes: Seq<u8>)
    ensures
        le_bytes(le_value(bytes), bytes.len()) == bytes,
    decreases bytes.len(),
{
    if bytes.len() > 0 {
        lemma_le_bytes_of_value(bytes.drop_first());
        let rest = le_value(bytes.drop_first());
        assert((bytes[0] as nat + 256 * rest) / 256 == rest);
        assert((bytes[0] as nat + 256 * rest) % 256 == bytes[0] as nat);
        assert(le_bytes(le_value(bytes), bytes.len()) =~= bytes);
    }
}

/// Reads `width` bytes at `from` as a little-endian number.
pub fn read_le(buffer: &[u8], from: usize, width: usize) -> (value: u64)
    requires
        width <= 8,
        from + width <= buffer@.len(),
    ensures
        value == le_value(buffer@.subrange(from as int, from + width)),
        value < radix(width as nat),
{
    let len = buffer.len();
    let mut value: u64 = 0;
    let mut i: usize = width;
    while i > 0
        invariant
            i <= width <= 8,
            from + width <= len == buffer@.len(),
            value == le_value(buffer@.subrange(from + i, from + width)),
        decreases i,
    {
        i -= 1;
        proof {
            let tail = buffer@.subrange(from + i + 1, from + width);
            assert(buffer@.subrange(from + i, from + width).drop_first() =~= tail);
            lemma_le_value_bound(tail);
            lemma_radix_monotone(tail.len(), 7);
            lemma_radix_values();
        }
        value = value * 256 + buffer[from + i] as u64;
    }
    proof {
        lemma_le_value_bound(buffer@.subrange(from as int, from + width));
    }
    value
}

/// Writes the `width` least significant bytes of `value` at `from`, least
/// significant first. No other byte changes.
pub fn write_le(buffer: &mut Vec<u8>, from: usize, width: usize, value: u64)
    requires
        width <= 8,
        from + width <= old(buffer)@.len(),
    ensures
        final(buffer)@ == splice(old(buffer)@, from as int, le_bytes(value as nat, width as nat)),
        final(buffer)@.len() == old(buffer)@.len(),
{
    let len = buffer.len();
    let mut rest: u64 = value;
    let mut i: usize = 0;
    proof {
        lemma_radix_values();
        lemma_le_bytes_len(value as nat, width as nat);
    }
    while i < width
        invariant
            i <= width <= 8,
            from + width <= len == buffer@.len(),
            buffer@.len() == old(buffer)@.len(),
            le_bytes(value as nat, width as nat).len() == width,
            rest == value as nat / radix(i as nat),
            forall|j: int|
                0 <= j < from || from + i <= j < buffer@.len() ==> buffer@[j] == old(buffer)@[j],
            forall|j: int|
                0 <= j < i ==> buffer@[from + j] == le_bytes(value as nat, width as nat)[j],
        decreases width - i,
    {
        proof {
            lemma_le_bytes_index(value as nat, width as nat, i as int);
            lemma_radix_monotone(0, i as nat);
            lemma_div_denominator(value as int, radix(i as nat) as int, 256);
            assert(radix(i as nat) * 256 == radix((i + 1) as nat));
        }
        buffer.set(from + i, (rest % 256) as u8);
        rest = rest / 256;
        i += 1;
    }
    proof {
        lemma_le_bytes_len(value as nat, width as nat);
        assert(buffer@ =~= splice(old(buffer)@, from as int, le_bytes(value as nat, width as nat)));
    }
}

/// Writes `data` at `from`. No other byte changes.
pub fn write_bytes(buffer: &mut Vec<u8>, from: usize, data: &[u8])
    requires
        from + data@.len() <= old(buffer)@.len(),
    ensures
        final(buffer)@ == splice(old(buffer)@, from as int, data@),
        final(buffer)@.len() == old(buffer)@.len(),
{
    let len = buffer.len();
    let mut i: usize = 0;
    while i < data.len()
        invariant
            i <= data@.len(),
            from + data@.len() <= len == buffer@.len(),
            buffer@.len() == old(buffer)@.len(),
            forall|j: int|
                0 <= j < from || from + i <= j < buffer@.len() ==> buffer@[j] == old(buffer)@[j],
            forall|j: int| 0 <= j < i ==> buffer@[from + j] == data@[j],
        decreases data@.len() - i,
    {
        buffer.set(from + i, data[i]);
        i += 1;
    }
    proof {
        assert(buffer@ =~= splice(old(buffer)@, from as int, data@));
    }
}

/// The 32 bytes at `from`.
pub fn read_array32(buffer: &[u8], from: usize) -> (bytes: [u8; 32])
    requires
        from + 32 <= buffer@.len(),
    ensures
        bytes@ == buffer@.subrange(from as int, from + 32),
{
    let len = buffer.len();
    let mut bytes = [0u8; 32];
    let mut i: usize = 0;
    while i < 32
        invariant
            i <= 32,
            from + 32 <= len == buffer@.len(),
            forall|j: int| 0 <= j < i ==> bytes@[j] == buffer@[from + j],
        decreases 32 - i,
    {
        bytes[i] = buffer[from + i];
        i += 1;
    }
    proof {
        assert(bytes@ =~= buffer@.subrange(from as int, from + 32));
    }
    bytes
}

/// A value of fixed encoded width that a message body holds at a fixed place.
pub trait Field: Sized {
    /// The encoded width in bytes.
    spec fn field_size() -> nat;

    /// The bytes that stand for the value.
    spec fn encoding(&self) -> Seq<u8>;

    /// The width is not zero.
    proof fn lemma_field_size()
        ensures
            0 < Self::field_size(),
    ;

    /// Every encoding has the width of its type, and two values with one
    /// encoding are one value.
    proof fn lemma_encoding(a: Self, b: Self)
        ensures
            a.encoding().len() == Self::field_size(),
            a.encoding() == b.encoding() ==> a == b,
    ;

    /// The encoded width in bytes.
    fn size() -> (size: usize)
        ensures
            size == Self::field_size(),
    ;

    /// The value whose encoding is the bytes from `from` up to `to`.
    fn read(buffer: &[u8], from: usize, to: usize) -> (value: Self)
        requires
            from <= to <= buffer@.len(),
            to - from == Self::field_size(),
        ensures
            value.encoding() == buffer@.subrange(from as int, to as int),
    ;

    /// Puts the encoding of the value in the place of the bytes from `from` up
    /// to `to`. No other byte changes.
    fn write(&self, buffer: &mut Vec<u8>, from: usize, to: usize)
        requires
            from <= to <= old(buffer)@.len(),
            to - from == Self::field_size(),
        ensures
            final(buffer)@ == splice(old(buffer)@, from as int, self.encoding()),
            final(buffer)@.len() == old(buffer)@.len(),
    ;
}

impl Field for u16 {
    open spec fn field_size() -> nat {
        2
    }

    open spec fn encoding(&self) -> Seq<u8> {
        le_bytes(*self as nat, 2)
    }

    proof fn lemma_field_size() {
    }

    proof fn lemma_encoding(a: Self, b: Self) {
        lemma_radix_values();
        lemma_le_value_of_bytes(a as nat, 2);
        lemma_le_value_of_bytes(b as nat, 2);
    }

    fn size() -> (size: usize) {
        2
    }

    fn read(buffer: &[u8], from: usize, to: usize) -> (value: Self)
        ensures
            value == le_value(buffer@.subrange(from as int, to as int)),
    {
        let wide = read_le(buffer, from, 2);
        proof {
            lemma_radix_values();
            lemma_le_bytes_of_value(buffer@.subrange(from as int, to as int));
        }
        wide as u16
    }

    fn write(&self, buffer: &mut Vec<u8>, from: usize, to: usize) {
        write_le(buffer, from, 2, *self as u64);
    }
}

impl Field for u32 {
    open spec fn field_size() -> nat {
        4
    }

    open spec fn encoding(&self) -> Seq<u8> {
        le_bytes(*self as nat, 4)
    }

    proof fn lemma_field_size() {
    }

    proof fn lemma_encoding(a: Self, b: Self) {
        lemma_radix_values();
        lemma_le_value_of_bytes(a as nat, 4);
        lemma_le_value_of_bytes(b as nat, 4);
    }

    fn size() -> (size: usize) {
        4
    }

    fn read(buffer: &[u8], from: usize, to: usize) -> (value: Self)
        ensures
            value == le_value(buffer@.subrange(from as int, to as int)),
    {
        let wide = read_le(buffer, from, 4);
        proof {
            lemma_radix_values();
            lemma_le_bytes_of_value(buffer@.subrange(from as int, to as int));
        }
        wide as u32
    }

    fn write(&self, buffer: &mut Vec<u8>, from: usize, to: usize) {
        write_le(buffer, from, 4, *self as u64);
    }
}

impl Field for u64 {
    open spec fn field_size() -> nat {
        8
    }

    open spec fn encoding(&self) -> Seq<u8> {
        le_bytes(*self as nat, 8)
    }

    proof fn lemma_field_size() {
    }

    proof fn lemma_encoding(a: Self, b: Self) {
        lemma_radix_values();
        lemma_le_value_of_bytes(a as nat, 8);
        lemma_le_value_of_bytes(b as nat, 8);
    }

    fn size() -> (size: usize) {
        8
    }

    fn read(buffer: &[u8], from: usize, to: usize) -> (value: Self)
        ensures
            value == le_value(buffer@.subrange(from as int, to as int)),
    {
        let value = read_le(buffer, from, 8);
        proof {
            lemma_le_bytes_of_value(buffer@.subrange(from as int, to as int));
        }
        value
    }

    fn write(&self, buffer: &mut Vec<u8>, from: usize, to: usize) {
        write_le(buffer, from, 8, *self);
    }
}

impl Field for crate::crypto::Hash {
    open spec fn field_size() -> nat {
        32
    }

    open spec fn encoding(&self) -> Seq<u8> {
        self@
    }

    proof fn lemma_field_size() {
    }

    proof fn lemma_encoding(a: Self, b: Self) {
        if a@ == b@ {
            assert(a.bytes =~= b.bytes);
        }
    }

    fn size() -> (size: usize) {
        32
    }

    fn read(buffer: &[u8], from: usize, to: usize) -> (value: Self) {
        crate::crypto::Hash { bytes: read_array32(buffer, from) }
    }

    fn write(&self, buffer: &mut Vec<u8>, from: usize, to: usize) {
        write_bytes(buffer, from, self.bytes.as_slice());
    }
}

impl Field for PublicKey {
    open spec fn field_size() -> nat {
        32
    }

    open spec fn encoding(&self) -> Seq<u8> {
        self@
    }

    proof fn lemma_field_size() {
    }

    proof fn lemma_encoding(a: Self, b: Self) {
        if a@ == b@ {
            assert(a.bytes =~= b.bytes);
        }
    }

    fn size() -> (size: usize) {
        32
    }

    fn read(buffer: &[u8], from: usize, to: usize) -> (value: Self) {
        PublicKey { bytes: read_array32(buffer, from) }
    }

    fn write(&self, buffer: &mut Vec<u8>, from: usize, to: usize) {
        write_bytes(buffer, from, self.bytes.as_slice());
    }
}

} // verus!
