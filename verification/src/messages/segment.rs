//! Segment fields: payloads of variable length.
//!
//! A segment field stores a pointer of two little-endian `u32` among the
//! fixed fields: where in the body the payload starts, and how many items it
//! holds. The payload lies behind the fixed fields.

use core::marker::PhantomData;
use vstd::prelude::*;
use vstd::slice::slice_subrange;
use crate::messages::error::Error;
use crate::messages::fields::{le_bytes, le_value, lemma_radix_values, read_le, Field};

verus! {

/// Width of a segment pointer in bytes.
pub const POINTER_SIZE: usize = 8;

/// The pointer to a segment of `count` items that starts at `offset`.
pub open spec fn pointer(offset: nat, count: nat) -> Seq<u8> {
    le_bytes(offset, 4) + le_bytes(count, 4)
}

/// Where the segment starts, by the pointer stored at `at`.
pub open spec fn pointer_offset(body: Seq<u8>, at: int) -> nat {
    le_value(body.subrange(at, at + 4))
}

/// How many items the segment holds, by the pointer stored at `at`.
pub open spec fn pointer_count(body: Seq<u8>, at: int) -> nat {
    le_value(body.subrange(at + 4, at + 8))
}

/// Whether the segment that the pointer at `at` names lies behind the fixed
/// fields and inside the body.
pub open spec fn segment_in_bounds(
    body: Seq<u8>,
    at: int,
    item_size: nat,
    fixed_size: nat,
) -> bool {
    &&& fixed_size <= pointer_offset(body, at)
    &&& pointer_offset(body, at) + pointer_count(body, at) * item_size <= body.len()
}

/// The error that reports the pointer stored at `at`.
pub open spec fn segment_error(body: Seq<u8>, at: int) -> Error {
    Error::IncorrectSegmentReference {
        offset: pointer_offset(body, at) as u32,
        size: pointer_count(body, at) as u32,
    }
}

/// The payload that the pointer at `at` names.
pub open spec fn segment_bytes(body: Seq<u8>, at: int, item_size: nat) -> Seq<u8> {
    body.subrange(
        pointer_offset(body, at) as int,
        (pointer_offset(body, at) + pointer_count(body, at) * item_size) as int,
    )
}

/// Item `index` of a payload of items of `item_size` bytes each.
pub open spec fn item(payload: Seq<u8>, item_size: nat, index: int) -> Seq<u8> {
    payload.subrange((index * item_size) as int, ((index + 1) * item_size) as int)
}

/// The items of a payload, in order.
pub open spec fn items(payload: Seq<u8>, item_size: nat) -> Seq<Seq<u8>> {
    Seq::new(payload.len() / item_size, |index: int| item(payload, item_size, index))
}

/// The payload that holds `items` one after the other.
pub open spec fn concat(items: Seq<Seq<u8>>) -> Seq<u8>
    decreases items.len(),
{
    if items.len() == 0 {
        Seq::empty()
    } else {
        concat(items.drop_last()) + items.last()
    }
}

/// Whether every item is `item_size` bytes long.
pub open spec fn uniform(items: Seq<Seq<u8>>, item_size: nat) -> bool {
    forall|index: int| 0 <= index < items.len() ==> (#[trigger] items[index]).len() == item_size
}

pub proof fn lemma_concat_len(items: Seq<Seq<u8>>, item_size: nat)
    requires
        uniform(items, item_size),
    ensures
        concat(items).len() == items.len() * item_size,
    decreases items.len(),
{
    if items.len() > 0 {
        lemma_concat_len(items.drop_last(), item_size);
        assert(items.len() * item_size == (items.len() - 1) * item_size + item_size)
            by (nonlinear_arith);
    } else {
        assert(0 * item_size == 0) by (nonlinear_arith);
    }
}

/// Item `index` of a payload that was built from items of one size is the
/// item that went in.
pub proof fn lemma_concat_item(items: Seq<Seq<u8>>, item_size: nat, index: int)
    requires
        uniform(items, item_size),
        0 <= index < items.len(),
    ensures
        item(concat(items), item_size, index) == items[index],
    decreases items.len(),
{
    let front = items.drop_last();
    lemma_concat_len(front, item_size);
    lemma_concat_len(items, item_size);
    assert(index * item_size + item_size == (index + 1) * item_size) by (nonlinear_arith);
    if index < items.len() - 1 {
        lemma_concat_item(front, item_size, index);
        assert((index + 1) * item_size <= front.len() * item_size) by (nonlinear_arith)
            requires
                index + 1 <= front.len(),
        ;
        assert(item(concat(items), item_size, index) =~= item(concat(front), item_size, index));
    } else {
        assert(item(concat(items), item_size, index) =~= items.last());
    }
}

/// Cutting a payload built from items of one size, not zero, gives the
/// items back.
pub proof fn lemma_items_of_concat(list: Seq<Seq<u8>>, item_size: nat)
    requires
        uniform(list, item_size),
        0 < item_size,
    ensures
        items(concat(list), item_size) == list,
{
    lemma_concat_len(list, item_size);
    assert((list.len() * item_size) / item_size == list.len()) by (nonlinear_arith)
        requires
            0 < item_size,
    ;
    assert forall|index: int| 0 <= index < list.len() implies items(concat(list), item_size)[index]
        == list[index] by {
        lemma_concat_item(list, item_size, index);
    }
    assert(items(concat(list), item_size) =~= list);
}

/// The payload that the pointer at `at` names, where it is known to lie
/// inside the body.
pub fn segment<'a>(body: &'a [u8], at: usize, item_size: usize) -> (payload: &'a [u8])
    requires
        at + POINTER_SIZE <= body@.len(),
        pointer_offset(body@, at as int) + pointer_count(body@, at as int) * item_size
            <= body@.len(),
    ensures
        payload@ == segment_bytes(body@, at as int, item_size as nat),
{
    let len = body.len();
    let offset = read_le(body, at, 4);
    let count = read_le(body, at + 4, 4);
    proof {
        lemma_radix_values();
        assert(0 <= count * item_size <= len) by (nonlinear_arith)
            requires
                0 <= count,
                0 <= item_size,
                0 <= offset,
                offset + count * item_size <= len,
        ;
    }
    let start = offset as usize;
    let end = start + (count as usize) * item_size;
    slice_subrange(body, start, end)
}

/// Reads the segment whose pointer is stored at `at`: the payload where the
/// pointer names a range behind the fixed fields and inside the body, else
/// the error that reports the pointer.
pub fn read_segment<'a>(body: &'a [u8], at: usize, item_size: usize, fixed_size: usize) -> (result:
    Result<&'a [u8], Error>)
    requires
        at + POINTER_SIZE <= fixed_size <= body@.len(),
    ensures
        match result {
            Ok(payload) => {
                &&& segment_in_bounds(body@, at as int, item_size as nat, fixed_size as nat)
                &&& payload@ == segment_bytes(body@, at as int, item_size as nat)
            },
            Err(error) => {
                &&& !segment_in_bounds(body@, at as int, item_size as nat, fixed_size as nat)
                &&& error == segment_error(body@, at as int)
            },
        },
        pointer_offset(body@, at as int) + pointer_count(body@, at as int) * item_size
            > body@.len() ==> result matches Err(Error::IncorrectSegmentReference { .. }),
{
    let len = body.len();
    let offset = read_le(body, at, 4);
    let count = read_le(body, at + 4, 4);
    proof {
        lemma_radix_values();
        assert(count * item_size <= 0xffff_ffff * 0xffff_ffff_ffff_ffff) by (nonlinear_arith)
            requires
                0 <= count <= 0xffff_ffff,
                0 <= item_size <= 0xffff_ffff_ffff_ffff,
        ;
    }
    let end: u128 = offset as u128 + (count as u128) * (item_size as u128);
    if offset < fixed_size as u64 || end > len as u128 {
        Err(Error::IncorrectSegmentReference { offset: offset as u32, size: count as u32 })
    } else {
        Ok(segment(body, at, item_size))
    }
}

/// A borrowed view of a segment of values of one field type: nothing is
/// copied until an item is read.
pub struct Segment<'a, T: Field> {
    payload: &'a [u8],
    marker: PhantomData<T>,
}

impl<'a, T: Field> View for Segment<'a, T> {
    type V = Seq<Seq<u8>>;

    /// The encodings of the items, in order.
    closed spec fn view(&self) -> Seq<Seq<u8>> {
        items(self.payload@, T::field_size())
    }
}

impl<'a, T: Field> Segment<'a, T> {
    /// The view of a payload as items of type `T`. Bytes behind the last
    /// whole item are not part of any item.
    pub fn new(payload: &'a [u8]) -> (segment: Self)
        ensures
            segment@ == items(payload@, T::field_size()),
    {
        Segment { payload, marker: PhantomData }
    }

    /// The number of items.
    pub fn len(&self) -> (len: usize)
        ensures
            len == self@.len(),
    {
        proof {
            T::lemma_field_size();
        }
        self.payload.len() / T::size()
    }

    /// Item `index`, decoded.
    pub fn get(&self, index: usize) -> (value: T)
        requires
            index < self@.len(),
        ensures
            value.encoding() == self@[index as int],
    {
        let size = T::size();
        let len = self.payload.len();
        proof {
            T::lemma_field_size();
            assert(0 <= index * size && index * size + size <= len && index * size + size == (index
                + 1) * size) by (nonlinear_arith)
                requires
                    0 <= index < len / size,
                    0 < size,
            ;
        }
        T::read(self.payload, index * size, index * size + size)
    }
}

} // verus!
