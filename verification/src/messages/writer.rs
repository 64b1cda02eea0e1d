//! Building the body of a message: fixed fields at their offsets, segment
//! payloads behind them in the order in which they are written.

use vstd::prelude::*;
use crate::crypto::{ed25519_accepts, ed25519_public_key, SecretKey};
use crate::messages::fields::{
    le_bytes, lemma_le_bytes_len, splice, write_bytes, write_le, Field,
};
use crate::messages::raw::{
    body_of, class_of, is_envelope, signature_of, signed_envelope, signed_part_of, type_of,
    RawMessage,
};
use crate::messages::segment::{concat, pointer, uniform, POINTER_SIZE};

verus! {

/// `len` zero bytes.
pub open spec fn zeros(len: nat) -> Seq<u8> {
    Seq::new(len, |index: int| 0u8)
}

/// The encodings of `values`, in order.
pub open spec fn encodings<T: Field>(values: Seq<T>) -> Seq<Seq<u8>> {
    Seq::new(values.len(), |index: int| values[index].encoding())
}

/// The encodings of values of one field type all have the width of the type.
pub proof fn lemma_encodings_uniform<T: Field>(values: Seq<T>)
    ensures
        uniform(encodings(values), T::field_size()),
        encodings(values).len() == values.len(),
{
    assert forall|index: int| 0 <= index < values.len() implies (#[trigger] encodings(
        values,
    )[index]).len() == T::field_size() by {
        T::lemma_encoding(values[index], values[index]);
    }
}

/// The body of a message under construction.
pub struct MessageWriter {
    body: Vec<u8>,
}

impl MessageWriter {
    /// The body as written so far.
    pub closed spec fn body(&self) -> Seq<u8> {
        self.body@
    }

    /// A body of `fixed_size` zero bytes: the fixed fields, not yet written.
    pub fn new(fixed_size: usize) -> (writer: MessageWriter)
        ensures
            writer.body() == zeros(fixed_size as nat),
    {
        let mut body: Vec<u8> = Vec::new();
        let mut i: usize = 0;
        while i < fixed_size
            invariant
                i <= fixed_size,
                body@ == zeros(i as nat),
            decreases fixed_size - i,
        {
            body.push(0);
            proof {
                assert(body@ =~= zeros((i + 1) as nat));
            }
            i += 1;
        }
        MessageWriter { body }
    }

    /// Writes a fixed field at its place. No other byte changes.
    pub fn write<T: Field>(&mut self, value: &T, from: usize, to: usize)
        requires
            from <= to <= old(self).body().len(),
            to - from == T::field_size(),
        ensures
            final(self).body() == splice(old(self).body(), from as int, value.encoding()),
            final(self).body().len() == old(self).body().len(),
    {
        value.write(&mut self.body, from, to);
    }

    /// Writes the pointer at `at` to a segment of `count` items that starts at
    /// the end of the body as it is now.
    fn write_pointer(&mut self, at: usize, count: u32)
        requires
            at + POINTER_SIZE <= old(self).body().len(),
            old(self).body().len() <= u32::MAX,
        ensures
            final(self).body() == splice(
                old(self).body(),
                at as int,
                pointer(old(self).body().len(), count as nat),
            ),
            final(self).body().len() == old(self).body().len(),
    {
        proof {
            lemma_le_bytes_len(self.body@.len(), 4);
            lemma_le_bytes_len(count as nat, 4);
        }
        let offset = self.body.len() as u64;
        write_le(&mut self.body, at, 4, offset);
        write_le(&mut self.body, at + 4, 4, count as u64);
        proof {
            assert(self.body@ =~= splice(
                old(self).body(),
                at as int,
                pointer(old(self).body().len(), count as nat),
            ));
        }
    }

    /// Appends `payload` to the body as a segment of bytes and writes the
    /// pointer to it at `at`.
    pub fn write_bytes_segment(&mut self, at: usize, payload: &[u8])
        requires
            at + POINTER_SIZE <= old(self).body().len(),
            old(self).body().len() + payload@.len() <= u32::MAX,
        ensures
            final(self).body() == splice(
                old(self).body(),
                at as int,
                pointer(old(self).body().len(), payload@.len()),
            ) + payload@,
            final(self).body().len() == old(self).body().len() + payload@.len(),
    {
        self.write_pointer(at, payload.len() as u32);
        let ghost patched = self.body@;
        let mut i: usize = 0;
        while i < payload.len()
            invariant
                i <= payload@.len(),
                self.body@ == patched + payload@.subrange(0, i as int),
            decreases payload@.len() - i,
        {
            self.body.push(payload[i]);
            proof {
                assert(self.body@ =~= patched + payload@.subrange(0, i + 1));
            }
            i += 1;
        }
        proof {
            assert(payload@.subrange(0, i as int) =~= payload@);
        }
    }

    /// Appends the encodings of `values` to the body as a segment, one after
    /// the other, and writes the pointer to it at `at`.
    pub fn write_items<T: Field>(&mut self, at: usize, values: &[T])
        requires
            at + POINTER_SIZE <= old(self).body().len(),
            old(self).body().len() + values@.len() * T::field_size() <= u32::MAX,
        ensures
            final(self).body() == splice(
                old(self).body(),
                at as int,
                pointer(old(self).body().len(), values@.len()),
            ) + concat(encodings(values@)),
            final(self).body().len() == old(self).body().len() + values@.len() * T::field_size(),
    {
        let size = T::size();
        let count = values.len();
        proof {
            T::lemma_field_size();
            assert(count <= count * size) by (nonlinear_arith)
                requires
                    0 <= count,
                    1 <= size,
            ;
        }
        self.write_pointer(at, count as u32);
        let ghost patched = self.body@;
        let ghost all = encodings(values@);
        let mut i: usize = 0;
        proof {
            assert(all.subrange(0, 0) =~= Seq::<Seq<u8>>::empty());
            assert(self.body@ =~= patched + concat(all.subrange(0, 0)));
            assert(0 * size == 0) by (nonlinear_arith);
        }
        while i < count
            invariant
                i <= count == values@.len(),
                size == T::field_size(),
                0 < size,
                all == encodings(values@),
                patched.len() + count * size <= u32::MAX,
                self.body@ == patched + concat(all.subrange(0, i as int)),
                self.body@.len() == patched.len() + i * size,
            decreases count - i,
        {
            let start = self.body.len();
            proof {
                assert(i * size + size <= count * size) by (nonlinear_arith)
                    requires
                        0 <= i < count,
                        0 <= size,
                ;
            }
            let mut k: usize = 0;
            while k < size
                invariant
                    k <= size,
                    start + size <= u32::MAX,
                        patched.len() <= start,
                    self.body@.len() == start + k,
                    self.body@.subrange(0, start as int) == patched + concat(
                        all.subrange(0, i as int),
                    ),
                decreases size - k,
            {
                self.body.push(0);
                proof {
                    assert(self.body@.subrange(0, start as int) =~= patched + concat(
                        all.subrange(0, i as int),
                    ));
                }
                k += 1;
            }
            let ghost grown = self.body@;
            values[i].write(&mut self.body, start, start + size);
            proof {
                let next = all.subrange(0, i + 1);
                T::lemma_encoding(values@[i as int], values@[i as int]);
                assert(next.drop_last() =~= all.subrange(0, i as int));
                assert(next.last() == values@[i as int].encoding());
                assert(self.body@ =~= grown.subrange(0, start as int)
                    + values@[i as int].encoding());
                assert((i + 1) * size == i * size + size) by (nonlinear_arith);
            }
            i += 1;
        }
        proof {
            assert(all.subrange(0, i as int) =~= all);
        }
    }

    /// Wraps the body in the envelope of the given class and type and signs
    /// it with `secret_key`.
    pub fn sign(self, class: u8, message_type: u8, secret_key: &SecretKey) -> (raw: RawMessage)
        requires
            self.body().len() <= u32::MAX,
        ensures
            raw@ == signed_envelope(class, message_type, self.body(), secret_key@),
            is_envelope(raw@),
            class_of(raw@) == class,
            type_of(raw@) == message_type,
            body_of(raw@) == self.body(),
            ed25519_accepts(
                ed25519_public_key(secret_key@),
                signed_part_of(raw@),
                signature_of(raw@),
            ),
    {
        RawMessage::new(class, message_type, self.body.as_slice(), secret_key)
    }
}

} // verus!
