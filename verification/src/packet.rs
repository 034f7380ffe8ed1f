//! Packets: one protocol message as an ordered sequence of values, whose
//! element 0 names the message type, plus a side-table mapping
//! argument-index to an already-decoded binary blob.
//!
//! The side-table lets the decode pipeline attach large pixel buffers to a
//! packet without re-encoding them as text: `get_bytes` consumes the
//! side-table entry for an index when one is present, and only otherwise
//! base64-decodes the textual slot.

use vstd::prelude::*;

use crate::value::{
    b64_decoded_of, spec_elem, spec_lookup, spec_strip_newlines, yaml_bytes, yaml_hash_i32,
    yaml_hash_str, yaml_i32, yaml_i64, yaml_str, Value,
};

verus! {

/// The first side-table blob stored under `index`, if any.
pub open spec fn spec_raw_lookup(raw: Seq<(u8, Vec<u8>)>, index: u8) -> Option<Vec<u8>>
    decreases raw.len(),
{
    if raw.len() == 0 {
        None
    } else if raw[0].0 == index {
        Some(raw[0].1)
    } else {
        spec_raw_lookup(raw.drop_first(), index)
    }
}

/// `raw` with the first blob stored under `index` removed.
pub open spec fn spec_raw_remove(raw: Seq<(u8, Vec<u8>)>, index: u8) -> Seq<(u8, Vec<u8>)>
    decreases raw.len(),
{
    if raw.len() == 0 {
        raw
    } else if raw[0].0 == index {
        raw.drop_first()
    } else {
        seq![raw[0]] + spec_raw_remove(raw.drop_first(), index)
    }
}

/// One decoded protocol message.
#[derive(Debug)]
pub struct Packet {
    /// The positional values; element 0 names the message type.
    pub main: Vec<Value>,
    /// The side-table of already-decoded blobs, by argument index.
    pub raw: Vec<(u8, Vec<u8>)>,
}

impl Packet {
    /// An empty packet with no values and no attached blobs.
    pub fn new() -> (r: Packet)
        ensures
            r.main@ == Seq::<Value>::empty(),
            r.raw@ == Seq::<(u8, Vec<u8>)>::empty(),
    {
        Packet { main: Vec::new(), raw: Vec::new() }
    }

    /// How many positional values the packet holds.
    pub fn len(&self) -> (r: usize)
        ensures
            r == self.main@.len(),
    {
        self.main.len()
    }

    /// The value at `index`, or `Null` when the index is out of range.
    fn elem(&self, index: u8) -> (r: &Value)
        ensures
            *r == spec_elem(self.main@, index as int),
    {
        if (index as usize) < self.main.len() {
            &self.main[index as usize]
        } else {
            &Value::Null
        }
    }

    /// The integer at `index`, truncated to 32 bits; `0` on a type mismatch
    /// or an out-of-range index.
    pub fn get_i32(&self, index: u8) -> (r: i32)
        ensures
            r == (match spec_elem(self.main@, index as int) {
                Value::Integer(i) => i as i32,
                _ => 0i32,
            }),
    {
        yaml_i32(self.elem(index))
    }

    /// The integer at `index`; `0` on a type mismatch or an out-of-range
    /// index.
    pub fn get_i64(&self, index: u8) -> (r: i64)
        ensures
            r == (match spec_elem(self.main@, index as int) {
                Value::Integer(i) => i,
                _ => 0i64,
            }),
    {
        yaml_i64(self.elem(index))
    }

    /// The text at `index`; empty on a type mismatch or an out-of-range
    /// index.
    pub fn get_str(&self, index: u8) -> (r: String)
        ensures
            r@ == (match spec_elem(self.main@, index as int) {
                Value::Text(s) => s@,
                _ => Seq::<char>::empty(),
            }),
    {
        yaml_str(self.elem(index))
    }

    /// The integer under `key` in the mapping at `index`; `0` when the slot
    /// is no mapping, the key is absent, or the entry is no integer.
    pub fn get_hash_i32(&self, index: u8, key: String) -> (r: i32)
        ensures
            r == (match spec_elem(self.main@, index as int) {
                Value::Mapping(pairs) => (match spec_lookup(pairs@, key@) {
                    Some(Value::Integer(i)) => i as i32,
                    _ => 0i32,
                }),
                _ => 0i32,
            }),
    {
        yaml_hash_i32(self.elem(index), key)
    }

    /// The text under `key` in the mapping at `index`; empty when the slot
    /// is no mapping, the key is absent, or the entry is no text.
    pub fn get_hash_str(&self, index: u8, key: String) -> (r: String)
        ensures
            r@ == (match spec_elem(self.main@, index as int) {
                Value::Mapping(pairs) => (match spec_lookup(pairs@, key@) {
                    Some(Value::Text(s)) => s@,
                    _ => Seq::<char>::empty(),
                }),
                _ => Seq::<char>::empty(),
            }),
    {
        yaml_hash_str(self.elem(index), key)
    }

    /// The binary blob for `index`: the side-table entry when one is
    /// present — consumed by this call — and otherwise the base64 decoding
    /// of the textual slot with newlines stripped, empty on failure.
    pub fn get_bytes(&mut self, index: u8) -> (r: Vec<u8>)
        ensures
            final(self).main@ == old(self).main@,
            (match spec_raw_lookup(old(self).raw@, index) {
                Some(b) => {
                    &&& r == b
                    &&& final(self).raw@ == spec_raw_remove(old(self).raw@, index)
                },
                None => {
                    &&& final(self).raw@ == old(self).raw@
                    &&& r@ == (match spec_elem(old(self).main@, index as int) {
                        Value::Text(s) => (match b64_decoded_of(spec_strip_newlines(s@)) {
                            Some(b) => b,
                            None => Seq::<u8>::empty(),
                        }),
                        _ => Seq::<u8>::empty(),
                    })
                },
            }),
    {
        let mut i: usize = 0;
        proof {
            assert(self.raw@.skip(0) =~= self.raw@);
            assert(self.raw@.subrange(0, 0) + spec_raw_remove(self.raw@.skip(0), index)
                =~= spec_raw_remove(self.raw@, index));
        }
        while i < self.raw.len()
            invariant
                self.main@ == old(self).main@,
                self.raw@ == old(self).raw@,
                i <= self.raw@.len(),
                spec_raw_lookup(self.raw@, index) == spec_raw_lookup(
                    self.raw@.skip(i as int),
                    index,
                ),
                spec_raw_remove(self.raw@, index) == self.raw@.subrange(0, i as int)
                    + spec_raw_remove(self.raw@.skip(i as int), index),
                forall|j: int| 0 <= j < i ==> self.raw@[j].0 != index,
            decreases self.raw@.len() - i,
        {
            proof {
                assert(self.raw@.skip(i as int).drop_first() =~= self.raw@.skip(i + 1));
                assert(self.raw@.skip(i as int)[0] == self.raw@[i as int]);
            }
            if self.raw[i].0 == index {
                let entry = self.raw.remove(i);
                proof {
                    assert(old(self).raw@.subrange(0, i as int) + old(self).raw@.skip(
                        i as int,
                    ).drop_first() =~= old(self).raw@.subrange(0, i as int) + old(self).raw@.skip(
                        i + 1,
                    ));
                    assert(self.raw@ =~= old(self).raw@.subrange(0, i as int) + old(self).raw@.skip(
                        i + 1,
                    ));
                }
                return entry.1;
            }
            i += 1;
            proof {
                assert(self.raw@.subrange(0, i as int) =~= self.raw@.subrange(0, i - 1) + seq![
                    self.raw@[i - 1],
                ]);
                assert((self.raw@.subrange(0, i - 1) + seq![self.raw@[i - 1]]) + spec_raw_remove(
                    self.raw@.skip(i as int),
                    index,
                ) =~= self.raw@.subrange(0, i - 1) + (seq![self.raw@[i - 1]] + spec_raw_remove(
                    self.raw@.skip(i as int),
                    index,
                )));
            }
        }
        proof {
            assert(self.raw@.skip(self.raw@.len() as int) =~= Seq::<(u8, Vec<u8>)>::empty());
            assert(self.raw@.subrange(0, self.raw@.len() as int) + spec_raw_remove(
                self.raw@.skip(self.raw@.len() as int),
                index,
            ) =~= self.raw@);
        }
        yaml_bytes(self.elem(index))
    }
}

} // verus!
