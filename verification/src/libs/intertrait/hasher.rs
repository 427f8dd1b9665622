//! A simple `Hasher` tuned for hashing `TypeId`s.
use std::hash::Hasher;

use vstd::prelude::*;

verus! {

/// The big-endian value of a sequence of bytes: each byte shifts the value so far left by
/// eight bits and fills the low byte (bits shifted past the top are dropped).
pub open spec fn fold_bytes(bytes: Seq<u8>) -> u64
    decreases bytes.len(),
{
    if bytes.len() == 0 {
        0
    } else {
        (fold_bytes(bytes.drop_last()) << 8u64) | (bytes.last() as u64)
    }
}

/// The value of eight bytes read in one of the two byte orders: little-endian when
/// `little_endian` holds, else big-endian.
pub open spec fn word_value(word: Seq<u8>, little_endian: bool) -> u64 {
    if little_endian {
        fold_bytes(word.reverse())
    } else {
        fold_bytes(word)
    }
}

/// The state after writing `bytes` into a hasher in state `state`: while more than eight
/// bytes remain, the next eight are read as one word (in the byte order that
/// `byte_orders` gives for that word) and xored into the state; the at most eight bytes
/// left are then folded into one value and xored in.
pub open spec fn spec_write(state: u64, bytes: Seq<u8>, byte_orders: Seq<bool>) -> u64
    decreases bytes.len(),
{
    if bytes.len() > 8 {
        spec_write(
            state ^ word_value(bytes.take(8), byte_orders[0]),
            bytes.skip(8),
            byte_orders.drop_first(),
        )
    } else {
        state ^ fold_bytes(bytes)
    }
}

/// Calls `u64::from_ne_bytes`. The native byte order is a property of the machine, so
/// the contract says only that the word is read either little-endian or big-endian.
#[verifier::external_body]
fn u64_from_ne_bytes(word: [u8; 8]) -> (res: u64)
    ensures
        res == word_value(word@, true) || res == word_value(word@, false),
{
    u64::from_ne_bytes(word)
}

/// A simple `Hasher` implementation tuned for performance.
#[derive(Default)]
pub struct FastHasher(pub u64);

/// Writing into a hasher one word in one order and the rest after it is the same as
/// writing the whole in the combined order.
proof fn lemma_spec_write_step(state: u64, bytes: Seq<u8>, little_endian: bool, rest: Seq<bool>)
    requires
        bytes.len() > 8,
    ensures
        spec_write(state, bytes, seq![little_endian] + rest) == spec_write(
            state ^ word_value(bytes.take(8), little_endian),
            bytes.skip(8),
            rest,
        ),
{
    assert((seq![little_endian] + rest).drop_first() =~= rest);
}

impl FastHasher {
    /// Returns the state written so far.
    pub fn finish_value(&self) -> (res: u64)
        ensures
            res == self.0,
    {
        self.0
    }

    /// Writes `bytes` into the hasher.
    pub fn write_bytes(&mut self, bytes: &[u8])
        ensures
            exists|byte_orders: Seq<bool>| #[trigger]
                spec_write(old(self).0, bytes@, byte_orders) == final(self).0,
            bytes@.len() <= 8 ==> final(self).0 == old(self).0 ^ fold_bytes(bytes@),
    {
        let ghost start = self.0;
        let ghost mut orders: Seq<bool> = Seq::empty();
        let mut pos: usize = 0;
        let mut state = self.0;
        proof {
            assert(bytes@.skip(0) =~= bytes@);
            assert forall|rest: Seq<bool>| #[trigger]
                spec_write(start, bytes@, orders + rest) == spec_write(
                    state,
                    bytes@.skip(pos as int),
                    rest,
                ) by {
                assert(orders + rest =~= rest);
            }
        }
        while bytes.len() - pos > 8
            invariant
                pos <= bytes@.len(),
                bytes@.len() <= 8 ==> pos == 0,
                forall|rest: Seq<bool>| #[trigger]
                    spec_write(start, bytes@, orders + rest) == spec_write(
                        state,
                        bytes@.skip(pos as int),
                        rest,
                    ),
            decreases bytes@.len() - pos,
        {
            let word: [u8; 8] = [
                bytes[pos],
                bytes[pos + 1],
                bytes[pos + 2],
                bytes[pos + 3],
                bytes[pos + 4],
                bytes[pos + 5],
                bytes[pos + 6],
                bytes[pos + 7],
            ];
            let value = u64_from_ne_bytes(word);
            let ghost little_endian = value == word_value(word@, true);
            proof {
                let remaining = bytes@.skip(pos as int);
                assert(word@ =~= remaining.take(8));
                assert(remaining.skip(8) =~= bytes@.skip(pos + 8));
                assert forall|rest: Seq<bool>|
                    #[trigger] spec_write(start, bytes@, orders.push(little_endian) + rest)
                        == spec_write(state ^ value, bytes@.skip(pos + 8), rest) by {
                    assert(orders.push(little_endian) + rest =~= orders + (seq![little_endian]
                        + rest));
                    lemma_spec_write_step(state, remaining, little_endian, rest);
                }
                orders = orders.push(little_endian);
            }
            state = state ^ value;
            pos = pos + 8;
        }
        let mut tail: u64 = 0;
        let mut i: usize = pos;
        while i < bytes.len()
            invariant
                pos <= i <= bytes@.len(),
                tail == fold_bytes(bytes@.subrange(pos as int, i as int)),
            decreases bytes@.len() - i,
        {
            proof {
                assert(bytes@.subrange(pos as int, i + 1).drop_last() =~= bytes@.subrange(
                    pos as int,
                    i as int,
                ));
            }
            tail = (tail << 8u64) | (bytes[i] as u64);
            i = i + 1;
        }
        proof {
            assert(bytes@.subrange(pos as int, bytes@.len() as int) =~= bytes@.skip(pos as int));
            assert(orders + Seq::<bool>::empty() =~= orders);
            assert(spec_write(start, bytes@, orders + Seq::<bool>::empty()) == spec_write(
                state,
                bytes@.skip(pos as int),
                Seq::<bool>::empty(),
            ));
            if bytes@.len() <= 8 {
                assert(pos == 0);
                assert(bytes@.skip(0) =~= bytes@);
            }
        }
        state = state ^ tail;
        self.0 = state;
    }
}

impl Hasher for FastHasher {
    fn finish(&self) -> (res: u64)
        ensures
            res == self.0,
    {
        self.finish_value()
    }

    fn write(&mut self, bytes: &[u8])
        ensures
            exists|byte_orders: Seq<bool>| #[trigger]
                spec_write(old(self).0, bytes@, byte_orders) == final(self).0,
            bytes@.len() <= 8 ==> final(self).0 == old(self).0 ^ fold_bytes(bytes@),
    {
        self.write_bytes(bytes)
    }
}

} // verus!
