//! Messages of the Sinsemilla hash function, in pieces of `K`-bit words.

use crate::circuit::{Cell, CellValue};
use crate::field::Fp;
use vstd::prelude::*;

verus! {

/// The number of bits of a base field element.
pub const NUM_BITS: usize = 255;

/// The number of words in all of the given pieces.
pub open spec fn total_words<const K: usize>(pieces: Seq<MessagePiece<K>>) -> nat
    decreases pieces.len(),
{
    if pieces.len() == 0 {
        0
    } else {
        total_words(pieces.drop_last()) + (pieces.last().spec_num_words() as nat)
    }
}

/// A message composed of several pieces, of fewer than `MAX_WORDS` words in
/// all.
#[derive(Debug)]
pub struct Message<const K: usize, const MAX_WORDS: usize>(Vec<MessagePiece<K>>);

impl<const K: usize, const MAX_WORDS: usize> Clone for Message<K, MAX_WORDS> {
    fn clone(&self) -> (r: Self)
        ensures
            r@ == self@,
    {
        proof {
            use_type_invariant(self);
        }
        let mut pieces: Vec<MessagePiece<K>> = Vec::new();
        let mut i: usize = 0;
        while i < self.0.len()
            invariant
                i <= self.0@.len(),
                pieces@ == self.0@.take(i as int),
            decreases self.0@.len() - i,
        {
            pieces.push(self.0[i]);
            proof {
                assert(pieces@ =~= self.0@.take(i + 1));
            }
            i = i + 1;
        }
        proof {
            assert(self.0@.take(self.0@.len() as int) =~= self.0@);
        }
        Message(pieces)
    }
}

impl<const K: usize, const MAX_WORDS: usize> Message<K, MAX_WORDS> {
    /// The pieces of the message, in order.
    pub closed spec fn view(self) -> Seq<MessagePiece<K>> {
        self.0@
    }

    /// A message holds fewer than `MAX_WORDS` words.
    #[verifier::type_invariant]
    pub closed spec fn wf(self) -> bool {
        total_words(self.0@) < MAX_WORDS
    }

    /// The message made of the given pieces, which hold fewer than
    /// `MAX_WORDS` words in all.
    pub fn from(pieces: Vec<MessagePiece<K>>) -> (r: Self)
        requires
            total_words(pieces@) < MAX_WORDS,
        ensures
            r@ == pieces@,
    {
        Message(pieces)
    }

    /// The message made of the given pieces; `None` when they hold
    /// `MAX_WORDS` words or more.
    pub fn try_from_pieces(pieces: Vec<MessagePiece<K>>) -> (r: Option<Self>)
        ensures
            r.is_some() == (total_words(pieces@) < MAX_WORDS),
            r matches Some(m) ==> m@ == pieces@,
    {
        let mut words: usize = 0;
        let mut i: usize = 0;
        while i < pieces.len()
            invariant
                i <= pieces@.len(),
                words == total_words(pieces@.take(i as int)),
                words < MAX_WORDS || (i == 0 && words == 0),
            decreases pieces@.len() - i,
        {
            let n = pieces[i].num_words();
            proof {
                assert(pieces@.take(i + 1).drop_last() =~= pieces@.take(i as int));
                assert(pieces@.take(i + 1).last() == pieces@[i as int]);
                lemma_total_words_monotonic(pieces@, i + 1);
            }
            if n >= MAX_WORDS || words >= MAX_WORDS - n {
                return None;
            }
            words = words + n;
            i = i + 1;
        }
        proof {
            assert(pieces@.take(pieces@.len() as int) =~= pieces@);
        }
        if words < MAX_WORDS {
            Some(Message(pieces))
        } else {
            None
        }
    }

    /// The pieces of the message, in order.
    pub fn deref(&self) -> (r: &[MessagePiece<K>])
        ensures
            r@ == self@,
            total_words(r@) < MAX_WORDS,
    {
        proof {
            use_type_invariant(self);
        }
        self.0.as_slice()
    }
}

/// The words of the first `n` pieces are among the words of all pieces.
pub proof fn lemma_total_words_monotonic<const K: usize>(pieces: Seq<MessagePiece<K>>, n: int)
    requires
        0 <= n <= pieces.len(),
    ensures
        total_words(pieces.take(n)) <= total_words(pieces),
    decreases pieces.len() - n,
{
    if n < pieces.len() {
        lemma_total_words_monotonic(pieces, n + 1);
        assert(pieces.take(n + 1).drop_last() =~= pieces.take(n));
    } else {
        assert(pieces.take(n) =~= pieces);
    }
}

/// A piece of a message, of some number of `K`-bit words.
///
/// The piece must fit within a base field element, which means its length
/// cannot exceed the base field's `NUM_BITS`.
#[derive(Clone, Copy, Debug)]
pub struct MessagePiece<const K: usize> {
    cell_value: CellValue,
    /// The number of K-bit words in this message piece.
    num_words: usize,
}

impl<const K: usize> MessagePiece<K> {
    pub closed spec fn spec_cell_value(self) -> CellValue {
        self.cell_value
    }

    pub closed spec fn spec_num_words(self) -> usize {
        self.num_words
    }

    /// The words of a piece fit within a base field element.
    #[verifier::type_invariant]
    pub closed spec fn wf(self) -> bool {
        self.num_words * K < NUM_BITS
    }

    /// The piece of `num_words` words that `field_elem` encodes, witnessed
    /// in `cell`. The words must fit within a base field element.
    pub fn new(cell: Cell, field_elem: Option<Fp>, num_words: usize) -> (r: Self)
        requires
            num_words * K < NUM_BITS,
        ensures
            r.spec_cell_value() == (CellValue { cell, value: field_elem }),
            r.spec_num_words() == num_words,
    {
        let cell_value = CellValue::new(cell, field_elem);
        MessagePiece { cell_value, num_words }
    }

    pub fn num_words(&self) -> (r: usize)
        ensures
            r == self.spec_num_words(),
            r * K < NUM_BITS,
    {
        proof {
            use_type_invariant(self);
        }
        self.num_words
    }

    pub fn cell(&self) -> (r: Cell)
        ensures
            r == self.spec_cell_value().cell,
    {
        self.cell_value.cell()
    }

    pub fn field_elem(&self) -> (r: Option<Fp>)
        ensures
            r == self.spec_cell_value().value,
    {
        self.cell_value.value()
    }

    pub fn cell_value(&self) -> (r: CellValue)
        ensures
            r == self.spec_cell_value(),
    {
        self.cell_value
    }
}

} // verus!
