//! A read position over a byte sequence, together with the grammar the
//! sequence is read under.
use crate::types::Grammar;
use vstd::prelude::*;
use vstd::slice::{slice_subrange, slice_to_vec};

verus! {

/// The unread part of a byte sequence and the grammar fixed for the walk.
///
/// The view of a cursor is the sequence of bytes it has not handed out yet.
pub struct Cursor<'a> {
    bytes: &'a [u8],
    pos: usize,
    grammar: Grammar,
}

impl<'a> View for Cursor<'a> {
    type V = Seq<u8>;

    closed spec fn view(&self) -> Seq<u8> {
        self.bytes@.skip(self.pos as int)
    }
}

/// How many of the bytes `rest` a request for `n` bytes gets: `n`, or all of
/// them where fewer are left.
pub open spec fn taken(rest: Seq<u8>, n: usize) -> int {
    if n <= rest.len() {
        n as int
    } else {
        rest.len() as int
    }
}

impl<'a> Cursor<'a> {
    #[verifier::type_invariant]
    spec fn in_bounds(&self) -> bool {
        self.pos <= self.bytes@.len()
    }

    /// The grammar this cursor was made with.
    pub closed spec fn grammar_spec(&self) -> Grammar {
        self.grammar
    }

    /// A cursor at the start of `bytes`, reading under `grammar`.
    pub fn new(bytes: &'a [u8], grammar: Grammar) -> (r: Self)
        ensures
            r@ == bytes@,
            r.grammar_spec() == grammar,
    {
        Cursor { bytes, pos: 0, grammar }
    }

    /// A cursor at the start of `bytes`, reading under the grammar that the
    /// first two bytes select.
    pub fn detect(bytes: &'a [u8]) -> (r: Self)
        ensures
            r@ == bytes@,
            r.grammar_spec() == Grammar::of(bytes@),
    {
        Cursor { bytes, pos: 0, grammar: Grammar::detect(bytes) }
    }

    /// The grammar this cursor reads under.
    #[verifier::when_used_as_spec(grammar_spec)]
    pub fn grammar(&self) -> (r: Grammar)
        ensures
            r == self.grammar_spec(),
    {
        self.grammar
    }

    /// The number of unread bytes.
    pub fn len(&self) -> (r: usize)
        ensures
            r == self@.len(),
    {
        proof {
            use_type_invariant(self);
        }
        self.bytes.len() - self.pos
    }

    /// Whether every byte has been read.
    pub fn is_empty(&self) -> (r: bool)
        ensures
            r == (self@.len() == 0),
    {
        self.len() == 0
    }

    /// The next unread byte, left in place.
    pub fn peek(&self) -> (r: Option<u8>)
        ensures
            r == (if self@.len() > 0 {
                Some(self@[0])
            } else {
                None
            }),
    {
        proof {
            use_type_invariant(self);
        }
        if self.pos < self.bytes.len() {
            Some(self.bytes[self.pos])
        } else {
            None
        }
    }

    /// Hands out the next unread byte, if there is one.
    pub fn next(&mut self) -> (r: Option<u8>)
        ensures
            final(self).grammar_spec() == old(self).grammar_spec(),
            old(self)@.len() == 0 ==> r.is_none() && final(self)@ == old(self)@,
            old(self)@.len() > 0 ==> r == Some(old(self)@[0]) && final(self)@ == old(self)@.skip(1),
    {
        proof {
            use_type_invariant(&*self);
        }
        if self.pos < self.bytes.len() {
            let byte = self.bytes[self.pos];
            self.pos = self.pos + 1;
            Some(byte)
        } else {
            None
        }
    }

    /// Hands out the next `n` unread bytes, or all of them where fewer than
    /// `n` are left.
    pub fn take(&mut self, n: usize) -> (r: Vec<u8>)
        ensures
            final(self).grammar_spec() == old(self).grammar_spec(),
            r@ == old(self)@.take(taken(old(self)@, n)),
            final(self)@ == old(self)@.skip(taken(old(self)@, n)),
    {
        proof {
            use_type_invariant(&*self);
        }
        let start = self.pos;
        let end = if n <= self.bytes.len() - start {
            start + n
        } else {
            self.bytes.len()
        };
        let out = slice_to_vec(slice_subrange(self.bytes, start, end));
        self.pos = end;
        out
    }
}

} // verus!
