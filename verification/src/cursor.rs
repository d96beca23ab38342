//! A read position over a borrowed byte region.

use crate::error::DecodeError;
use crate::wire::{u16_be, u32_be};
use vstd::prelude::*;

verus! {

/// `nom::be_u8`. On empty input nom asks for more input, which is `None`
/// here; otherwise it hands back the input without its first byte, and
/// that byte.
#[verifier::external_body]
fn be_u8<'a>(input: &'a [u8]) -> (r: Option<(&'a [u8], u8)>)
    ensures
        r is Some <==> input@.len() >= 1,
        r matches Some(done) ==> done.0@ == input@.skip(1),
        r matches Some(done) ==> done.1 == input@[0],
{
    match nom::be_u8(input) {
        nom::IResult::Done(rest, value) => Some((rest, value)),
        nom::IResult::Error(_) => None,
        nom::IResult::Incomplete(_) => None,
    }
}

/// `nom::be_u16`. On fewer than two bytes nom asks for more input, which
/// is `None` here; otherwise it hands back the input without its first
/// two bytes, and the big-endian number that those two spell.
#[verifier::external_body]
fn be_u16<'a>(input: &'a [u8]) -> (r: Option<(&'a [u8], u16)>)
    ensures
        r is Some <==> input@.len() >= 2,
        r matches Some(done) ==> done.0@ == input@.skip(2),
        r matches Some(done) ==> done.1 == u16_be(input@),
{
    match nom::be_u16(input) {
        nom::IResult::Done(rest, value) => Some((rest, value)),
        nom::IResult::Error(_) => None,
        nom::IResult::Incomplete(_) => None,
    }
}

/// `nom::be_u32`. On fewer than four bytes nom asks for more input, which
/// is `None` here; otherwise it hands back the input without its first
/// four bytes, and the big-endian number that those four spell.
#[verifier::external_body]
fn be_u32<'a>(input: &'a [u8]) -> (r: Option<(&'a [u8], u32)>)
    ensures
        r is Some <==> input@.len() >= 4,
        r matches Some(done) ==> done.0@ == input@.skip(4),
        r matches Some(done) ==> done.1 == u32_be(input@),
{
    match nom::be_u32(input) {
        nom::IResult::Done(rest, value) => Some((rest, value)),
        nom::IResult::Error(_) => None,
        nom::IResult::Incomplete(_) => None,
    }
}

/// A byte region and how far it has been read.
///
/// Every read is checked against the end of the region. A read that
/// fails leaves the cursor where it was. Spans that a read hands out
/// borrow from the region: nothing is copied.
#[derive(Clone, Copy, Debug)]
pub struct ByteCursor<'a> {
    rest: &'a [u8],
    consumed: usize,
}

impl<'a> ByteCursor<'a> {
    /// The bytes that have not been read yet.
    pub closed spec fn unread(&self) -> Seq<u8> {
        self.rest@
    }

    /// How many bytes have been read.
    pub closed spec fn pos(&self) -> nat {
        self.consumed as nat
    }

    /// The bytes read and the bytes unread are one region, whose length
    /// is a `usize`.
    #[verifier::type_invariant]
    pub open spec fn inv(self) -> bool {
        self.pos() + self.unread().len() <= usize::MAX
    }

    /// A cursor at the start of `data`.
    pub fn new(data: &'a [u8]) -> (r: ByteCursor<'a>)
        ensures
            r.unread() == data@,
            r.pos() == 0,
    {
        proof {
            vstd::slice::axiom_spec_len(data);
        }
        ByteCursor { rest: data, consumed: 0 }
    }

    /// The number of unread bytes.
    pub fn remaining(&self) -> (r: usize)
        ensures
            r == self.unread().len(),
    {
        self.rest.len()
    }

    /// The number of bytes read so far.
    pub fn position(&self) -> (r: usize)
        ensures
            r == self.pos(),
    {
        self.consumed
    }

    /// Reads one byte.
    pub fn read_u8(&mut self) -> (r: Result<u8, DecodeError>)
        ensures
            old(self).unread().len() >= 1 ==> r == Ok::<u8, DecodeError>(old(self).unread()[0])
                && final(self).unread() == old(self).unread().skip(1) && final(self).pos() == old(
                self,
            ).pos() + 1,
            old(self).unread().len() < 1 ==> r == Err::<u8, DecodeError>(DecodeError::Truncated)
                && *final(self) == *old(self),
    {
        proof {
            use_type_invariant(&*self);
        }
        match be_u8(self.rest) {
            Some((rest, value)) => {
                self.rest = rest;
                self.consumed = self.consumed + 1;
                Ok(value)
            },
            None => Err(DecodeError::Truncated),
        }
    }

    /// Reads a big-endian number of two bytes.
    pub fn read_u16(&mut self) -> (r: Result<u16, DecodeError>)
        ensures
            old(self).unread().len() >= 2 ==> r == Ok::<u16, DecodeError>(
                u16_be(old(self).unread()),
            ) && final(self).unread() == old(self).unread().skip(2) && final(self).pos() == old(
                self,
            ).pos() + 2,
            old(self).unread().len() < 2 ==> r == Err::<u16, DecodeError>(DecodeError::Truncated)
                && *final(self) == *old(self),
    {
        proof {
            use_type_invariant(&*self);
        }
        match be_u16(self.rest) {
            Some((rest, value)) => {
                self.rest = rest;
                self.consumed = self.consumed + 2;
                Ok(value)
            },
            None => Err(DecodeError::Truncated),
        }
    }

    /// Reads a big-endian number of four bytes.
    pub fn read_u32(&mut self) -> (r: Result<u32, DecodeError>)
        ensures
            old(self).unread().len() >= 4 ==> r == Ok::<u32, DecodeError>(
                u32_be(old(self).unread()),
            ) && final(self).unread() == old(self).unread().skip(4) && final(self).pos() == old(
                self,
            ).pos() + 4,
            old(self).unread().len() < 4 ==> r == Err::<u32, DecodeError>(DecodeError::Truncated)
                && *final(self) == *old(self),
    {
        proof {
            use_type_invariant(&*self);
        }
        match be_u32(self.rest) {
            Some((rest, value)) => {
                self.rest = rest;
                self.consumed = self.consumed + 4;
                Ok(value)
            },
            None => Err(DecodeError::Truncated),
        }
    }

    /// Hands out the next `n` bytes as a span of the region.
    pub fn take(&mut self, n: usize) -> (r: Result<&'a [u8], DecodeError>)
        ensures
            n <= old(self).unread().len() ==> r is Ok && r->Ok_0@ == old(self).unread().take(
                n as int,
            ) && final(self).unread() == old(self).unread().skip(n as int) && final(self).pos()
                == old(self).pos() + n,
            n > old(self).unread().len() ==> r is Err && r->Err_0 == DecodeError::Truncated
                && *final(self) == *old(self),
    {
        proof {
            use_type_invariant(&*self);
        }
        if n > self.rest.len() {
            return Err(DecodeError::Truncated);
        }
        let (span, rest) = self.rest.split_at(n);
        self.rest = rest;
        self.consumed = self.consumed + n;
        Ok(span)
    }

    /// Reads a big-endian length of two bytes and hands out the span of
    /// that many bytes that follows it. Where either is cut short the
    /// cursor stays in front of the length.
    pub fn take_u16_prefixed(&mut self) -> (r: Result<&'a [u8], DecodeError>)
        ensures
            prefixed_span_fits(old(self).unread()) ==> r is Ok && r->Ok_0@ == old(
                self,
            ).unread().subrange(2, 2 + u16_be(old(self).unread())) && final(self).unread() == old(
                self,
            ).unread().skip(2 + u16_be(old(self).unread())) && final(self).pos() == old(
                self,
            ).pos() + 2 + u16_be(old(self).unread()),
            !prefixed_span_fits(old(self).unread()) ==> r is Err && r->Err_0
                == DecodeError::Truncated && *final(self) == *old(self),
    {
        let mut ahead = *self;
        let length = ahead.read_u16()?;
        let span = ahead.take(length as usize)?;
        *self = ahead;
        Ok(span)
    }
}

/// Whether `s` starts with a big-endian length of two bytes and at least
/// that many bytes after it.
pub open spec fn prefixed_span_fits(s: Seq<u8>) -> bool {
    s.len() >= 2 && s.len() - 2 >= u16_be(s)
}

} // verus!
