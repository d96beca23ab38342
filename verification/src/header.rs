//! The common header in front of every record.

use crate::cursor::ByteCursor;
use crate::error::DecodeError;
use crate::kind::{classify, is_extended, MrtRecordType};
use crate::wire::{
    lemma_u16_read_write, lemma_u16_write_read, lemma_u32_read_write, lemma_u32_write_read, u16_be,
    u16_bytes, u32_be, u32_bytes,
};
use vstd::prelude::*;

verus! {

/// The fields of a record header, as they stand in the file.
///
/// `microseconds` is the extra field that the extended-timestamp kinds
/// carry between the declared length and the body.
#[derive(Clone, Copy, Debug, PartialEq, Eq)]
pub struct RecordHeader {
    /// Seconds since the epoch.
    pub timestamp: u32,
    pub type_code: u16,
    pub subtype_code: u16,
    /// The declared length of the body in bytes, the header not counted.
    pub length: u32,
    pub microseconds: Option<u32>,
}

impl RecordHeader {
    /// The kind that the two codes stand for.
    pub open spec fn spec_kind(&self) -> MrtRecordType {
        classify(self.type_code, self.subtype_code)
    }

    /// A header is well formed when it has the microsecond field exactly
    /// if its kind is an extended one.
    pub open spec fn wf(&self) -> bool {
        self.microseconds is Some <==> is_extended(self.spec_kind())
    }

    /// The number of bytes that the header takes in the file.
    pub open spec fn encoded_len(&self) -> nat {
        if self.microseconds is Some {
            16
        } else {
            12
        }
    }

    /// The kind that the two codes stand for.
    pub fn kind(&self) -> (r: MrtRecordType)
        ensures
            r == self.spec_kind(),
    {
        MrtRecordType::from((self.type_code, self.subtype_code))
    }
}

/// The header that `s` starts with, or `None` where `s` ends before the
/// header does.
pub open spec fn spec_parse_header(s: Seq<u8>) -> Option<RecordHeader> {
    if s.len() < 12 {
        None
    } else {
        let timestamp = u32_be(s);
        let type_code = u16_be(s.skip(4));
        let subtype_code = u16_be(s.skip(6));
        let length = u32_be(s.skip(8));
        if !is_extended(classify(type_code, subtype_code)) {
            Some(RecordHeader { timestamp, type_code, subtype_code, length, microseconds: None })
        } else if s.len() < 16 {
            None
        } else {
            Some(
                RecordHeader {
                    timestamp,
                    type_code,
                    subtype_code,
                    length,
                    microseconds: Some(u32_be(s.skip(12))),
                },
            )
        }
    }
}

/// The bytes of a header in the file: its fields in the order of the
/// format, each big-endian.
pub open spec fn header_bytes(header: RecordHeader) -> Seq<u8> {
    u32_bytes(header.timestamp) + u16_bytes(header.type_code) + u16_bytes(header.subtype_code)
        + u32_bytes(header.length) + match header.microseconds {
        Some(microseconds) => u32_bytes(microseconds),
        None => Seq::empty(),
    }
}

/// A header that was decoded is well formed, and written back out it is
/// the bytes that it was decoded from: no field changes place or loses
/// precision.
pub proof fn lemma_header_decode_encode(s: Seq<u8>)
    requires
        spec_parse_header(s) is Some,
    ensures
        spec_parse_header(s)->0.wf(),
        header_bytes(spec_parse_header(s)->0) == s.take(
            spec_parse_header(s)->0.encoded_len() as int,
        ),
{
    let header = spec_parse_header(s)->0;
    lemma_u32_read_write(s);
    lemma_u16_read_write(s.skip(4));
    lemma_u16_read_write(s.skip(6));
    lemma_u32_read_write(s.skip(8));
    if header.microseconds is Some {
        lemma_u32_read_write(s.skip(12));
    }
    assert(header_bytes(header) =~= s.take(header.encoded_len() as int));
}

/// A well-formed header that is written out and followed by any bytes
/// decodes to itself.
pub proof fn lemma_header_encode_decode(header: RecordHeader, body: Seq<u8>)
    requires
        header.wf(),
    ensures
        header_bytes(header).len() == header.encoded_len(),
        spec_parse_header(header_bytes(header) + body) == Some(header),
{
    let s = header_bytes(header) + body;
    lemma_u32_write_read(header.timestamp, s.skip(4));
    assert(s =~= u32_bytes(header.timestamp) + s.skip(4));
    lemma_u16_write_read(header.type_code, s.skip(6));
    assert(s.skip(4) =~= u16_bytes(header.type_code) + s.skip(6));
    lemma_u16_write_read(header.subtype_code, s.skip(8));
    assert(s.skip(6) =~= u16_bytes(header.subtype_code) + s.skip(8));
    lemma_u32_write_read(header.length, s.skip(12));
    assert(s.skip(8) =~= u32_bytes(header.length) + s.skip(12));
    match header.microseconds {
        Some(microseconds) => {
            lemma_u32_write_read(microseconds, s.skip(16));
            assert(s.skip(12) =~= u32_bytes(microseconds) + s.skip(16));
        },
        None => {},
    }
}

/// Decodes the header at the cursor: timestamp, type code, subtype code
/// and declared length, then the microsecond field where the kind has
/// one. Where the region ends before the header does, the cursor stays
/// where it was.
pub fn parse_header(cursor: &mut ByteCursor) -> (r: Result<RecordHeader, DecodeError>)
    ensures
        match spec_parse_header(old(cursor).unread()) {
            Some(header) => r == Ok::<RecordHeader, DecodeError>(header) && final(cursor).unread()
                == old(cursor).unread().skip(header.encoded_len() as int) && final(cursor).pos()
                == old(cursor).pos() + header.encoded_len(),
            None => r == Err::<RecordHeader, DecodeError>(DecodeError::Truncated) && *final(cursor)
                == *old(cursor),
        },
        r matches Ok(header) ==> header.wf(),
{
    let mut ahead = *cursor;
    let timestamp = ahead.read_u32()?;
    let type_code = ahead.read_u16()?;
    let subtype_code = ahead.read_u16()?;
    let length = ahead.read_u32()?;
    let kind = MrtRecordType::from((type_code, subtype_code));
    let microseconds = if kind.is_et() {
        Some(ahead.read_u32()?)
    } else {
        None
    };
    *cursor = ahead;
    Ok(RecordHeader { timestamp, type_code, subtype_code, length, microseconds })
}

} // verus!
