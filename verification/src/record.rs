//! A whole record: header, then a body that is decoded or handed out as
//! it stands.

use crate::cursor::ByteCursor;
use crate::error::DecodeError;
use crate::header::{parse_header, spec_parse_header};
use crate::kind::{MrtRecordType, TableDumpSubtype};
use crate::table_dump::{
    parse_tabledump_ipv4, spec_parse_tabledump_ipv4, TableDumpV4, TableDumpV4View,
};
use vstd::prelude::*;

verus! {

/// The body of a record.
#[derive(Clone, Copy, Debug, PartialEq, Eq)]
pub enum MrtRecordMessage<'a> {
    /// The entry that the body of an IPv4 table dump record decodes to.
    TableDump(TableDumpV4<'a>),
    /// The body of a kind that has no decoder: its bytes, untouched.
    Opaque(&'a [u8]),
}

/// What an `MrtRecordMessage` holds, with spans as sequences.
pub enum MrtRecordMessageView {
    TableDump(TableDumpV4View),
    Opaque(Seq<u8>),
}

impl<'a> View for MrtRecordMessage<'a> {
    type V = MrtRecordMessageView;

    open spec fn view(&self) -> MrtRecordMessageView {
        match *self {
            MrtRecordMessage::TableDump(entry) => MrtRecordMessageView::TableDump(entry@),
            MrtRecordMessage::Opaque(bytes) => MrtRecordMessageView::Opaque(bytes@),
        }
    }
}

/// One record of a dump.
#[derive(Clone, Copy, Debug, PartialEq, Eq)]
pub struct MrtRecord<'a> {
    /// Seconds since the epoch.
    pub timestamp: u32,
    /// The microsecond field of the header, where the kind has one.
    pub microseconds: Option<u32>,
    pub record_type: MrtRecordType,
    /// The declared length of the body in bytes.
    pub record_size: u32,
    pub message: MrtRecordMessage<'a>,
}

/// What an `MrtRecord` holds, with spans as sequences.
pub struct MrtRecordView {
    pub timestamp: u32,
    pub microseconds: Option<u32>,
    pub record_type: MrtRecordType,
    pub record_size: u32,
    pub message: MrtRecordMessageView,
}

impl<'a> View for MrtRecord<'a> {
    type V = MrtRecordView;

    open spec fn view(&self) -> MrtRecordView {
        MrtRecordView {
            timestamp: self.timestamp,
            microseconds: self.microseconds,
            record_type: self.record_type,
            record_size: self.record_size,
            message: self.message@,
        }
    }
}

/// The view of what decoding a record gave: of the record, where there is
/// one.
pub open spec fn outcome_view(outcome: Result<MrtRecord, DecodeError>) -> Result<
    MrtRecordView,
    DecodeError,
> {
    match outcome {
        Ok(record) => Ok(record@),
        Err(e) => Err(e),
    }
}

/// Whether bodies of this kind are decoded. Bodies of the other kinds are
/// handed out opaque.
pub open spec fn has_decoder(kind: MrtRecordType) -> bool {
    kind == MrtRecordType::TableDump(TableDumpSubtype::AFI_IPv4)
}

/// What the body of a record of kind `kind` decodes to. `body` is the
/// whole declared body.
pub open spec fn spec_parse_message(kind: MrtRecordType, body: Seq<u8>) -> Result<
    MrtRecordMessageView,
    DecodeError,
> {
    if has_decoder(kind) {
        match spec_parse_tabledump_ipv4(body) {
            Ok(entry) => Ok(MrtRecordMessageView::TableDump(entry)),
            Err(e) => Err(e),
        }
    } else {
        Ok(MrtRecordMessageView::Opaque(body))
    }
}

/// What decoding one record from the front of `s` gives, and how many
/// bytes of `s` it takes up.
pub struct RecordStep {
    pub outcome: Result<MrtRecordView, DecodeError>,
    pub consumed: nat,
}

/// Decodes the record that `s` starts with.
///
/// Where `s` ends inside the header nothing is taken. Where it ends
/// inside the declared body, all of it is taken: no record can follow.
/// Otherwise the header and the declared body are taken, whatever the
/// body decodes to.
pub open spec fn spec_parse_record(s: Seq<u8>) -> RecordStep {
    match spec_parse_header(s) {
        None => RecordStep { outcome: Err(DecodeError::TruncatedHeader), consumed: 0 },
        Some(header) => {
            let start = header.encoded_len();
            let end = start + header.length as nat;
            if s.len() < end {
                RecordStep { outcome: Err(DecodeError::Truncated), consumed: s.len() }
            } else {
                RecordStep {
                    outcome: match spec_parse_message(
                        header.spec_kind(),
                        s.subrange(start as int, end as int),
                    ) {
                        Ok(message) => Ok(
                            MrtRecordView {
                                timestamp: header.timestamp,
                                microseconds: header.microseconds,
                                record_type: header.spec_kind(),
                                record_size: header.length,
                                message,
                            },
                        ),
                        Err(e) => Err(e),
                    },
                    consumed: end,
                }
            }
        },
    }
}

/// Decodes the body of a record of kind `kind`. `body` is the whole
/// declared body.
pub fn parse_message<'a>(kind: MrtRecordType, body: &'a [u8]) -> (r: Result<
    MrtRecordMessage<'a>,
    DecodeError,
>)
    ensures
        match r {
            Ok(message) => spec_parse_message(kind, body@) == Ok::<
                MrtRecordMessageView,
                DecodeError,
            >(message@),
            Err(e) => spec_parse_message(kind, body@) == Err::<MrtRecordMessageView, DecodeError>(
                e,
            ),
        },
{
    match kind {
        MrtRecordType::TableDump(TableDumpSubtype::AFI_IPv4) => {
            match parse_tabledump_ipv4(body) {
                Ok(entry) => Ok(MrtRecordMessage::TableDump(entry)),
                Err(e) => Err(e),
            }
        },
        _ => Ok(MrtRecordMessage::Opaque(body)),
    }
}

/// Decodes the record at the cursor and moves the cursor to the record
/// that follows: to the end of the declared body, however much of the
/// body its decoder read.
///
/// Where the region ends inside the header, or there is nothing left of
/// it, the result is `TruncatedHeader` and the cursor stays. Where the
/// region ends inside the declared body, the result is `Truncated` and
/// the cursor goes to the end of the region.
pub fn parse_record<'a>(cursor: &mut ByteCursor<'a>) -> (r: Result<MrtRecord<'a>, DecodeError>)
    ensures
        outcome_view(r) == spec_parse_record(old(cursor).unread()).outcome,
        final(cursor).unread() == old(cursor).unread().skip(
            spec_parse_record(old(cursor).unread()).consumed as int,
        ),
        final(cursor).pos() == old(cursor).pos() + spec_parse_record(
            old(cursor).unread(),
        ).consumed,
{
    let header = match parse_header(cursor) {
        Ok(header) => header,
        Err(_) => {
            return Err(DecodeError::TruncatedHeader);
        },
    };
    let body = match cursor.take(header.length as usize) {
        Ok(body) => body,
        Err(_) => {
            let rest = cursor.remaining();
            let _ = cursor.take(rest);
            return Err(DecodeError::Truncated);
        },
    };
    assert(body@ == old(cursor).unread().subrange(
        header.encoded_len() as int,
        header.encoded_len() + header.length,
    ));
    let record_type = header.kind();
    match parse_message(record_type, body) {
        Ok(message) => Ok(
            MrtRecord {
                timestamp: header.timestamp,
                microseconds: header.microseconds,
                record_type,
                record_size: header.length,
                message,
            },
        ),
        Err(e) => Err(e),
    }
}

} // verus!
