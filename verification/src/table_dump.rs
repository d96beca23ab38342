//! The body of an IPv4 `TABLE_DUMP` record: one entry of a routing table.

use crate::cursor::ByteCursor;
use crate::error::DecodeError;
use crate::wire::{u16_be, u32_be};
use vstd::prelude::*;

verus! {

/// One IPv4 routing table entry. `attributes` is the span of BGP path
/// attributes, borrowed from the region that was decoded and left
/// undecoded.
#[derive(Clone, Copy, Debug, PartialEq, Eq)]
pub struct TableDumpV4<'a> {
    pub view_num: u16,
    pub seq_num: u16,
    /// The prefix as a number: its first octet is the most significant.
    pub prefix: u32,
    pub prefix_len: u8,
    /// Seconds since the epoch.
    pub originated_time: u32,
    /// The peer's address as a number, as `prefix`.
    pub peer_ip_address: u32,
    pub peer_as: u16,
    pub attr_len: u16,
    pub attributes: &'a [u8],
}

/// What a `TableDumpV4` holds, with the attribute bytes as a sequence.
pub struct TableDumpV4View {
    pub view_num: u16,
    pub seq_num: u16,
    pub prefix: u32,
    pub prefix_len: u8,
    pub originated_time: u32,
    pub peer_ip_address: u32,
    pub peer_as: u16,
    pub attr_len: u16,
    pub attributes: Seq<u8>,
}

impl<'a> View for TableDumpV4<'a> {
    type V = TableDumpV4View;

    open spec fn view(&self) -> TableDumpV4View {
        TableDumpV4View {
            view_num: self.view_num,
            seq_num: self.seq_num,
            prefix: self.prefix,
            prefix_len: self.prefix_len,
            originated_time: self.originated_time,
            peer_ip_address: self.peer_ip_address,
            peer_as: self.peer_as,
            attr_len: self.attr_len,
            attributes: self.attributes@,
        }
    }
}

/// What a body of an IPv4 table dump record decodes to.
///
/// The status byte is looked at as soon as it is there, before the
/// fields behind it are asked for. The attribute span must end where the
/// body ends.
pub open spec fn spec_parse_tabledump_ipv4(body: Seq<u8>) -> Result<TableDumpV4View, DecodeError> {
    if body.len() < 10 {
        Err(DecodeError::Truncated)
    } else if body[9] != 1 {
        Err(DecodeError::InvalidStatus)
    } else if body.len() < 22 {
        Err(DecodeError::Truncated)
    } else {
        let attr_len = u16_be(body.skip(20));
        if body.len() < 22 + attr_len {
            Err(DecodeError::Truncated)
        } else if body.len() > 22 + attr_len {
            Err(DecodeError::TrailingBytes)
        } else {
            Ok(
                TableDumpV4View {
                    view_num: u16_be(body),
                    seq_num: u16_be(body.skip(2)),
                    prefix: u32_be(body.skip(4)),
                    prefix_len: body[8],
                    originated_time: u32_be(body.skip(10)),
                    peer_ip_address: u32_be(body.skip(14)),
                    peer_as: u16_be(body.skip(18)),
                    attr_len,
                    attributes: body.skip(22),
                },
            )
        }
    }
}

/// A body that decodes as a table dump entry holds as many attribute
/// bytes as its attribute length says.
pub proof fn lemma_attr_len_is_span_len(body: Seq<u8>)
    requires
        spec_parse_tabledump_ipv4(body) is Ok,
    ensures
        spec_parse_tabledump_ipv4(body)->Ok_0.attr_len == spec_parse_tabledump_ipv4(
            body,
        )->Ok_0.attributes.len(),
{
}

/// Decodes the body of an IPv4 table dump record. `input` is the whole
/// body: the declared length of the record, no more and no less.
pub fn parse_tabledump_ipv4<'a>(input: &'a [u8]) -> (r: Result<TableDumpV4<'a>, DecodeError>)
    ensures
        match r {
            Ok(entry) => spec_parse_tabledump_ipv4(input@) == Ok::<TableDumpV4View, DecodeError>(
                entry@,
            ),
            Err(e) => spec_parse_tabledump_ipv4(input@) == Err::<TableDumpV4View, DecodeError>(e),
        },
        r matches Ok(entry) ==> entry.attr_len == entry.attributes@.len(),
{
    let mut cursor = ByteCursor::new(input);
    let view_num = cursor.read_u16()?;
    let seq_num = cursor.read_u16()?;
    let prefix = cursor.read_u32()?;
    let prefix_len = cursor.read_u8()?;
    let status = cursor.read_u8()?;
    if status != 1 {
        return Err(DecodeError::InvalidStatus);
    }
    let originated_time = cursor.read_u32()?;
    let peer_ip_address = cursor.read_u32()?;
    let peer_as = cursor.read_u16()?;
    let attributes = cursor.take_u16_prefixed()?;
    if cursor.remaining() != 0 {
        return Err(DecodeError::TrailingBytes);
    }
    assert(attributes@ == input@.skip(22));
    Ok(
        TableDumpV4 {
            view_num,
            seq_num,
            prefix,
            prefix_len,
            originated_time,
            peer_ip_address,
            peer_as,
            attr_len: attributes.len() as u16,
            attributes,
        },
    )
}

} // verus!
