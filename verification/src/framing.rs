//! How records follow one another: the declared length of a record, and
//! nothing else, decides where the next one starts.

use crate::dump::spec_records;
use crate::error::DecodeError;
use crate::header::{header_bytes, lemma_header_encode_decode, spec_parse_header, RecordHeader};
use crate::kind::{MrtRecordType, TableDumpSubtype};
use crate::record::{has_decoder, spec_parse_record, MrtRecordMessageView, MrtRecordView};
use crate::table_dump::spec_parse_tabledump_ipv4;
use vstd::prelude::*;

verus! {

/// Whether `record` is one whole record and no more: a header, and a body
/// of the length that the header declares.
pub open spec fn is_complete_record(record: Seq<u8>) -> bool {
    spec_parse_header(record) matches Some(header) && record.len() == header.encoded_len()
        + header.length
}

/// The header of a complete record.
pub open spec fn record_header(record: Seq<u8>) -> RecordHeader
    recommends
        is_complete_record(record),
{
    spec_parse_header(record)->0
}

/// The body of a complete record.
pub open spec fn record_body(record: Seq<u8>) -> Seq<u8>
    recommends
        is_complete_record(record),
{
    record.skip(record_header(record).encoded_len() as int)
}

/// Whether `record` is a complete IPv4 table dump record whose body
/// decodes.
pub open spec fn is_table_dump_record(record: Seq<u8>) -> bool {
    &&& is_complete_record(record)
    &&& record_header(record).spec_kind() == MrtRecordType::TableDump(TableDumpSubtype::AFI_IPv4)
    &&& spec_parse_tabledump_ipv4(record_body(record)) is Ok
}

/// What each of `records` decodes to by itself, in their order.
pub open spec fn record_outcomes(records: Seq<Seq<u8>>) -> Seq<Result<MrtRecordView, DecodeError>> {
    Seq::new(records.len(), |i: int| spec_parse_record(records[i]).outcome)
}

/// The byte sequences of `records` laid end to end.
pub open spec fn join(records: Seq<Seq<u8>>) -> Seq<u8>
    decreases records.len(),
{
    if records.len() == 0 {
        Seq::empty()
    } else {
        records[0] + join(records.skip(1))
    }
}

/// A well-formed header written out, with a body of the length that it
/// declares behind it, is a complete record. Decoding it gives the header
/// and the body back, field for field and byte for byte, and the decoded
/// header written out again is the bytes in front of the body.
pub proof fn lemma_written_record_round_trips(header: RecordHeader, body: Seq<u8>)
    requires
        header.wf(),
        body.len() == header.length,
    ensures
        is_complete_record(header_bytes(header) + body),
        record_header(header_bytes(header) + body) == header,
        record_body(header_bytes(header) + body) == body,
        header_bytes(record_header(header_bytes(header) + body)) == (header_bytes(header)
            + body).take(header.encoded_len() as int),
        spec_parse_record(header_bytes(header) + body).consumed == header.encoded_len()
            + header.length,
{
    let record = header_bytes(header) + body;
    lemma_header_encode_decode(header, body);
    assert(record.skip(header.encoded_len() as int) =~= body);
    assert(record.take(header.encoded_len() as int) =~= header_bytes(header));
}

/// A header reads the same whatever follows it.
pub proof fn lemma_header_ignores_tail(s: Seq<u8>, tail: Seq<u8>)
    requires
        spec_parse_header(s) is Some,
    ensures
        spec_parse_header(s + tail) == spec_parse_header(s),
{
    let header = spec_parse_header(s)->0;
    let whole = s + tail;
    assert(whole.take(header.encoded_len() as int) =~= s.take(header.encoded_len() as int));
    assert(whole.skip(4).take(2) =~= s.skip(4).take(2));
}

/// A complete record decodes to the same thing whatever follows it, and
/// takes up its own length.
pub proof fn lemma_record_ignores_tail(record: Seq<u8>, tail: Seq<u8>)
    requires
        is_complete_record(record),
    ensures
        spec_parse_record(record + tail) == spec_parse_record(record),
        spec_parse_record(record).consumed == record.len(),
{
    let header = record_header(record);
    lemma_header_ignores_tail(record, tail);
    let start = header.encoded_len() as int;
    let end = start + header.length;
    assert((record + tail).subrange(start, end) =~= record.subrange(start, end));
}

/// The stream over a complete record and what follows it yields what the
/// record decodes to, and then what the stream over the rest yields:
/// whether the body decoded or not, and however much of it its decoder
/// read.
pub proof fn lemma_stream_resynchronizes(record: Seq<u8>, rest: Seq<u8>)
    requires
        is_complete_record(record),
    ensures
        spec_records(record + rest) == seq![spec_parse_record(record).outcome] + spec_records(
            rest,
        ),
{
    lemma_record_ignores_tail(record, rest);
    assert((record + rest).skip(record.len() as int) =~= rest);
}

/// A stream over complete records laid end to end, with anything behind
/// them, yields one item for each record, in their order: what that
/// record decodes to by itself. Then it yields what a stream over the
/// rest yields.
pub proof fn lemma_stream_of_complete_records(records: Seq<Seq<u8>>, rest: Seq<u8>)
    requires
        forall|i: int| 0 <= i < records.len() ==> is_complete_record(#[trigger] records[i]),
    ensures
        spec_records(join(records) + rest) == record_outcomes(records) + spec_records(rest),
    decreases records.len(),
{
    if records.len() == 0 {
        assert(join(records) + rest =~= rest);
        assert(record_outcomes(records) + spec_records(rest) =~= spec_records(rest));
    } else {
        let tail = records.skip(1);
        assert forall|i: int| 0 <= i < tail.len() implies is_complete_record(
            #[trigger] tail[i],
        ) by {
            assert(tail[i] == records[i + 1]);
        }
        lemma_stream_of_complete_records(tail, rest);
        lemma_stream_resynchronizes(records[0], join(tail) + rest);
        assert(join(records) + rest =~= records[0] + (join(tail) + rest));
        assert(record_outcomes(records) =~= seq![spec_parse_record(records[0]).outcome]
            + record_outcomes(tail));
    }
}

/// A stream over well-formed IPv4 table dump records laid end to end
/// yields as many records as there are, in their order, each a table
/// dump entry whose attribute length is the length of its attribute
/// span.
pub proof fn lemma_stream_of_table_dump_records(records: Seq<Seq<u8>>)
    requires
        forall|i: int| 0 <= i < records.len() ==> is_table_dump_record(#[trigger] records[i]),
    ensures
        spec_records(join(records)) == record_outcomes(records),
        spec_records(join(records)).len() == records.len(),
        forall|i: int|
            0 <= i < records.len() ==> {
                &&& #[trigger] spec_records(join(records))[i] matches Ok(record)
                &&& record.message matches MrtRecordMessageView::TableDump(entry)
                &&& entry == spec_parse_tabledump_ipv4(record_body(records[i]))->Ok_0
                &&& entry.attr_len == entry.attributes.len()
            },
{
    lemma_stream_of_complete_records(records, Seq::empty());
    assert(join(records) + Seq::<u8>::empty() =~= join(records));
    assert(spec_records(join(records)) =~= record_outcomes(records));
    assert forall|i: int| 0 <= i < records.len() implies {
        &&& #[trigger] spec_records(join(records))[i] matches Ok(record)
        &&& record.message matches MrtRecordMessageView::TableDump(entry)
        &&& entry == spec_parse_tabledump_ipv4(record_body(records[i]))->Ok_0
        &&& entry.attr_len == entry.attributes.len()
    } by {
        let record = records[i];
        assert(is_table_dump_record(record));
        let header = record_header(record);
        assert(record.subrange(header.encoded_len() as int, record.len() as int)
            =~= record_body(record));
    }
}

/// A complete IPv4 table dump record whose status byte is not 1 yields
/// `InvalidStatus`, and the stream goes on with the record that follows
/// it.
pub proof fn lemma_invalid_status_resynchronizes(record: Seq<u8>, rest: Seq<u8>)
    requires
        is_complete_record(record),
        record_header(record).spec_kind() == MrtRecordType::TableDump(TableDumpSubtype::AFI_IPv4),
        record_body(record).len() >= 10,
        record_body(record)[9] != 1,
    ensures
        spec_records(record + rest) == seq![
            Err::<MrtRecordView, DecodeError>(DecodeError::InvalidStatus),
        ] + spec_records(rest),
{
    lemma_stream_resynchronizes(record, rest);
    let header = record_header(record);
    assert(record.subrange(header.encoded_len() as int, record.len() as int) =~= record_body(
        record,
    ));
}

/// A complete record of a kind that has no decoder yields a record whose
/// body is opaque: the declared number of bytes, as they stand in the
/// file. The stream goes on with the record that follows it.
pub proof fn lemma_undecoded_kind_is_opaque(record: Seq<u8>, rest: Seq<u8>)
    requires
        is_complete_record(record),
        !has_decoder(record_header(record).spec_kind()),
    ensures
        spec_parse_record(record).outcome == Ok::<MrtRecordView, DecodeError>(
            MrtRecordView {
                timestamp: record_header(record).timestamp,
                microseconds: record_header(record).microseconds,
                record_type: record_header(record).spec_kind(),
                record_size: record_header(record).length,
                message: MrtRecordMessageView::Opaque(record_body(record)),
            },
        ),
        record_body(record).len() == record_header(record).length,
        spec_records(record + rest) == seq![spec_parse_record(record).outcome] + spec_records(
            rest,
        ),
{
    lemma_stream_resynchronizes(record, rest);
    let header = record_header(record);
    assert(record.subrange(header.encoded_len() as int, record.len() as int) =~= record_body(
        record,
    ));
}

/// Where the region ends inside the declared body of a record, the
/// stream yields `Truncated` for that record and nothing after it.
pub proof fn lemma_truncated_body_ends_stream(s: Seq<u8>)
    requires
        spec_parse_header(s) is Some,
        s.len() < spec_parse_header(s)->0.encoded_len() + spec_parse_header(s)->0.length,
    ensures
        spec_records(s) == seq![Err::<MrtRecordView, DecodeError>(DecodeError::Truncated)],
{
    assert(s.skip(s.len() as int) =~= Seq::<u8>::empty());
    assert(spec_records(s.skip(s.len() as int)) =~= Seq::empty());
}

/// A complete record with a body that has lost its last byte is a record
/// whose body is cut short: the stream over it yields `Truncated` and
/// ends.
pub proof fn lemma_cut_last_byte(record: Seq<u8>)
    requires
        is_complete_record(record),
        record_header(record).length > 0,
    ensures
        spec_records(record.drop_last()) == seq![
            Err::<MrtRecordView, DecodeError>(DecodeError::Truncated),
        ],
{
    let cut = record.drop_last();
    let header = record_header(record);
    assert(cut.take(header.encoded_len() as int) =~= record.take(header.encoded_len() as int));
    assert(spec_parse_header(cut) == spec_parse_header(record));
    lemma_truncated_body_ends_stream(cut);
}

/// Complete records laid end to end, the last of them having lost the
/// last byte of its body: the stream yields what the records in front
/// decode to, then `Truncated` for the last, and nothing after it.
pub proof fn lemma_cut_final_record(records: Seq<Seq<u8>>, last: Seq<u8>)
    requires
        forall|i: int| 0 <= i < records.len() ==> is_complete_record(#[trigger] records[i]),
        is_complete_record(last),
        record_header(last).length > 0,
    ensures
        spec_records(join(records) + last.drop_last()) == record_outcomes(records) + seq![
            Err::<MrtRecordView, DecodeError>(DecodeError::Truncated),
        ],
{
    lemma_stream_of_complete_records(records, last.drop_last());
    lemma_cut_last_byte(last);
}

} // verus!
