//! A dump as a forward-only stream of records.

use crate::cursor::ByteCursor;
use crate::error::DecodeError;
use crate::header::spec_parse_header;
use crate::record::{outcome_view, parse_record, spec_parse_record, MrtRecord, MrtRecordView};
use vstd::prelude::*;

verus! {

/// Where a stream stands.
#[derive(Clone, Copy, Debug, PartialEq, Eq, Structural)]
pub enum StreamState {
    /// In front of a record, or at the end of the region without having
    /// been asked since.
    Positioned,
    /// The region was read to its end.
    Exhausted,
    /// The region ends inside a record header. The stream has said so
    /// once and yields nothing more.
    Faulted,
}

/// What a stream is made of: the bytes in front of it, how many lie
/// behind it, how many record headers it has decoded, and its state.
pub struct StreamView {
    pub unread: Seq<u8>,
    pub position: nat,
    pub index: nat,
    pub state: StreamState,
}

/// What one advance of a stream yields, and the stream after it.
pub struct StreamStep {
    pub item: Option<Result<MrtRecordView, DecodeError>>,
    pub after: StreamView,
}

/// One advance of a stream.
///
/// A stream that is not `Positioned` yields nothing and stays as it is.
/// At the end of the region it becomes `Exhausted`. In front of a header
/// that is cut short it reports `TruncatedHeader`, takes nothing and
/// becomes `Faulted`. Otherwise it yields what the record decodes to and
/// passes over the header and the declared body.
pub open spec fn spec_next(stream: StreamView) -> StreamStep {
    if stream.state != StreamState::Positioned {
        StreamStep { item: None, after: stream }
    } else if stream.unread.len() == 0 {
        StreamStep { item: None, after: StreamView { state: StreamState::Exhausted, ..stream } }
    } else {
        let step = spec_parse_record(stream.unread);
        let faulted = spec_parse_header(stream.unread) is None;
        StreamStep {
            item: Some(step.outcome),
            after: StreamView {
                unread: stream.unread.skip(step.consumed as int),
                position: stream.position + step.consumed,
                index: if faulted {
                    stream.index
                } else {
                    stream.index + 1
                },
                state: if faulted {
                    StreamState::Faulted
                } else {
                    StreamState::Positioned
                },
            },
        }
    }
}

/// Everything that a stream over `s` yields, in order.
pub open spec fn spec_records(s: Seq<u8>) -> Seq<Result<MrtRecordView, DecodeError>>
    decreases s.len(),
{
    if s.len() == 0 {
        Seq::empty()
    } else {
        let step = spec_parse_record(s);
        if spec_parse_header(s) is None {
            seq![step.outcome]
        } else {
            seq![step.outcome] + spec_records(s.skip(step.consumed as int))
        }
    }
}

/// What a stream yields advance by advance is what `spec_records` lists:
/// nothing at the end of the region; otherwise the item of the advance,
/// and then, unless the stream faulted, what is listed for the bytes
/// behind the record.
pub proof fn lemma_next_unfolds_records(stream: StreamView)
    requires
        stream.state == StreamState::Positioned,
    ensures
        match spec_next(stream).item {
            None => spec_records(stream.unread) == Seq::<
                Result<MrtRecordView, DecodeError>,
            >::empty(),
            Some(item) => spec_records(stream.unread) == seq![item] + (if spec_next(
                stream,
            ).after.state == StreamState::Positioned {
                spec_records(spec_next(stream).after.unread)
            } else {
                Seq::empty()
            }),
        },
{
}

/// The views of what a stream yielded.
pub open spec fn outcomes_view(outcomes: Seq<Result<MrtRecord, DecodeError>>) -> Seq<
    Result<MrtRecordView, DecodeError>,
> {
    Seq::new(outcomes.len(), |i: int| outcome_view(outcomes[i]))
}

/// A dump: a byte region that holds records back to back.
#[derive(Clone, Copy, Debug)]
pub struct MrtDump<'a> {
    buffer: &'a [u8],
}

impl<'a> View for MrtDump<'a> {
    type V = Seq<u8>;

    closed spec fn view(&self) -> Seq<u8> {
        self.buffer@
    }
}

/// A stream over the records of a dump.
#[derive(Debug)]
pub struct MrtDumpIterator<'a> {
    cursor: ByteCursor<'a>,
    index: usize,
    state: StreamState,
}

impl<'a> View for MrtDumpIterator<'a> {
    type V = StreamView;

    closed spec fn view(&self) -> StreamView {
        StreamView {
            unread: self.cursor.unread(),
            position: self.cursor.pos(),
            index: self.index as nat,
            state: self.state,
        }
    }
}

impl<'a> MrtDump<'a> {
    /// The dump that `byte_slice` holds.
    pub fn new(byte_slice: &'a [u8]) -> (r: MrtDump<'a>)
        ensures
            r@ == byte_slice@,
    {
        MrtDump { buffer: byte_slice }
    }

    /// A stream in front of the first record.
    pub fn into_iter(self) -> (r: MrtDumpIterator<'a>)
        ensures
            r@ == (StreamView {
                unread: self@,
                position: 0,
                index: 0,
                state: StreamState::Positioned,
            }),
    {
        MrtDumpIterator {
            cursor: ByteCursor::new(self.buffer),
            index: 0,
            state: StreamState::Positioned,
        }
    }

    /// Everything that a stream over the dump yields, in order.
    pub fn records(&self) -> (r: Vec<Result<MrtRecord<'a>, DecodeError>>)
        ensures
            r@.len() == spec_records(self@).len(),
            outcomes_view(r@) == spec_records(self@),
    {
        let mut stream = self.into_iter();
        let mut out: Vec<Result<MrtRecord<'a>, DecodeError>> = Vec::new();
        loop
            invariant
                stream@.state == StreamState::Positioned ==> spec_records(self@) == outcomes_view(
                    out@,
                ) + spec_records(stream@.unread),
                stream@.state != StreamState::Positioned ==> spec_records(self@) == outcomes_view(
                    out@,
                ),
            ensures
                spec_records(self@) == outcomes_view(out@),
            decreases
                stream@.unread.len() + (if stream@.state == StreamState::Positioned {
                    1nat
                } else {
                    0nat
                }),
        {
            let ghost before = out@;
            match stream.next() {
                Some(outcome) => {
                    out.push(outcome);
                    assert(outcomes_view(out@) == outcomes_view(before).push(
                        outcome_view(outcome),
                    ));
                },
                None => {
                    break ;
                },
            }
        }
        out
    }
}

impl<'a> MrtDumpIterator<'a> {
    #[verifier::type_invariant]
    spec fn inv(self) -> bool {
        self.index * 12 <= self.cursor.pos()
    }

    /// Decodes the next record, if the stream has one.
    ///
    /// `None` is the end of the stream. `Some(Err(..))` is a record that
    /// could not be decoded; unless the error is `TruncatedHeader` the
    /// stream stands in front of the record that follows it.
    pub fn next(&mut self) -> (r: Option<Result<MrtRecord<'a>, DecodeError>>)
        ensures
            final(self)@ == spec_next(old(self)@).after,
            match r {
                Some(outcome) => spec_next(old(self)@).item == Some(outcome_view(outcome)),
                None => spec_next(old(self)@).item is None,
            },
    {
        proof {
            use_type_invariant(&*self);
        }
        match self.state {
            StreamState::Positioned => {},
            _ => {
                return None;
            },
        }
        if self.cursor.remaining() == 0 {
            self.state = StreamState::Exhausted;
            return None;
        }
        let mut cursor = self.cursor;
        let outcome = parse_record(&mut cursor);
        match outcome {
            Err(DecodeError::TruncatedHeader) => {
                assert(cursor.unread() == self.cursor.unread());
                self.state = StreamState::Faulted;
            },
            _ => {
                proof {
                    use_type_invariant(&cursor);
                }
                self.cursor = cursor;
                self.index = self.index + 1;
            },
        }
        Some(outcome)
    }

    /// Where the stream stands.
    pub fn state(&self) -> (r: StreamState)
        ensures
            r == self@.state,
    {
        self.state
    }

    /// The number of record headers decoded so far.
    pub fn index(&self) -> (r: usize)
        ensures
            r == self@.index,
    {
        self.index
    }

    /// The number of bytes that lie behind the stream.
    pub fn position(&self) -> (r: usize)
        ensures
            r == self@.position,
    {
        self.cursor.position()
    }

    /// The number of bytes in front of the stream.
    pub fn remaining(&self) -> (r: usize)
        ensures
            r == self@.unread.len(),
    {
        self.cursor.remaining()
    }
}

} // verus!
