//! Decoder for MRT routing dumps.
//!
//! An MRT dump is a sequence of records, each made of a common header
//! (timestamp, type code, subtype code, declared body length, and for the
//! extended-timestamp kinds a microsecond offset) followed by a body of
//! exactly the declared length. The decoder walks a borrowed byte region
//! record by record, classifies each record, decodes the bodies it knows
//! and hands the others out as opaque spans. The declared length alone
//! decides where the next record starts.

pub mod kind;
pub mod wire;
pub mod error;
pub mod cursor;
pub mod header;
pub mod table_dump;
pub mod record;
pub mod dump;
pub mod framing;

pub use cursor::ByteCursor;
pub use dump::{MrtDump, MrtDumpIterator, StreamState};
pub use error::DecodeError;
pub use header::{parse_header, RecordHeader};
pub use kind::{Bgp4MpSubtype, MrtRecordType, TableDumpSubtype, TableDumpV2Subtype};
pub use record::{parse_message, parse_record, MrtRecord, MrtRecordMessage};
pub use table_dump::{parse_tabledump_ipv4, TableDumpV4};
