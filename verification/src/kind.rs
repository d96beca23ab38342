//! Classification of records by type code and subtype code.

use vstd::prelude::*;
use vstd::std_specs::convert::FromSpecImpl;

verus! {

/// Address family of a `TABLE_DUMP` record.
#[allow(non_camel_case_types)]
#[derive(Clone, Copy, Debug, PartialEq, Eq, Structural)]
pub enum TableDumpSubtype {
    AFI_IPv4,
    AFI_IPv6,
}

/// Subtypes of a `TABLE_DUMP_V2` record.
#[derive(Clone, Copy, Debug, PartialEq, Eq, Structural)]
pub enum TableDumpV2Subtype {
    PeerIndexTable,
    RibIpv4Unicast,
    RibIpv4Multicast,
    RibIpv6Unicast,
    RibIpv6Multicast,
    RibGeneric,
}

/// Subtypes of a `BGP4MP` or `BGP4MP_ET` record.
#[derive(Clone, Copy, Debug, PartialEq, Eq, Structural)]
pub enum Bgp4MpSubtype {
    StateChange,
    Message,
    MessageAs4,
    StateChangeAs4,
    MessageLocal,
    MessageAs4Local,
}

/// What a record is, as told by its type code and subtype code.
///
/// `Unknown` keeps both codes of a record whose type code is assigned but
/// whose subtype is not; `Reserved` keeps the type code of a record whose
/// type code is not assigned.
#[allow(non_camel_case_types)]
#[derive(Clone, Copy, Debug, PartialEq, Eq, Structural)]
pub enum MrtRecordType {
    /// Type code 11.
    Ospfv2,
    /// Type code 12.
    TableDump(TableDumpSubtype),
    /// Type code 13.
    TableDumpV2(TableDumpV2Subtype),
    /// Type code 16.
    Bgp4Mp(Bgp4MpSubtype),
    /// Type code 17.
    Bgp4Mp_ET(Bgp4MpSubtype),
    /// Type code 32.
    Isis,
    /// Type code 33.
    Isis_ET,
    /// Type code 48.
    OspfV3,
    /// Type code 49.
    OspfV3_ET,
    Unknown(u16, u16),
    Reserved(u16),
}

/// The subtype table of `TABLE_DUMP`.
pub open spec fn table_dump_subtype(subtype_code: u16) -> Option<TableDumpSubtype> {
    if subtype_code == 1 {
        Some(TableDumpSubtype::AFI_IPv4)
    } else if subtype_code == 2 {
        Some(TableDumpSubtype::AFI_IPv6)
    } else {
        None
    }
}

/// The subtype table of `TABLE_DUMP_V2`.
pub open spec fn table_dump_v2_subtype(subtype_code: u16) -> Option<TableDumpV2Subtype> {
    if subtype_code == 1 {
        Some(TableDumpV2Subtype::PeerIndexTable)
    } else if subtype_code == 2 {
        Some(TableDumpV2Subtype::RibIpv4Unicast)
    } else if subtype_code == 3 {
        Some(TableDumpV2Subtype::RibIpv4Multicast)
    } else if subtype_code == 4 {
        Some(TableDumpV2Subtype::RibIpv6Unicast)
    } else if subtype_code == 5 {
        Some(TableDumpV2Subtype::RibIpv6Multicast)
    } else if subtype_code == 6 {
        Some(TableDumpV2Subtype::RibGeneric)
    } else {
        None
    }
}

/// The subtype table shared by `BGP4MP` and `BGP4MP_ET`.
pub open spec fn bgp4mp_subtype(subtype_code: u16) -> Option<Bgp4MpSubtype> {
    if subtype_code == 0 {
        Some(Bgp4MpSubtype::StateChange)
    } else if subtype_code == 1 {
        Some(Bgp4MpSubtype::Message)
    } else if subtype_code == 4 {
        Some(Bgp4MpSubtype::MessageAs4)
    } else if subtype_code == 5 {
        Some(Bgp4MpSubtype::StateChangeAs4)
    } else if subtype_code == 6 {
        Some(Bgp4MpSubtype::MessageLocal)
    } else if subtype_code == 7 {
        Some(Bgp4MpSubtype::MessageAs4Local)
    } else {
        None
    }
}

/// Whether a type code is one of the nine assigned ones.
pub open spec fn is_assigned_type(type_code: u16) -> bool {
    type_code == 11 || type_code == 12 || type_code == 13 || type_code == 16 || type_code == 17
        || type_code == 32 || type_code == 33 || type_code == 48 || type_code == 49
}

/// The classification of a pair of codes: defined for every pair.
pub open spec fn classify(type_code: u16, subtype_code: u16) -> MrtRecordType {
    let unknown = MrtRecordType::Unknown(type_code, subtype_code);
    if type_code == 11 {
        MrtRecordType::Ospfv2
    } else if type_code == 12 {
        match table_dump_subtype(subtype_code) {
            Some(s) => MrtRecordType::TableDump(s),
            None => unknown,
        }
    } else if type_code == 13 {
        match table_dump_v2_subtype(subtype_code) {
            Some(s) => MrtRecordType::TableDumpV2(s),
            None => unknown,
        }
    } else if type_code == 16 {
        match bgp4mp_subtype(subtype_code) {
            Some(s) => MrtRecordType::Bgp4Mp(s),
            None => unknown,
        }
    } else if type_code == 17 {
        match bgp4mp_subtype(subtype_code) {
            Some(s) => MrtRecordType::Bgp4Mp_ET(s),
            None => unknown,
        }
    } else if type_code == 32 {
        MrtRecordType::Isis
    } else if type_code == 33 {
        MrtRecordType::Isis_ET
    } else if type_code == 48 {
        MrtRecordType::OspfV3
    } else if type_code == 49 {
        MrtRecordType::OspfV3_ET
    } else {
        MrtRecordType::Reserved(type_code)
    }
}

/// Whether records of this kind carry the microsecond field after the
/// common header.
pub open spec fn is_extended(kind: MrtRecordType) -> bool {
    kind is Bgp4Mp_ET || kind is Isis_ET || kind is OspfV3_ET
}

/// Whether the table of an assigned type code lists the subtype code.
/// The types that have no subtypes take any subtype code.
pub open spec fn is_listed_subtype(type_code: u16, subtype_code: u16) -> bool {
    if type_code == 12 {
        table_dump_subtype(subtype_code) is Some
    } else if type_code == 13 {
        table_dump_v2_subtype(subtype_code) is Some
    } else if type_code == 16 || type_code == 17 {
        bgp4mp_subtype(subtype_code) is Some
    } else {
        is_assigned_type(type_code)
    }
}

/// Every pair of codes falls under exactly one of three heads. A type
/// code that is not assigned gives `Reserved` with that code. An assigned
/// type code with a subtype code that its table does not list gives
/// `Unknown` with both codes. Every other pair gives a named kind.
pub proof fn lemma_classify_partition(type_code: u16, subtype_code: u16)
    ensures
        !is_assigned_type(type_code) <==> classify(type_code, subtype_code)
            == MrtRecordType::Reserved(type_code),
        is_assigned_type(type_code) && !is_listed_subtype(type_code, subtype_code) <==> classify(
            type_code,
            subtype_code,
        ) == MrtRecordType::Unknown(type_code, subtype_code),
        classify(type_code, subtype_code) is Reserved ==> !is_assigned_type(type_code),
        classify(type_code, subtype_code) is Unknown ==> is_assigned_type(type_code)
            && !is_listed_subtype(type_code, subtype_code),
{
}

/// The kinds that carry the microsecond field are those of the type
/// codes 17, 33 and 49, type code 17 only with a subtype code that its
/// table lists: neither `Unknown` nor `Reserved` is among them.
pub proof fn lemma_extended_codes(type_code: u16, subtype_code: u16)
    ensures
        is_extended(classify(type_code, subtype_code)) <==> (type_code == 17 && bgp4mp_subtype(
            subtype_code,
        ) is Some) || type_code == 33 || type_code == 49,
        is_extended(classify(type_code, subtype_code)) ==> is_assigned_type(type_code)
            && is_listed_subtype(type_code, subtype_code),
{
}

impl MrtRecordType {
    /// Whether records of this kind carry the microsecond field.
    pub fn is_et(&self) -> (r: bool)
        ensures
            r == is_extended(*self),
    {
        match *self {
            MrtRecordType::Bgp4Mp_ET(_) => true,
            MrtRecordType::Isis_ET => true,
            MrtRecordType::OspfV3_ET => true,
            _ => false,
        }
    }
}

impl FromSpecImpl<(u16, u16)> for MrtRecordType {
    open spec fn obeys_from_spec() -> bool {
        true
    }

    open spec fn from_spec(t: (u16, u16)) -> MrtRecordType {
        classify(t.0, t.1)
    }
}

impl From<(u16, u16)> for MrtRecordType {
    /// Classifies a pair of type code and subtype code.
    fn from(t: (u16, u16)) -> (r: MrtRecordType) {
        match t.0 {
            11 => MrtRecordType::Ospfv2,
            12 => {
                match t.1 {
                    1 => MrtRecordType::TableDump(TableDumpSubtype::AFI_IPv4),
                    2 => MrtRecordType::TableDump(TableDumpSubtype::AFI_IPv6),
                    _ => MrtRecordType::Unknown(t.0, t.1),
                }
            },
            13 => {
                match t.1 {
                    1 => MrtRecordType::TableDumpV2(TableDumpV2Subtype::PeerIndexTable),
                    2 => MrtRecordType::TableDumpV2(TableDumpV2Subtype::RibIpv4Unicast),
                    3 => MrtRecordType::TableDumpV2(TableDumpV2Subtype::RibIpv4Multicast),
                    4 => MrtRecordType::TableDumpV2(TableDumpV2Subtype::RibIpv6Unicast),
                    5 => MrtRecordType::TableDumpV2(TableDumpV2Subtype::RibIpv6Multicast),
                    6 => MrtRecordType::TableDumpV2(TableDumpV2Subtype::RibGeneric),
                    _ => MrtRecordType::Unknown(t.0, t.1),
                }
            },
            16 => {
                match t.1 {
                    0 => MrtRecordType::Bgp4Mp(Bgp4MpSubtype::StateChange),
                    1 => MrtRecordType::Bgp4Mp(Bgp4MpSubtype::Message),
                    4 => MrtRecordType::Bgp4Mp(Bgp4MpSubtype::MessageAs4),
                    5 => MrtRecordType::Bgp4Mp(Bgp4MpSubtype::StateChangeAs4),
                    6 => MrtRecordType::Bgp4Mp(Bgp4MpSubtype::MessageLocal),
                    7 => MrtRecordType::Bgp4Mp(Bgp4MpSubtype::MessageAs4Local),
                    _ => MrtRecordType::Unknown(t.0, t.1),
                }
            },
            17 => {
                match t.1 {
                    0 => MrtRecordType::Bgp4Mp_ET(Bgp4MpSubtype::StateChange),
                    1 => MrtRecordType::Bgp4Mp_ET(Bgp4MpSubtype::Message),
                    4 => MrtRecordType::Bgp4Mp_ET(Bgp4MpSubtype::MessageAs4),
                    5 => MrtRecordType::Bgp4Mp_ET(Bgp4MpSubtype::StateChangeAs4),
                    6 => MrtRecordType::Bgp4Mp_ET(Bgp4MpSubtype::MessageLocal),
                    7 => MrtRecordType::Bgp4Mp_ET(Bgp4MpSubtype::MessageAs4Local),
                    _ => MrtRecordType::Unknown(t.0, t.1),
                }
            },
            32 => MrtRecordType::Isis,
            33 => MrtRecordType::Isis_ET,
            48 => MrtRecordType::OspfV3,
            49 => MrtRecordType::OspfV3_ET,
            _ => MrtRecordType::Reserved(t.0),
        }
    }
}

} // verus!
