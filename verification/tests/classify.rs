use mrt_dump::kind::{Bgp4MpSubtype, MrtRecordType, TableDumpSubtype, TableDumpV2Subtype};

#[test]
fn table_dump_subtypes() {
    assert_eq!(
        MrtRecordType::from((12, 1)),
        MrtRecordType::TableDump(TableDumpSubtype::AFI_IPv4)
    );
    assert_eq!(
        MrtRecordType::from((12, 2)),
        MrtRecordType::TableDump(TableDumpSubtype::AFI_IPv6)
    );
    assert_eq!(MrtRecordType::from((12, 0)), MrtRecordType::Unknown(12, 0));
    assert_eq!(MrtRecordType::from((12, 3)), MrtRecordType::Unknown(12, 3));
}

#[test]
fn table_dump_v2_subtypes() {
    let expected = [
        TableDumpV2Subtype::PeerIndexTable,
        TableDumpV2Subtype::RibIpv4Unicast,
        TableDumpV2Subtype::RibIpv4Multicast,
        TableDumpV2Subtype::RibIpv6Unicast,
        TableDumpV2Subtype::RibIpv6Multicast,
        TableDumpV2Subtype::RibGeneric,
    ];
    for (i, subtype) in expected.iter().enumerate() {
        assert_eq!(
            MrtRecordType::from((13, i as u16 + 1)),
            MrtRecordType::TableDumpV2(*subtype)
        );
    }
    assert_eq!(MrtRecordType::from((13, 0)), MrtRecordType::Unknown(13, 0));
    assert_eq!(MrtRecordType::from((13, 7)), MrtRecordType::Unknown(13, 7));
}

#[test]
fn bgp4mp_subtypes() {
    let table = [
        (0u16, Bgp4MpSubtype::StateChange),
        (1, Bgp4MpSubtype::Message),
        (4, Bgp4MpSubtype::MessageAs4),
        (5, Bgp4MpSubtype::StateChangeAs4),
        (6, Bgp4MpSubtype::MessageLocal),
        (7, Bgp4MpSubtype::MessageAs4Local),
    ];
    for (code, subtype) in table.iter() {
        assert_eq!(MrtRecordType::from((16, *code)), MrtRecordType::Bgp4Mp(*subtype));
        assert_eq!(MrtRecordType::from((17, *code)), MrtRecordType::Bgp4Mp_ET(*subtype));
    }
    for code in [2u16, 3, 8, 65535] {
        assert_eq!(MrtRecordType::from((16, code)), MrtRecordType::Unknown(16, code));
        assert_eq!(MrtRecordType::from((17, code)), MrtRecordType::Unknown(17, code));
    }
}

#[test]
fn kinds_without_subtypes_take_any_subtype() {
    for subtype in [0u16, 1, 2, 100, 65535] {
        assert_eq!(MrtRecordType::from((11, subtype)), MrtRecordType::Ospfv2);
        assert_eq!(MrtRecordType::from((32, subtype)), MrtRecordType::Isis);
        assert_eq!(MrtRecordType::from((33, subtype)), MrtRecordType::Isis_ET);
        assert_eq!(MrtRecordType::from((48, subtype)), MrtRecordType::OspfV3);
        assert_eq!(MrtRecordType::from((49, subtype)), MrtRecordType::OspfV3_ET);
    }
}

#[test]
fn unassigned_type_codes_are_reserved() {
    assert_eq!(MrtRecordType::from((99, 0)), MrtRecordType::Reserved(99));
    assert_eq!(MrtRecordType::from((0, 1)), MrtRecordType::Reserved(0));
    assert_eq!(MrtRecordType::from((10, 1)), MrtRecordType::Reserved(10));
    assert_eq!(MrtRecordType::from((14, 1)), MrtRecordType::Reserved(14));
    assert_eq!(MrtRecordType::from((65535, 65535)), MrtRecordType::Reserved(65535));
}

#[test]
fn every_type_code_classifies() {
    let assigned = [11u16, 12, 13, 16, 17, 32, 33, 48, 49];
    for type_code in 0..=u16::MAX {
        for subtype in [0u16, 1, 2, 3, 4, 5, 6, 7, 8, 65535] {
            let kind = MrtRecordType::from((type_code, subtype));
            if assigned.contains(&type_code) {
                assert_ne!(kind, MrtRecordType::Reserved(type_code));
            } else {
                assert_eq!(kind, MrtRecordType::Reserved(type_code));
            }
        }
    }
}

#[test]
fn extended_kinds_are_the_three_et_variants() {
    assert!(MrtRecordType::Bgp4Mp_ET(Bgp4MpSubtype::StateChange).is_et());
    assert!(MrtRecordType::Bgp4Mp_ET(Bgp4MpSubtype::MessageAs4Local).is_et());
    assert!(MrtRecordType::Isis_ET.is_et());
    assert!(MrtRecordType::OspfV3_ET.is_et());

    assert!(!MrtRecordType::Ospfv2.is_et());
    assert!(!MrtRecordType::TableDump(TableDumpSubtype::AFI_IPv4).is_et());
    assert!(!MrtRecordType::TableDump(TableDumpSubtype::AFI_IPv6).is_et());
    assert!(!MrtRecordType::TableDumpV2(TableDumpV2Subtype::RibGeneric).is_et());
    assert!(!MrtRecordType::Bgp4Mp(Bgp4MpSubtype::Message).is_et());
    assert!(!MrtRecordType::Isis.is_et());
    assert!(!MrtRecordType::OspfV3.is_et());
    assert!(!MrtRecordType::Unknown(17, 2).is_et());
    assert!(!MrtRecordType::Reserved(99).is_et());
}

#[test]
fn extended_type_with_unlisted_subtype_is_not_extended() {
    let kind = MrtRecordType::from((17, 3));
    assert_eq!(kind, MrtRecordType::Unknown(17, 3));
    assert!(!kind.is_et());
}
