use ieee80211_mgmt::{CodecError, DataFrameSubtype, ManagementFrameSubtype};

const DATA_TABLE: [(u8, DataFrameSubtype); 15] = [
    (0b0000, DataFrameSubtype::Data),
    (0b0001, DataFrameSubtype::DataCFAck),
    (0b0010, DataFrameSubtype::DataCFPoll),
    (0b0011, DataFrameSubtype::DataCFAckCFPoll),
    (0b0100, DataFrameSubtype::Null),
    (0b0101, DataFrameSubtype::CFAck),
    (0b0110, DataFrameSubtype::CFPoll),
    (0b0111, DataFrameSubtype::CFAckCFPoll),
    (0b1000, DataFrameSubtype::QoSData),
    (0b1001, DataFrameSubtype::QoSDataCFAck),
    (0b1010, DataFrameSubtype::QoSDataCFPoll),
    (0b1011, DataFrameSubtype::QoSDataCFAckCFPoll),
    (0b1100, DataFrameSubtype::QoSNull),
    (0b1110, DataFrameSubtype::QoSCFPoll),
    (0b1111, DataFrameSubtype::QoSCFAckCFPoll),
];

#[test]
fn data_codes_decode_to_table_variants() {
    for (code, variant) in DATA_TABLE {
        assert_eq!(DataFrameSubtype::from_bits(code), Ok(variant));
        assert_eq!(variant.into_bits(), code);
    }
}

#[test]
fn data_code_bijection() {
    for code in 0u8..16 {
        if let Ok(s) = DataFrameSubtype::from_bits(code) {
            assert_eq!(s.into_bits(), code);
        }
    }
    for (_, variant) in DATA_TABLE {
        assert_eq!(DataFrameSubtype::from_bits(variant.into_bits()), Ok(variant));
    }
}

#[test]
fn unassigned_data_code_is_unknown() {
    assert_eq!(
        DataFrameSubtype::from_bits(0b1101),
        Err(CodecError::UnknownSubtype { code: 0b1101 })
    );
    assert_eq!(
        DataFrameSubtype::from_bits(16),
        Err(CodecError::UnknownSubtype { code: 16 })
    );
}

#[test]
fn qos_null_is_qos_without_payload() {
    let s = DataFrameSubtype::from_bits(0b1100).unwrap();
    assert_eq!(s, DataFrameSubtype::QoSNull);
    assert!(s.is_qos());
    assert!(!s.has_payload());
}

#[test]
fn predicates_cover_every_data_variant() {
    let mut qos = 0;
    let mut payload = 0;
    for (code, variant) in DATA_TABLE {
        assert_eq!(variant.is_qos(), code >= 0b1000);
        assert_eq!(variant.has_payload(), code & 0b0100 == 0);
        if variant.is_qos() {
            qos += 1;
        }
        if variant.has_payload() {
            payload += 1;
        }
    }
    assert_eq!(qos, 7);
    assert_eq!(payload, 8);
    assert!(DataFrameSubtype::Data.has_payload());
    assert!(!DataFrameSubtype::Data.is_qos());
    assert!(!DataFrameSubtype::CFAckCFPoll.has_payload());
}

#[test]
fn default_data_subtype_is_data() {
    assert_eq!(DataFrameSubtype::default(), DataFrameSubtype::Data);
}

#[test]
fn management_codes_follow_standard_assignment() {
    let table = [
        (0u8, ManagementFrameSubtype::AssociationRequest),
        (1, ManagementFrameSubtype::AssociationResponse),
        (2, ManagementFrameSubtype::ReassociationRequest),
        (3, ManagementFrameSubtype::ReassociationResponse),
        (4, ManagementFrameSubtype::ProbeRequest),
        (5, ManagementFrameSubtype::ProbeResponse),
        (6, ManagementFrameSubtype::TimingAdvertisement),
        (8, ManagementFrameSubtype::Beacon),
        (9, ManagementFrameSubtype::ATIM),
        (10, ManagementFrameSubtype::Disassociation),
        (11, ManagementFrameSubtype::Authentication),
        (12, ManagementFrameSubtype::Deauthentication),
        (13, ManagementFrameSubtype::Action),
        (14, ManagementFrameSubtype::ActionNoAck),
    ];
    for (code, variant) in table {
        assert_eq!(ManagementFrameSubtype::from_bits(code), Ok(variant));
        assert_eq!(variant.into_bits(), code);
    }
    for code in [7u8, 15, 200] {
        assert_eq!(
            ManagementFrameSubtype::from_bits(code),
            Err(CodecError::UnknownSubtype { code })
        );
    }
}
