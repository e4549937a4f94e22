use ieee80211_mgmt::{
    ActionFrameBody, BeaconFrameBody, CodecError, FCFFlags, FrameError, FrameType,
    ManagementFrame, ManagementFrameBody, ManagementFrameHeader, ManagementFrameSubtype,
};

fn header_bytes() -> Vec<u8> {
    let mut b = vec![0x01, 0x00];
    b.extend_from_slice(&[0xff; 6]);
    b.extend_from_slice(&[0x02, 0x00, 0x00, 0x00, 0x00, 0x01]);
    b.extend_from_slice(&[0x02, 0x00, 0x00, 0x00, 0x00, 0x02]);
    b.extend_from_slice(&[0x20, 0x00]);
    b
}

#[test]
fn atim_body_is_empty() {
    let (b, n) = ManagementFrameBody::try_from_ctx(&[], ManagementFrameSubtype::ATIM).unwrap();
    assert_eq!(b, ManagementFrameBody::ATIM);
    assert_eq!(n, 0);
    assert_eq!(b.length_in_bytes(), 0);
    let mut out: [u8; 0] = [];
    assert_eq!(b.try_into_ctx(&mut out), Ok(0));
}

#[test]
fn action_body_borrows_the_rest() {
    let bytes = [0x04u8, 0x00, 0x01, 0x02];
    let (b, n) = ManagementFrameBody::try_from_ctx(&bytes, ManagementFrameSubtype::Action).unwrap();
    assert_eq!(n, 4);
    assert_eq!(b, ManagementFrameBody::Action(ActionFrameBody { bytes: &bytes }));
    assert_eq!(b.get_sub_type(), ManagementFrameSubtype::Action);
    let (c, _) =
        ManagementFrameBody::try_from_ctx(&bytes, ManagementFrameSubtype::ActionNoAck).unwrap();
    assert_eq!(c.get_sub_type(), ManagementFrameSubtype::ActionNoAck);
    let mut out = [0u8; 6];
    assert_eq!(b.try_into_ctx(&mut out), Ok(4));
    assert_eq!(out, [0x04, 0x00, 0x01, 0x02, 0, 0]);
}

#[test]
fn body_truncation_and_gaps() {
    assert_eq!(
        ManagementFrameBody::try_from_ctx(&[], ManagementFrameSubtype::Action),
        Err(CodecError::TruncatedInput { needed: 1, available: 0 })
    );
    assert_eq!(
        ManagementFrameBody::try_from_ctx(&[0u8; 11], ManagementFrameSubtype::Beacon),
        Err(CodecError::TruncatedInput { needed: 12, available: 11 })
    );
    let (b, n) =
        ManagementFrameBody::try_from_ctx(&[0u8; 12], ManagementFrameSubtype::Beacon).unwrap();
    assert_eq!(n, 12);
    assert_eq!(b.get_sub_type(), ManagementFrameSubtype::Beacon);
    assert_eq!(
        ManagementFrameBody::try_from_ctx(&[0u8; 40], ManagementFrameSubtype::ProbeRequest),
        Err(CodecError::UnimplementedSubtype { subtype: ManagementFrameSubtype::ProbeRequest })
    );
}

#[test]
fn body_destination_too_small() {
    let bytes = [7u8; 12];
    let b = ManagementFrameBody::Beacon(BeaconFrameBody { bytes: &bytes });
    let mut out = [0u8; 11];
    assert_eq!(
        b.try_into_ctx(&mut out),
        Err(CodecError::DestinationTooSmall { needed: 12, available: 11 })
    );
    assert_eq!(out, [0u8; 11]);
}

#[test]
fn frame_round_trip() {
    let mut bytes = header_bytes();
    bytes.extend_from_slice(&[0x7f, 0x00, 0x50, 0x6f, 0x9a]);
    let flags = FCFFlags::default();
    let (f, n) =
        ManagementFrame::try_from_ctx(&bytes, ManagementFrameSubtype::ActionNoAck, flags).unwrap();
    assert_eq!(n, 27);
    assert_eq!(f.length_in_bytes(), 27);
    assert_eq!(f.header.length_in_bytes(), 22);
    assert_eq!(f.body.length_in_bytes(), 5);
    let fcf = f.get_fcf();
    assert_eq!(fcf.version, 0);
    assert_eq!(fcf.frame_type, FrameType::Management(ManagementFrameSubtype::ActionNoAck));
    assert_eq!(fcf.flags, flags);
    let mut out = [0u8; 40];
    assert_eq!(f.try_into_ctx(&mut out), Ok(27));
    assert_eq!(&out[..27], &bytes[..]);
    let (back, m) =
        ManagementFrame::try_from_ctx(&out[..27], ManagementFrameSubtype::ActionNoAck, flags)
            .unwrap();
    assert_eq!(back, f);
    assert_eq!(m, 27);
}

#[test]
fn atim_frame_with_control_block() {
    let mut bytes = header_bytes();
    bytes.extend_from_slice(&[1, 2, 3, 4]);
    let flags = FCFFlags { htc_plus_order: true, ..FCFFlags::default() };
    let (f, n) = ManagementFrame::try_from_ctx(&bytes, ManagementFrameSubtype::ATIM, flags).unwrap();
    assert_eq!(n, 26);
    assert_eq!(f.header.ht_control, Some([1, 2, 3, 4]));
    assert_eq!(f.body, ManagementFrameBody::ATIM);
    let mut out = [0u8; 26];
    assert_eq!(f.try_into_ctx(&mut out), Ok(26));
    assert_eq!(&out[..], &bytes[..]);
}

#[test]
fn frame_errors_name_the_stage() {
    let bytes = header_bytes();
    let flags = FCFFlags::default();
    assert_eq!(
        ManagementFrame::try_from_ctx(&bytes[..21], ManagementFrameSubtype::ATIM, flags),
        Err(FrameError::Header(CodecError::TruncatedInput { needed: 22, available: 21 }))
    );
    assert_eq!(
        ManagementFrame::try_from_ctx(&bytes, ManagementFrameSubtype::Beacon, flags),
        Err(FrameError::Body(CodecError::TruncatedInput { needed: 12, available: 0 }))
    );
    assert_eq!(
        ManagementFrame::try_from_ctx(&bytes, ManagementFrameSubtype::Authentication, flags),
        Err(FrameError::Body(CodecError::UnimplementedSubtype {
            subtype: ManagementFrameSubtype::Authentication
        }))
    );
    let (header, _) = ManagementFrameHeader::try_from_ctx(&bytes, flags).unwrap();
    let payload = [9u8, 8, 7];
    let f = ManagementFrame {
        header,
        body: ManagementFrameBody::Action(ActionFrameBody { bytes: &payload }),
    };
    let mut small = [0u8; 10];
    assert_eq!(
        f.try_into_ctx(&mut small),
        Err(FrameError::Header(CodecError::DestinationTooSmall { needed: 22, available: 10 }))
    );
    let mut short = [0u8; 24];
    assert_eq!(
        f.try_into_ctx(&mut short),
        Err(FrameError::Body(CodecError::DestinationTooSmall { needed: 3, available: 2 }))
    );
    assert_eq!(short, [0u8; 24]);
    let bad = ManagementFrame {
        header: ManagementFrameHeader { ht_control: Some([0; 4]), ..header },
        body: ManagementFrameBody::ATIM,
    };
    assert_eq!(
        bad.try_into_ctx(&mut short),
        Err(FrameError::Header(CodecError::ControlFieldMismatch))
    );
}
