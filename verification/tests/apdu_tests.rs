//! Wire-level tests of the APDU codec.

use iec104::apdu::{split_telegrams, Apdu, Frame};

#[test]
fn test_s_frame() {
    let bytes = [0x68, 0x04, 0x01, 0x00, 0x7E, 0x14];
    let apdu = Apdu::from_bytes(&bytes).unwrap();
    assert_eq!(apdu.length, 4);

    let Frame::S(s_frame) = &apdu.frame else {
        panic!("Frame was expected to be an S-frame")
    };
    assert_eq!(s_frame.receive_sequence_number, 5183);

    let apdu_bytes = apdu.to_bytes().unwrap();
    assert_eq!(apdu_bytes, bytes);
}

#[test]
fn test_u_frame() {
    let bytes = [0x68, 0x04, 0x01, 0x00, 0x7E, 0x14];
    let apdu = Apdu::from_bytes(&bytes).unwrap();
    assert_eq!(apdu.length, 4);
}

#[test]
fn test_u_frame_start_act_round_trip() {
    let bytes = [0x68, 0x04, 0x07, 0x00, 0x00, 0x00];
    let apdu = Apdu::from_bytes(&bytes).unwrap();
    let Frame::U(u) = &apdu.frame else {
        panic!("expected a U-frame")
    };
    assert!(u.start_dt_activation);
    assert!(!u.start_dt_confirmation);
    assert_eq!(apdu.to_bytes().unwrap(), bytes);
}

#[test]
fn test_short_apdu_rejected() {
    assert!(Apdu::from_bytes(&[0x68, 0x04, 0x01]).is_err());
    assert!(Apdu::from_bytes(&[0x67, 0x04, 0x01, 0x00, 0x7E, 0x14]).is_err());
    assert!(Apdu::from_bytes(&[0x68, 0xFF, 0x01, 0x00, 0x7E, 0x14]).is_err());
    assert!(Apdu::from_bytes(&[0x68, 0x05, 0x01, 0x00, 0x7E, 0x14]).is_err());
    assert!(Apdu::from_bytes(&[0x68, 0x04, 0x02, 0x00, 0x7E, 0x14]).is_err());
}

#[test]
fn test_i_frame() {
    let bytes = [
        0x68, 0x34, 0x5A, 0x14, 0x7C, 0x00, 0x0B, 0x07, 0x03, 0x00, 0x0C, 0x00, 0x10, 0x30, 0x00,
        0xBE, 0x09, 0x00, 0x11, 0x30, 0x00, 0x90, 0x09, 0x00, 0x0E, 0x30, 0x00, 0x75, 0x00, 0x00,
        0x28, 0x30, 0x00, 0x25, 0x09, 0x00, 0x29, 0x30, 0x00, 0x75, 0x00, 0x00, 0x0F, 0x30, 0x00,
        0x0F, 0x0A, 0x00, 0x2E, 0x30, 0x00, 0xAE, 0x05, 0x00,
    ];
    let apdu = Apdu::from_bytes(&bytes).unwrap();
    assert_eq!(apdu.length, 52);

    let Frame::I(i_frame) = &apdu.frame else {
        panic!("Frame was expected to be an I-frame")
    };
    assert_eq!(i_frame.send_sequence_number, 5165);
    assert_eq!(i_frame.receive_sequence_number, 62);
    assert_eq!(i_frame.asdu.type_id, iec104::types_id::TypeId::M_ME_NB_1);
    assert_eq!(i_frame.asdu.information_objects.len(), 7);
    assert_eq!(i_frame.asdu.cot, iec104::cot::Cot::SpontaneousData);
    assert_eq!(i_frame.asdu.originator_address, 0);
    assert_eq!(i_frame.asdu.address_field, 12);
    assert!(!i_frame.asdu.sequence);
    assert!(!i_frame.asdu.test);
    assert!(!i_frame.asdu.positive);
    let iec104::types::objects::InformationObjects::MMeNb1(objects) =
        &i_frame.asdu.information_objects
    else {
        panic!("Information objects were expected to be a MMeNb1")
    };
    assert_eq!(objects.len(), 7);
    let expected: [(u32, i16); 7] = [
        (12304, 2494),
        (12305, 2448),
        (12302, 117),
        (12328, 2341),
        (12329, 117),
        (12303, 2575),
        (12334, 1454),
    ];
    for (obj, (addr, sva)) in objects.iter().zip(expected.iter()) {
        assert_eq!(obj.address, *addr);
        assert_eq!(obj.object.sva.value, *sva);
        assert!(!obj.object.qds.iv);
        assert!(!obj.object.qds.nt);
        assert!(!obj.object.qds.sb);
        assert!(!obj.object.qds.bl);
        assert!(!obj.object.qds.ov);
    }

    let apdu_bytes = apdu.to_bytes().unwrap();
    assert_eq!(apdu_bytes, bytes);
}

#[test]
fn test_i_frame_command() {
    let bytes = [
        0x68, 0x0E, 0x4E, 0x14, 0x7C, 0x00, 0x65, 0x01, 0x0A, 0x00, 0x0C, 0x00, 0x00, 0x00, 0x00,
        0x05,
    ];
    let apdu = Apdu::from_bytes(&bytes).unwrap();
    assert_eq!(apdu.length, 14);

    let Frame::I(i_frame) = &apdu.frame else {
        panic!("Frame was expected to be an I-frame")
    };
    assert_eq!(i_frame.send_sequence_number, 5159);
    assert_eq!(i_frame.receive_sequence_number, 62);
    assert_eq!(i_frame.asdu.type_id, iec104::types_id::TypeId::C_CI_NA_1);
    assert_eq!(i_frame.asdu.information_objects.len(), 1);
    assert_eq!(i_frame.asdu.cot, iec104::cot::Cot::ActivationTermination);
    assert_eq!(i_frame.asdu.originator_address, 0);
    assert_eq!(i_frame.asdu.address_field, 12);
    assert!(!i_frame.asdu.sequence);
    assert!(!i_frame.asdu.test);
    assert!(!i_frame.asdu.positive);
    let iec104::types::objects::InformationObjects::CCiNa1(objects) =
        &i_frame.asdu.information_objects
    else {
        panic!("Information objects were expected to be a CCiNa1")
    };
    assert_eq!(objects.len(), 1);
    assert_eq!(objects[0].address, 0);
    assert_eq!(objects[0].object.rqt, iec104::types::commands::Rqt::ReqCoGen);
    assert_eq!(objects[0].object.frz, iec104::types::commands::Frz::Read);

    let apdu_bytes = apdu.to_bytes().unwrap();
    assert_eq!(apdu_bytes, bytes);
}

#[test]
fn s_frame_reserved_bit_rejected() {
    // The low bit of the third control byte is reserved; a frame carrying
    // it must not decode, so every accepted frame re-encodes byte for byte.
    let bytes = [0x68, 0x04, 0x01, 0x00, 0x7F, 0x14];
    assert!(Apdu::from_bytes(&bytes).is_err());
}

#[test]
fn telegram_reassembly_keeps_the_tail() {
    let mut cache: Vec<u8> = Vec::new();
    // The first read ends mid-telegram: nothing decodes, the tail stays.
    let r = split_telegrams(&mut cache, &[0x68, 0x04, 0x01]).unwrap();
    assert!(r.is_empty());
    assert_eq!(cache, vec![0x68, 0x04, 0x01]);
    // The rest arrives: one S-frame comes out and the buffer drains.
    let r = split_telegrams(&mut cache, &[0x00, 0x7E, 0x14]).unwrap();
    assert_eq!(r.len(), 1);
    let Frame::S(s) = &r[0].frame else {
        panic!("expected an S-frame")
    };
    assert_eq!(s.receive_sequence_number, 5183);
    assert!(cache.is_empty());
    // Garbage before a start byte is skipped; two telegrams in one read.
    let mut cache: Vec<u8> = Vec::new();
    let mut data = vec![0x55, 0x00];
    data.extend_from_slice(&[0x68, 0x04, 0x01, 0x00, 0x7E, 0x14]);
    data.extend_from_slice(&[0x68, 0x04, 0x07, 0x00, 0x00, 0x00]);
    data.push(0x68);
    let r = split_telegrams(&mut cache, &data).unwrap();
    assert_eq!(r.len(), 2);
    assert!(matches!(r[0].frame, Frame::S(_)));
    assert!(matches!(r[1].frame, Frame::U(_)));
    assert_eq!(cache, vec![0x68]);
    // A telegram that fails to decode leaves everything in the buffer.
    let mut cache: Vec<u8> = Vec::new();
    assert!(split_telegrams(&mut cache, &[0x68, 0x04, 0x02, 0x00, 0x00, 0x00]).is_err());
    assert_eq!(cache, vec![0x68, 0x04, 0x02, 0x00, 0x00, 0x00]);
}
