use pcan_basic::{CanFdFrame, CanFrame, FrameConstructionError, MessageType, Timestamp};

#[test]
fn can_frame_new_001() {
    let can_frame_1 =
        CanFrame::new(0x20, MessageType::Standard, &[0, 1, 2, 3, 4, 5, 6, 7]).unwrap();

    let can_frame_2 =
        CanFrame::new(0x20, MessageType::Standard, &[0, 1, 2, 3, 4, 5, 6, 7]).unwrap();

    assert_eq!(can_frame_1, can_frame_2);
}

#[test]
fn can_frame_new_002() {
    let can_frame_1 =
        CanFrame::new(0x20, MessageType::Extended, &[0, 1, 2, 3, 4, 5, 6, 7]).unwrap();

    let can_frame_2 =
        CanFrame::new(0x20, MessageType::Extended, &[0, 1, 2, 3, 4, 5, 6, 7]).unwrap();

    assert_eq!(can_frame_1, can_frame_2);
}

#[test]
#[should_panic]
fn can_frame_new_003() {
    let _can_frame_1 =
        CanFrame::new(0x20, MessageType::Standard, &[0, 1, 2, 3, 4, 5, 6, 7, 8]).unwrap();
}

#[test]
#[should_panic]
fn can_frame_new_004() {
    let _can_frame_1 =
        CanFrame::new(0x20, MessageType::Extended, &[0, 1, 2, 3, 4, 5, 6, 7, 8]).unwrap();
}

#[test]
fn can_fd_frame_new_001() {
    let can_frame_1 =
        CanFdFrame::new(0x20, MessageType::Standard, &(0..64u8).collect::<Vec<_>>()).unwrap();

    let can_frame_2 =
        CanFdFrame::new(0x20, MessageType::Standard, &(0..64u8).collect::<Vec<_>>()).unwrap();

    assert_eq!(can_frame_1, can_frame_2);
}

#[test]
fn can_fd_frame_new_002() {
    let can_frame_1 =
        CanFdFrame::new(0x20, MessageType::Extended, &(0..64u8).collect::<Vec<_>>()).unwrap();

    let can_frame_2 =
        CanFdFrame::new(0x20, MessageType::Extended, &(0..64u8).collect::<Vec<_>>()).unwrap();

    assert_eq!(can_frame_1, can_frame_2);
}

#[test]
#[should_panic]
fn can_fd_frame_new_003() {
    let _can_frame_1 =
        CanFdFrame::new(0x20, MessageType::Standard, &(0..65u8).collect::<Vec<_>>()).unwrap();
}

#[test]
#[should_panic]
fn can_fd_frame_new_004() {
    let _can_frame_1 =
        CanFrame::new(0x20, MessageType::Extended, &(0..65u8).collect::<Vec<_>>()).unwrap();
}

#[test]
fn classic_frame_of_eight_bytes() {
    let a = CanFrame::new(0x20, MessageType::Standard, &[0, 1, 2, 3, 4, 5, 6, 7]).unwrap();
    let b = CanFrame::new(0x20, MessageType::Standard, &[0, 1, 2, 3, 4, 5, 6, 7]).unwrap();
    assert_eq!(a, b);
    assert_eq!(a.dlc(), 8);
    assert_eq!(a.can_id(), 0x20);
    assert_eq!(a.data(), &[0, 1, 2, 3, 4, 5, 6, 7]);
    assert!(a.is_standard_frame());
    assert!(!a.is_extended_frame());
}

#[test]
fn classic_frame_of_nine_bytes_is_refused() {
    let r = CanFrame::new(0x20, MessageType::Standard, &[0, 1, 2, 3, 4, 5, 6, 7, 8]);
    assert_eq!(r, Err(FrameConstructionError::TooMuchData));
}

#[test]
fn fd_frame_of_64_bytes() {
    let bytes: Vec<u8> = (0..64u8).collect();
    let a = CanFdFrame::new(0x20, MessageType::Standard, &bytes).unwrap();
    let b = CanFdFrame::new(0x20, MessageType::Standard, &bytes).unwrap();
    assert_eq!(a, b);
    assert_eq!(a.dlc(), 64);
    assert_eq!(a.data(), &bytes[..]);
}

#[test]
fn fd_frame_of_65_bytes_is_refused() {
    let bytes: Vec<u8> = (0..65u8).collect();
    let r = CanFdFrame::new(0x20, MessageType::Standard, &bytes);
    assert_eq!(r, Err(FrameConstructionError::TooMuchData));
}

#[test]
fn payload_of_every_length_is_kept() {
    let bytes: Vec<u8> = (100..164u8).collect();
    for n in 0..=8usize {
        let f = CanFrame::new(1, MessageType::Standard, &bytes[..n]).unwrap();
        assert_eq!(f.data(), &bytes[..n]);
        assert_eq!(f.dlc() as usize, n);
    }
    for n in 0..=64usize {
        let f = CanFdFrame::new(1, MessageType::Standard, &bytes[..n]).unwrap();
        assert_eq!(f.data(), &bytes[..n]);
        assert_eq!(f.dlc() as usize, n);
    }
}

#[test]
fn empty_payload() {
    let f = CanFrame::new(5, MessageType::Standard, &[]).unwrap();
    assert_eq!(f.dlc(), 0);
    assert!(f.data().is_empty());
    let g = CanFdFrame::new(5, MessageType::Standard, &[]).unwrap();
    assert_eq!(g.dlc(), 0);
    assert!(g.data().is_empty());
}

#[test]
fn standard_identifier_is_masked() {
    let f = CanFrame::new(0x7FF_FFFF, MessageType::Standard, &[1]).unwrap();
    assert_eq!(f.can_id(), 0x7FF);
    assert_eq!(f.can_id() & 0x7FF, f.can_id());
    let g = CanFdFrame::new(0x7FF_FFFF, MessageType::Standard, &[1]).unwrap();
    assert_eq!(g.can_id(), 0x7FF);
}

#[test]
fn extended_identifier_keeps_29_bits() {
    let f = CanFrame::new(0xFFFF_FFFF, MessageType::Extended, &[1, 2]).unwrap();
    assert_eq!(f.can_id(), 0x1FFF_FFFF);
    assert!(f.is_extended_frame());
    assert!(!f.is_standard_frame());
    let g = CanFdFrame::new(0x1234_5678, MessageType::Extended, &[1, 2]).unwrap();
    assert_eq!(g.can_id(), 0x1234_5678);
    assert!(g.is_extended_frame());
}

#[test]
fn modes_differ_in_equality() {
    let a = CanFrame::new(0x20, MessageType::Standard, &[1]).unwrap();
    let b = CanFrame::new(0x20, MessageType::Extended, &[1]).unwrap();
    assert_ne!(a, b);
}

#[test]
fn equality_ignores_padding() {
    let a = CanFrame::from_raw(0x20, 0, 3, [1, 2, 3, 0, 0, 0, 0, 0]).unwrap();
    let b = CanFrame::from_raw(0x20, 0, 3, [1, 2, 3, 9, 8, 7, 6, 5]).unwrap();
    assert_eq!(a, b);
    let c = CanFrame::from_raw(0x20, 0, 4, [1, 2, 3, 9, 8, 7, 6, 5]).unwrap();
    assert_ne!(a, c);
    let d = CanFrame::from_raw(0x20, 0, 3, [1, 2, 4, 0, 0, 0, 0, 0]).unwrap();
    assert_ne!(a, d);

    let mut x = [0u8; 64];
    let mut y = [0xAAu8; 64];
    x[0] = 7;
    y[0] = 7;
    let p = CanFdFrame::from_raw(0x20, 0, 1, x).unwrap();
    let q = CanFdFrame::from_raw(0x20, 0, 1, y).unwrap();
    assert_eq!(p, q);
}

#[test]
fn raw_length_over_capacity_is_refused() {
    assert!(CanFrame::from_raw(1, 0, 9, [0; 8]).is_none());
    assert!(CanFdFrame::from_raw(1, 0, 65, [0; 64]).is_none());
    assert!(CanFdFrame::from_raw(1, 0, 64, [0; 64]).is_some());
}

#[test]
fn raw_round_trip() {
    let f = CanFrame::new(0x123, MessageType::Standard, &[4, 5, 6]).unwrap();
    let (id, flags, len, data) = f.to_raw();
    assert_eq!((id, flags, len), (0x123, 0x00, 3));
    assert_eq!(&data[..3], &[4, 5, 6]);
    assert_eq!(CanFrame::from_raw(id, flags, len, data).unwrap(), f);

    let g = CanFdFrame::new(0x1_0000, MessageType::Extended, &[9; 20]).unwrap();
    let (id, flags, len, data) = g.to_raw();
    assert_eq!((id, flags, len), (0x1_0000, 0x02, 20));
    assert_eq!(CanFdFrame::from_raw(id, flags, len, data).unwrap(), g);
}

#[test]
fn mut_data_writes_the_payload_only() {
    let mut f = CanFrame::new(0x10, MessageType::Standard, &[1, 2, 3]).unwrap();
    {
        let d = f.mut_data();
        assert_eq!(d.len(), 3);
        d[1] = 42;
    }
    assert_eq!(f.data(), &[1, 42, 3]);
    assert_eq!(f.to_raw().3, [1, 42, 3, 0, 0, 0, 0, 0]);

    let mut g = CanFdFrame::new(0x10, MessageType::Standard, &[0; 10]).unwrap();
    g.mut_data()[9] = 5;
    assert_eq!(g.data()[9], 5);
    assert_eq!(g.dlc(), 10);
}

#[test]
fn default_frames_are_empty_standard() {
    let f = CanFrame::default();
    assert_eq!(f.can_id(), 0);
    assert_eq!(f.dlc(), 0);
    assert!(f.is_standard_frame());
    assert_eq!(f, CanFrame::new(0, MessageType::Standard, &[]).unwrap());
    let g = CanFdFrame::default();
    assert_eq!(g, CanFdFrame::new(0, MessageType::Standard, &[]).unwrap());
}

#[test]
fn corrupt_flags_still_mask() {
    let f = CanFrame::from_raw(0xFFFF_FFFF, 0x02 | 0x01, 0, [0; 8]).unwrap();
    assert_eq!(f.can_id(), 0x1FFF_FFFF);
    let g = CanFrame::from_raw(0xFFFF_FFFF, 0x01, 0, [0; 8]).unwrap();
    assert_eq!(g.can_id(), 0x7FF);
}

#[test]
fn timestamp_default_is_zero() {
    let t = Timestamp::default();
    assert_eq!(t, Timestamp { millis: 0, millis_overflow: 0, micros: 0 });
    assert_ne!(t, Timestamp { millis: 0, millis_overflow: 0, micros: 1 });
}

#[test]
fn driver_read_decodes_status_and_frame() {
    let f = CanFrame::from_driver(0, 0x42, 0x00, 2, [7, 8, 0, 0, 0, 0, 0, 0]).unwrap();
    assert_eq!(f.can_id(), 0x42);
    assert_eq!(f.data(), &[7, 8]);
    assert_eq!(
        CanFrame::from_driver(0x20, 0x42, 0x00, 2, [0; 8]),
        Err(pcan_basic::PcanError::QrcvEmpty)
    );
    assert_eq!(
        CanFrame::from_driver(0, 0x42, 0x00, 9, [0; 8]),
        Err(pcan_basic::PcanError::Unknown)
    );
    let g = CanFdFrame::from_driver(0, 0x1_2345, 0x02, 64, [3; 64]).unwrap();
    assert_eq!(g.can_id(), 0x1_2345);
    assert_eq!(g.data(), &[3u8; 64][..]);
    assert_eq!(
        CanFdFrame::from_driver(0x10, 0, 0, 0, [0; 64]),
        Err(pcan_basic::PcanError::BusOff)
    );
    assert_eq!(
        CanFdFrame::from_driver(0, 0, 0, 65, [0; 64]),
        Err(pcan_basic::PcanError::Unknown)
    );
}
