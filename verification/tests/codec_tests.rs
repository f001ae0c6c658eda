use gocycling::codec::{RxCommand, TxCommand};
use gocycling::crc::calc_crc8;
use gocycling::cycling::CycleData;
use gocycling::offline::BulkCycleData;

#[test]
fn rx_expected_len_per_command() {
    assert_eq!(RxCommand::expected_len(1), Some(2));
    assert_eq!(RxCommand::expected_len(2), Some(2));
    assert_eq!(RxCommand::expected_len(3), Some(3));
}

#[test]
fn rx_expected_len_of_unknown_ids() {
    assert_eq!(RxCommand::expected_len(0), None);
    assert_eq!(RxCommand::expected_len(4), None);
    assert_eq!(RxCommand::expected_len(0xFF), None);
}

#[test]
fn rx_frames_have_exact_bytes() {
    assert_eq!(RxCommand::StartSession.serialize(), vec![0x01, 0xFF]);
    assert_eq!(RxCommand::StopSession.serialize(), vec![0x02, 0xFF]);
    assert_eq!(RxCommand::Handshake { session_active: true }.serialize(), vec![0x03, 0x9D, 0x01]);
    assert_eq!(RxCommand::Handshake { session_active: false }.serialize(), vec![0x03, 0xAC, 0x00]);
}

#[test]
fn rx_round_trip_of_every_variant() {
    let all = [
        RxCommand::StartSession,
        RxCommand::StopSession,
        RxCommand::Handshake { session_active: false },
        RxCommand::Handshake { session_active: true },
    ];
    for cmd in all {
        assert_eq!(RxCommand::deserialize(&cmd.serialize()), Some(cmd));
    }
}

#[test]
fn rx_deserialize_start_session() {
    assert_eq!(RxCommand::deserialize(&[0x01, 0xFF]), Some(RxCommand::StartSession));
}

#[test]
fn rx_deserialize_reads_only_bit_zero_of_the_flags() {
    let flags = 0xFEu8;
    let frame = [0x03, calc_crc8(&[flags]), flags];
    assert_eq!(RxCommand::deserialize(&frame), Some(RxCommand::Handshake { session_active: false }));
    let flags = 0x81u8;
    let frame = [0x03, calc_crc8(&[flags]), flags];
    assert_eq!(RxCommand::deserialize(&frame), Some(RxCommand::Handshake { session_active: true }));
}

#[test]
fn rx_deserialize_rejects_short_input() {
    assert_eq!(RxCommand::deserialize(&[]), None);
    assert_eq!(RxCommand::deserialize(&[0x01]), None);
    assert_eq!(RxCommand::deserialize(&[0x03, 0xFF]), None);
}

#[test]
fn rx_deserialize_rejects_padded_frames() {
    let payload = [0x00u8];
    assert_eq!(RxCommand::deserialize(&[0x01, calc_crc8(&payload), 0x00]), None);
    let payload = [0x01u8, 0x00];
    assert_eq!(RxCommand::deserialize(&[0x03, calc_crc8(&payload), 0x01, 0x00]), None);
}

#[test]
fn rx_deserialize_rejects_a_wrong_checksum() {
    assert_eq!(RxCommand::deserialize(&[0x01, 0xFE]), None);
    assert_eq!(RxCommand::deserialize(&[0x03, 0x9C, 0x01]), None);
}

#[test]
fn rx_deserialize_rejects_unknown_ids() {
    assert_eq!(RxCommand::deserialize(&[0x00, 0xFF]), None);
    assert_eq!(RxCommand::deserialize(&[0x07, 0xFF]), None);
}

#[test]
fn verify_crc8_checks_the_payload_only() {
    assert!(RxCommand::verify_crc8(&[0x55, 0xFF]));
    assert!(RxCommand::verify_crc8(&[0x00, 0x92, 0xBE, 0xEF]));
    assert!(!RxCommand::verify_crc8(&[0x00, 0x93, 0xBE, 0xEF]));
    assert!(!RxCommand::verify_crc8(&[0x92]));
    assert!(!RxCommand::verify_crc8(&[]));
}

#[test]
fn command_data_skips_the_header() {
    assert_eq!(RxCommand::command_data(&[1, 2, 3, 4]), &[3, 4]);
    assert_eq!(RxCommand::command_data(&[1, 2]), &[] as &[u8]);
    assert_eq!(RxCommand::command_data(&[1]), &[] as &[u8]);
    assert_eq!(RxCommand::command_data(&[]), &[] as &[u8]);
}

#[test]
fn tx_live_data_frame_has_exact_bytes() {
    let frame = TxCommand::LiveData(CycleData { millis: 0x0102_0304 }).serialize().unwrap();
    assert_eq!(frame, vec![0x01, 0xFB, 0x04, 0x03, 0x02, 0x01]);
    let frame = TxCommand::LiveData(CycleData { millis: 1500 }).serialize().unwrap();
    assert_eq!(frame, vec![0x01, 0x83, 220, 5, 0, 0]);
}

#[test]
fn tx_bulk_data_frame_has_exact_bytes() {
    let mut bulk = BulkCycleData::new();
    assert_eq!(
        TxCommand::BulkData(bulk).serialize().unwrap(),
        vec![0x02, 0x6A, 0, 0, 0, 0, 0, 0]
    );
    bulk.add_cycle(&CycleData { millis: 100 }).unwrap();
    bulk.add_cycle(&CycleData { millis: 200 }).unwrap();
    assert_eq!(
        TxCommand::BulkData(bulk).serialize().unwrap(),
        vec![0x02, 0xEC, 44, 1, 0, 0, 2, 0]
    );
}

#[test]
fn tx_payload_is_what_postcard_writes() {
    let mut buf = [0u8; 16];
    let millis = 0xA1B2_C3D4u32;
    let expected = postcard::to_slice(&millis, &mut buf).unwrap().to_vec();
    let frame = TxCommand::LiveData(CycleData { millis }).serialize().unwrap();
    assert_eq!(frame[0], 1);
    assert_eq!(frame[1], calc_crc8(&expected));
    assert_eq!(&frame[2..], &expected[..]);

    let mut bulk = BulkCycleData::new();
    bulk.add_cycle(&CycleData { millis: 0x0011_2233 }).unwrap();
    let mut buf = [0u8; 16];
    let expected = postcard::to_slice(&(0x0011_2233u32, 1u16), &mut buf).unwrap().to_vec();
    let frame = TxCommand::BulkData(bulk).serialize().unwrap();
    assert_eq!(frame[0], 2);
    assert_eq!(frame[1], calc_crc8(&expected));
    assert_eq!(&frame[2..], &expected[..]);
}

#[test]
fn tx_round_trip_of_every_variant() {
    let mut bulk = BulkCycleData::new();
    for _ in 0..300 {
        bulk.add_cycle(&CycleData { millis: 70_000 }).unwrap();
    }
    let all = [
        TxCommand::LiveData(CycleData { millis: 0 }),
        TxCommand::LiveData(CycleData { millis: 50 }),
        TxCommand::LiveData(CycleData { millis: u32::MAX }),
        TxCommand::BulkData(BulkCycleData::new()),
        TxCommand::BulkData(bulk),
    ];
    for cmd in all {
        let frame = cmd.serialize().unwrap();
        assert_eq!(TxCommand::deserialize(&frame), Some(cmd));
    }
}

#[test]
fn tx_deserialize_rejects_wrong_lengths_and_checksums() {
    let frame = TxCommand::LiveData(CycleData { millis: 77 }).serialize().unwrap();
    assert_eq!(TxCommand::deserialize(&frame[..5]), None);
    let mut longer = frame.clone();
    longer.push(0);
    assert_eq!(TxCommand::deserialize(&longer), None);
    let mut bad = frame.clone();
    bad[3] ^= 0x10;
    assert_eq!(TxCommand::deserialize(&bad), None);
    let mut other_id = frame.clone();
    other_id[0] = 2;
    assert_eq!(TxCommand::deserialize(&other_id), None);
    assert_eq!(TxCommand::deserialize(&[]), None);
}
