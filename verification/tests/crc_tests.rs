use gocycling::crc::{calc_crc32, calc_crc8};

#[test]
fn crc8_of_nothing_is_the_initial_value() {
    assert_eq!(calc_crc8(&[]), 0xFF);
}

#[test]
fn crc8_known_vectors() {
    assert_eq!(calc_crc8(b"123456789"), 0xF7);
    assert_eq!(calc_crc8(&[0xBE, 0xEF]), 0x92);
    assert_eq!(calc_crc8(&[0x00]), 0xAC);
    assert_eq!(calc_crc8(&[0x01]), 0x9D);
}

#[test]
fn crc8_is_deterministic() {
    let payload = [0x10u8, 0x20, 0x30, 0x40, 0x50];
    assert_eq!(calc_crc8(&payload), calc_crc8(&payload));
}

#[test]
fn crc8_depends_on_order() {
    assert_eq!(calc_crc8(&[1, 2]), 0x17);
    assert_eq!(calc_crc8(&[2, 1]), 0x69);
}

#[test]
fn crc8_detects_every_single_bit_flip() {
    let payload = [0xDEu8, 0xAD, 0xBE, 0xEF, 0x00, 0x7F];
    let good = calc_crc8(&payload);
    for at in 0..payload.len() {
        for bit in 0..8 {
            let mut flipped = payload;
            flipped[at] ^= 1 << bit;
            assert_ne!(calc_crc8(&flipped), good);
        }
    }
}

#[test]
fn crc8_detects_every_change_of_one_byte() {
    let payload = [0x42u8, 0x17, 0x99];
    let good = calc_crc8(&payload);
    for at in 0..payload.len() {
        for value in 0..=255u8 {
            if value != payload[at] {
                let mut changed = payload;
                changed[at] = value;
                assert_ne!(calc_crc8(&changed), good);
            }
        }
    }
}

#[test]
fn crc32_known_vectors() {
    assert_eq!(calc_crc32(b"123456789"), 0xCBF4_3926);
    assert_eq!(calc_crc32(&[]), 0);
}

#[test]
fn crc32_detects_every_single_bit_flip() {
    let payload = [0x01u8, 0x02, 0x03, 0x04];
    let good = calc_crc32(&payload);
    for at in 0..payload.len() {
        for bit in 0..8 {
            let mut flipped = payload;
            flipped[at] ^= 1 << bit;
            assert_ne!(calc_crc32(&flipped), good);
        }
    }
}
