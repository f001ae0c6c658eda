use gocycling::crc::calc_crc32;
use gocycling::uf2::{Chunk, MAGIC_END, MAGIC_START_ONE, MAGIC_START_ZERO};
use gocycling::update::{Error, FirmwareDownloader, Status, MAX_CHUNK_COUNT};

fn block(flags: u32, block_num: u32, block_count: u32) -> Vec<u8> {
    let mut data = vec![0u8; 512];
    data[0..4].copy_from_slice(&0x0A32_4655u32.to_le_bytes());
    data[4..8].copy_from_slice(&0x9E5D_5157u32.to_le_bytes());
    data[8..12].copy_from_slice(&flags.to_le_bytes());
    data[12..16].copy_from_slice(&(0x1000_0000u32 + 256 * block_num).to_le_bytes());
    data[16..20].copy_from_slice(&256u32.to_le_bytes());
    data[20..24].copy_from_slice(&block_num.to_le_bytes());
    data[24..28].copy_from_slice(&block_count.to_le_bytes());
    data[28..32].copy_from_slice(&0xE48B_FF56u32.to_le_bytes());
    for i in 0..476 {
        data[32 + i] = (i % 251) as u8;
    }
    data[508..512].copy_from_slice(&0x0AB1_6F30u32.to_le_bytes());
    data
}

fn feed_all(decoder: &mut FirmwareDownloader, bytes: &[u8]) -> Vec<Status> {
    bytes.iter().map(|b| decoder.feed(*b)).collect()
}

fn feed_record(decoder: &mut FirmwareDownloader, crc: u32, data: &[u8]) -> Status {
    let mut record = crc.to_le_bytes().to_vec();
    record.extend_from_slice(data);
    let statuses = feed_all(decoder, &record);
    for status in &statuses[..statuses.len() - 1] {
        assert_eq!(*status, Status::Progress);
    }
    statuses[statuses.len() - 1]
}

#[test]
fn magic_words_have_their_values() {
    assert_eq!(MAGIC_START_ZERO, 0x0A32_4655);
    assert_eq!(MAGIC_START_ONE, 0x9E5D_5157);
    assert_eq!(MAGIC_END, 0x0AB1_6F30);
}

#[test]
fn supported_chunk_is_recognised() {
    assert!(Chunk::is_supported_chunk(&block(0x2000, 0, 1)));
    assert!(Chunk::is_supported_chunk(&block(0, 0, 1)));
    assert!(Chunk::is_supported_chunk(&block(0x04, 0, 1)));
    assert!(Chunk::is_supported_chunk(&block(0xFFFF_FFE4, 0, 1)));
}

#[test]
fn chunk_of_wrong_length_is_not_supported() {
    let data = block(0, 0, 1);
    assert!(!Chunk::is_supported_chunk(&data[..511]));
    let mut longer = data.clone();
    longer.push(0);
    assert!(!Chunk::is_supported_chunk(&longer));
    assert!(!Chunk::is_supported_chunk(&[]));
}

#[test]
fn chunk_with_a_wrong_magic_is_not_supported() {
    for at in [0usize, 3, 4, 7, 508, 511] {
        let mut data = block(0, 0, 1);
        data[at] ^= 0x01;
        assert!(!Chunk::is_supported_chunk(&data));
    }
}

#[test]
fn chunk_with_an_unsupported_flag_is_not_supported() {
    for flag in [0x01u32, 0x02, 0x08, 0x10, 0x1B, 0x2001] {
        assert!(!Chunk::is_supported_chunk(&block(flag, 0, 1)));
    }
}

#[test]
fn chunk_fields_are_decoded_little_endian() {
    let data = block(0x2000, 3, 7);
    let chunk = Chunk::from_bytes(&data).unwrap();
    assert_eq!(chunk.magic_start_zero, 0x0A32_4655);
    assert_eq!(chunk.magic_start_one, 0x9E5D_5157);
    assert_eq!(chunk.flags, 0x2000);
    assert_eq!(chunk.target_addr, 0x1000_0300);
    assert_eq!(chunk.payload_size, 256);
    assert_eq!(chunk.block_num, 3);
    assert_eq!(chunk.block_count, 7);
    assert_eq!(chunk.file_size_or_family_id, 0xE48B_FF56);
    assert_eq!(chunk.magic_end, 0x0AB1_6F30);
    assert_eq!(&chunk.data[..], &data[32..508]);
}

#[test]
fn checksum_of_the_sample_block() {
    assert_eq!(calc_crc32(&block(0x2000, 0, 1)), 0xD5E8_BC21);
}

#[test]
fn too_many_chunks_are_refused() {
    assert_eq!(MAX_CHUNK_COUNT, 128);
    assert!(matches!(FirmwareDownloader::new(129), Err(Error::TooManyChunks)));
    assert!(matches!(FirmwareDownloader::new(usize::MAX), Err(Error::TooManyChunks)));
    assert!(FirmwareDownloader::new(128).is_ok());
    assert!(FirmwareDownloader::new(0).is_ok());
}

#[test]
fn empty_image_is_complete_at_once() {
    let mut decoder = FirmwareDownloader::new(0).ok().unwrap();
    assert!(decoder.is_complete());
    assert_eq!(decoder.feed(0x12), Status::Complete);
    assert_eq!(decoder.chunk_count(), 0);
}

#[test]
fn single_block_image_completes() {
    let mut decoder = FirmwareDownloader::new(1).ok().unwrap();
    assert_eq!(decoder.expected_chunk_count(), 1);
    let data = block(0x2000, 0, 1);
    assert_eq!(feed_record(&mut decoder, 0xD5E8_BC21, &data), Status::Complete);
    assert_eq!(decoder.chunk_count(), 1);
    assert!(decoder.is_complete());
    assert_eq!(decoder.chunk(0).unwrap().target_addr, 0x1000_0000);
}

#[test]
fn bytes_after_completion_are_ignored() {
    let mut decoder = FirmwareDownloader::new(1).ok().unwrap();
    let data = block(0, 0, 1);
    assert_eq!(feed_record(&mut decoder, calc_crc32(&data), &data), Status::Complete);
    for byte in [0u8, 1, 2, 3, 4, 5] {
        assert_eq!(decoder.feed(byte), Status::Complete);
    }
    assert_eq!(decoder.chunk_count(), 1);
}

#[test]
fn blocks_are_accepted_one_by_one() {
    let mut decoder = FirmwareDownloader::new(3).ok().unwrap();
    for n in 0..3u32 {
        let data = block(0x2000, n, 3);
        let status = feed_record(&mut decoder, calc_crc32(&data), &data);
        if n < 2 {
            assert_eq!(status, Status::ChunkDone);
            assert!(!decoder.is_complete());
        } else {
            assert_eq!(status, Status::Complete);
        }
        assert_eq!(decoder.chunk_count(), n as usize + 1);
    }
    for n in 0..3u32 {
        assert_eq!(decoder.chunk(n as usize).unwrap().block_num, n);
    }
}

#[test]
fn corrupted_block_is_rejected_and_its_slot_reused() {
    let mut decoder = FirmwareDownloader::new(2).ok().unwrap();
    let good = block(0x2000, 0, 2);
    let crc = calc_crc32(&good);
    let mut bad = good.clone();
    bad[100] ^= 0x40;
    assert_eq!(feed_record(&mut decoder, crc, &bad), Status::ChunkInvalid);
    assert_eq!(decoder.chunk_count(), 0);
    assert_eq!(feed_record(&mut decoder, crc, &good), Status::ChunkDone);
    assert_eq!(decoder.chunk_count(), 1);
    assert_eq!(&decoder.chunk(0).unwrap().data[..], &good[32..508]);
    let second = block(0x2000, 1, 2);
    assert_eq!(feed_record(&mut decoder, calc_crc32(&second), &second), Status::Complete);
    assert_eq!(decoder.chunk_count(), 2);
    assert_eq!(decoder.chunk(1).unwrap().block_num, 1);
}

#[test]
fn wrong_checksum_is_rejected() {
    let mut decoder = FirmwareDownloader::new(1).ok().unwrap();
    let data = block(0, 0, 1);
    assert_eq!(feed_record(&mut decoder, calc_crc32(&data) ^ 1, &data), Status::ChunkInvalid);
    assert_eq!(decoder.chunk_count(), 0);
    assert_eq!(feed_record(&mut decoder, calc_crc32(&data), &data), Status::Complete);
}

#[test]
fn unsupported_block_with_a_right_checksum_is_rejected() {
    let mut decoder = FirmwareDownloader::new(1).ok().unwrap();
    let container = block(0x02, 0, 1);
    assert_eq!(
        feed_record(&mut decoder, calc_crc32(&container), &container),
        Status::ChunkInvalid
    );
    assert_eq!(decoder.chunk_count(), 0);
    let data = block(0, 0, 1);
    assert_eq!(feed_record(&mut decoder, calc_crc32(&data), &data), Status::Complete);
    assert_eq!(decoder.chunk(0).unwrap().flags, 0);
}

#[test]
fn chunk_outside_the_accepted_ones_is_none() {
    let mut decoder = FirmwareDownloader::new(2).ok().unwrap();
    assert!(decoder.chunk(0).is_none());
    let data = block(0, 0, 2);
    assert_eq!(feed_record(&mut decoder, calc_crc32(&data), &data), Status::ChunkDone);
    assert!(decoder.chunk(0).is_some());
    assert!(decoder.chunk(1).is_none());
    assert!(decoder.chunk(usize::MAX).is_none());
}

#[test]
fn chunk_is_decoded_from_512_bytes_only() {
    let data = block(0, 0, 1);
    assert!(Chunk::from_bytes(&data[..500]).is_none());
    assert!(Chunk::from_bytes(&[]).is_none());
    assert!(Chunk::from_bytes(&data).is_some());
}
