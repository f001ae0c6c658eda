//! One 512-byte block of a firmware image: its layout, and the test that
//! tells whether the device can flash it.

use crate::endian::{le_u32_at, read_le_u32};
use vstd::prelude::*;

verus! {

/// Length of a block on the wire.
pub const CHUNK_SIZE: usize = 512;

/// Length of the payload area inside a block.
pub const CHUNK_DATA_SIZE: usize = 476;

/// First magic word, at offset 0.
pub const MAGIC_START_ZERO: u32 = 0x0A324655;

/// Second magic word, at offset 4.
pub const MAGIC_START_ONE: u32 = 0x9E5D5157;

/// Closing magic word, at offset 508.
pub const MAGIC_END: u32 = 0x0AB16F30;

/// The block is not meant for main flash.
pub const FLAG_NOT_MAIN_FLASH: u32 = 0x01;

/// The block belongs to a file container.
pub const FLAG_IS_FILE_CONTAINER: u32 = 0x02;

/// The last header word holds a family id instead of a file size.
pub const FLAG_HAS_FAMILY_ID: u32 = 0x04;

/// The payload area ends in an MD5 checksum.
pub const FLAG_HAS_MD5_CHECKSUM: u32 = 0x08;

/// The payload area is followed by extension tags.
pub const FLAG_HAS_EXTENSION_TAGS: u32 = 0x10;

/// A flag word the device can honour: none of not-main-flash,
/// file-container, MD5-checksum or extension-tags is set.
pub open spec fn flags_supported(flags: u32) -> bool {
    &&& flags & FLAG_NOT_MAIN_FLASH == 0
    &&& flags & FLAG_IS_FILE_CONTAINER == 0
    &&& flags & FLAG_HAS_MD5_CHECKSUM == 0
    &&& flags & FLAG_HAS_EXTENSION_TAGS == 0
}

/// A block the device can flash: 512 bytes, the three magic words in
/// place, and a supported flag word.
pub open spec fn spec_is_supported_chunk(data: Seq<u8>) -> bool {
    &&& data.len() == CHUNK_SIZE
    &&& le_u32_at(data, 0) == MAGIC_START_ZERO
    &&& le_u32_at(data, 4) == MAGIC_START_ONE
    &&& le_u32_at(data, 508) == MAGIC_END
    &&& flags_supported(le_u32_at(data, 8))
}

/// A decoded firmware block.
#[derive(Clone, Copy, Debug)]
pub struct Chunk {
    pub magic_start_zero: u32,
    pub magic_start_one: u32,
    pub flags: u32,
    pub target_addr: u32,
    pub payload_size: u32,
    pub block_num: u32,
    pub block_count: u32,
    pub file_size_or_family_id: u32,
    pub data: [u8; 476],
    pub magic_end: u32,
}

impl Chunk {
    /// The block whose wire form is `data`: eight little-endian header
    /// words, the payload area, and the closing word.
    pub open spec fn decodes(self, data: Seq<u8>) -> bool {
        &&& self.magic_start_zero == le_u32_at(data, 0)
        &&& self.magic_start_one == le_u32_at(data, 4)
        &&& self.flags == le_u32_at(data, 8)
        &&& self.target_addr == le_u32_at(data, 12)
        &&& self.payload_size == le_u32_at(data, 16)
        &&& self.block_num == le_u32_at(data, 20)
        &&& self.block_count == le_u32_at(data, 24)
        &&& self.file_size_or_family_id == le_u32_at(data, 28)
        &&& self.data@ == data.subrange(32, 508)
        &&& self.magic_end == le_u32_at(data, 508)
    }

    /// Whether `data` is a block the device can flash.
    pub fn is_supported_chunk(data: &[u8]) -> (ok: bool)
        ensures
            ok == spec_is_supported_chunk(data@),
    {
        if data.len() != CHUNK_SIZE {
            return false;
        }
        if read_le_u32(data, 0) != MAGIC_START_ZERO {
            return false;
        }
        if read_le_u32(data, 4) != MAGIC_START_ONE {
            return false;
        }
        if read_le_u32(data, 508) != MAGIC_END {
            return false;
        }
        let flags = read_le_u32(data, 8);
        assert((flags & 0x1B == 0) == (flags & 0x01 == 0 && flags & 0x02 == 0 && flags & 0x08 == 0
            && flags & 0x10 == 0)) by (bit_vector);
        flags & 0x1B == 0
    }

    /// Decodes a block from its 512 bytes; input of any other length
    /// holds no block.
    pub fn from_bytes(data: &[u8]) -> (decoded: Option<Chunk>)
        ensures
            data@.len() == CHUNK_SIZE ==> decoded is Some && decoded->Some_0.decodes(data@),
            data@.len() != CHUNK_SIZE ==> decoded is None,
    {
        if data.len() != CHUNK_SIZE {
            return None;
        }
        let mut payload = [0u8; 476];
        let mut i: usize = 0;
        while i < CHUNK_DATA_SIZE
            invariant
                i <= CHUNK_DATA_SIZE,
                data.len() == CHUNK_SIZE,
                forall|j: int| 0 <= j < i ==> payload@[j] == data@[32 + j],
            decreases CHUNK_DATA_SIZE - i,
        {
            payload[i] = data[32 + i];
            i = i + 1;
        }
        assert(payload@ =~= data@.subrange(32, 508));
        Some(Chunk {
            magic_start_zero: read_le_u32(data, 0),
            magic_start_one: read_le_u32(data, 4),
            flags: read_le_u32(data, 8),
            target_addr: read_le_u32(data, 12),
            payload_size: read_le_u32(data, 16),
            block_num: read_le_u32(data, 20),
            block_count: read_le_u32(data, 24),
            file_size_or_family_id: read_le_u32(data, 28),
            data: payload,
            magic_end: read_le_u32(data, 508),
        })
    }
}

} // verus!
