//! Incremental decoder for a streamed firmware image: records of a
//! little-endian CRC-32 followed by the 512-byte block it covers.

use crate::crc::{calc_crc32, lemma_crc32_detects_single_byte_change, spec_crc32};
use crate::endian::le_bytes_u32;
use crate::uf2::{spec_is_supported_chunk, Chunk, CHUNK_SIZE};
use vstd::prelude::*;
use vstd::slice::slice_subrange;

verus! {

/// The most blocks an image may hold.
pub const MAX_CHUNK_COUNT: usize = 128;

/// What one byte did to the decoder.
#[derive(Clone, Copy, Debug, PartialEq, Eq)]
pub enum Status {
    /// The byte was taken; the record is not finished.
    Progress,
    /// The byte finished a block, which was accepted; more are expected.
    ChunkDone,
    /// Every expected block has been accepted.
    Complete,
    /// The byte finished a block, which was thrown away.
    ChunkInvalid,
}

/// Why a decoder could not be made.
#[derive(Clone, Copy, Debug, PartialEq, Eq)]
pub enum Error {
    /// The image would not fit the block buffer.
    TooManyChunks,
}

/// The decoder as a mathematical value.
pub struct DecoderState {
    /// Number of blocks the image holds.
    pub expected: nat,
    /// The accepted blocks, one after the other.
    pub image: Seq<u8>,
    /// The bytes received of the block in flight.
    pub partial: Seq<u8>,
    /// The checksum announced for the block in flight, as far as received.
    pub crc: u32,
    /// How many bytes of that checksum have been received.
    pub crc_len: nat,
}

impl DecoderState {
    /// A decoder that has seen nothing yet.
    pub open spec fn start(expected: nat) -> DecoderState {
        DecoderState { expected, image: Seq::empty(), partial: Seq::empty(), crc: 0, crc_len: 0 }
    }

    /// Number of accepted blocks.
    pub open spec fn accepted(self) -> nat {
        self.image.len() / CHUNK_SIZE as nat
    }

    /// Every expected block has been accepted.
    pub open spec fn complete(self) -> bool {
        self.image.len() == self.expected * CHUNK_SIZE
    }

    /// The decoder stands between two records.
    pub open spec fn at_record_start(self) -> bool {
        self.partial.len() == 0 && self.crc_len == 0 && self.crc == 0
    }

    /// The `index`-th accepted block.
    pub open spec fn chunk(self, index: int) -> Seq<u8> {
        self.image.subrange(index * CHUNK_SIZE, index * CHUNK_SIZE + CHUNK_SIZE)
    }

    /// The image is a whole number of supported blocks, no more than
    /// expected; the block in flight is not yet whole and has its checksum
    /// announced in full; and a complete image leaves nothing in flight.
    pub open spec fn wf(self) -> bool {
        &&& self.expected <= MAX_CHUNK_COUNT
        &&& self.image.len() % CHUNK_SIZE as nat == 0
        &&& self.image.len() <= self.expected * CHUNK_SIZE
        &&& self.partial.len() < CHUNK_SIZE
        &&& self.crc_len <= 4
        &&& self.partial.len() > 0 ==> self.crc_len == 4
        &&& self.complete() ==> self.at_record_start()
        &&& self.all_supported()
    }

    /// Every accepted block passes the support test.
    pub open spec fn all_supported(self) -> bool {
        forall|k: int|
            0 <= k < self.accepted() ==> spec_is_supported_chunk(#[trigger] self.chunk(k))
    }

    /// The decoder after `byte`, and what the byte did.
    pub open spec fn feed(self, byte: u8) -> (DecoderState, Status) {
        if self.complete() {
            (self, Status::Complete)
        } else if self.crc_len < 4 {
            (
                DecoderState {
                    crc: self.crc | (byte as u32) << ((self.crc_len * 8) as u32),
                    crc_len: self.crc_len + 1,
                    ..self
                },
                Status::Progress,
            )
        } else if self.partial.len() + 1 < CHUNK_SIZE {
            (DecoderState { partial: self.partial.push(byte), ..self }, Status::Progress)
        } else {
            let chunk = self.partial.push(byte);
            let rewound = DecoderState { partial: Seq::empty(), crc: 0, crc_len: 0, ..self };
            if spec_crc32(chunk) != self.crc || !spec_is_supported_chunk(chunk) {
                (rewound, Status::ChunkInvalid)
            } else {
                let next = DecoderState { image: self.image + chunk, ..rewound };
                (
                    next,
                    if next.complete() {
                        Status::Complete
                    } else {
                        Status::ChunkDone
                    },
                )
            }
        }
    }

    /// The decoder after every byte of `bytes`, in order.
    pub open spec fn feed_all(self, bytes: Seq<u8>) -> DecoderState
        decreases bytes.len(),
    {
        if bytes.len() == 0 {
            self
        } else {
            self.feed_all(bytes.drop_last()).feed(bytes.last()).0
        }
    }

    /// What the last byte of `bytes` did.
    pub open spec fn last_status(self, bytes: Seq<u8>) -> Status
        recommends
            bytes.len() > 0,
    {
        self.feed_all(bytes.drop_last()).feed(bytes.last()).1
    }
}

/// Receives a firmware image byte by byte and keeps the blocks that pass
/// their checksum and the support test.
pub struct FirmwareDownloader {
    chunk_buf: Vec<u8>,
    chunk_count: usize,
    expected_chunk_count: usize,
    cur_crc: u32,
    cur_crc_offset: u32,
}

impl View for FirmwareDownloader {
    type V = DecoderState;

    closed spec fn view(&self) -> DecoderState {
        DecoderState {
            expected: self.expected_chunk_count as nat,
            image: self.chunk_buf@.take(self.chunk_count * CHUNK_SIZE),
            partial: self.chunk_buf@.skip(self.chunk_count * CHUNK_SIZE),
            crc: self.cur_crc,
            crc_len: self.cur_crc_offset as nat,
        }
    }
}

impl FirmwareDownloader {
    /// The representation is sound and the model it stands for is too.
    pub closed spec fn wf(&self) -> bool {
        &&& self.chunk_count * CHUNK_SIZE <= self.chunk_buf.len()
        &&& self@.wf()
    }

    /// A decoder for an image of `expected_chunk_count` blocks.
    pub fn new(expected_chunk_count: usize) -> (made: Result<Self, Error>)
        ensures
            expected_chunk_count > MAX_CHUNK_COUNT ==> made == Err::<Self, Error>(
                Error::TooManyChunks,
            ),
            expected_chunk_count <= MAX_CHUNK_COUNT ==> made is Ok && made->Ok_0.wf()
                && made->Ok_0@ == DecoderState::start(expected_chunk_count as nat),
    {
        if expected_chunk_count > MAX_CHUNK_COUNT {
            Err(Error::TooManyChunks)
        } else {
            let made = Self {
                chunk_buf: Vec::new(),
                chunk_count: 0,
                expected_chunk_count,
                cur_crc: 0,
                cur_crc_offset: 0,
            };
            assert(made@.image =~= Seq::<u8>::empty());
            assert(made@.partial =~= Seq::<u8>::empty());
            Ok(made)
        }
    }

    /// Takes one byte of the stream.
    pub fn feed(&mut self, byte: u8) -> (status: Status)
        requires
            old(self).wf(),
        ensures
            final(self).wf(),
            (final(self)@, status) == old(self)@.feed(byte),
    {
        if self.chunk_count == self.expected_chunk_count {
            return Status::Complete;
        }
        let ghost before = self@;
        if self.cur_crc_offset < 4 {
            self.cur_crc = self.cur_crc | (byte as u32) << (self.cur_crc_offset * 8);
            self.cur_crc_offset = self.cur_crc_offset + 1;
            proof {
                lemma_same_image_keeps_support(before, self@);
            }
            return Status::Progress;
        }
        let start = self.chunk_count * CHUNK_SIZE;
        self.chunk_buf.push(byte);
        assert(self.chunk_buf@.skip(start as int) =~= before.partial.push(byte));
        assert(self.chunk_buf@.take(start as int) =~= before.image);
        if self.chunk_buf.len() - start < CHUNK_SIZE {
            proof {
                lemma_same_image_keeps_support(before, self@);
            }
            return Status::Progress;
        }
        let crc = self.cur_crc;
        self.reset_crc();
        let end = self.chunk_buf.len();
        let chunk_data = slice_subrange(self.chunk_buf.as_slice(), start, end);
        assert(chunk_data@ =~= before.partial.push(byte));
        if calc_crc32(chunk_data) == crc && Chunk::is_supported_chunk(chunk_data) {
            self.chunk_count = self.chunk_count + 1;
            proof {
                let after = self@;
                assert(after.image =~= before.image + chunk_data@);
                assert(after.partial =~= Seq::<u8>::empty());
                lemma_accepting_keeps_support(before, chunk_data@);
                lemma_same_image_keeps_support(
                    DecoderState { image: before.image + chunk_data@, ..before },
                    after,
                );
            }
            if self.chunk_count == self.expected_chunk_count {
                Status::Complete
            } else {
                Status::ChunkDone
            }
        } else {
            self.chunk_buf.truncate(start);
            assert(self.chunk_buf@.skip(start as int) =~= Seq::<u8>::empty());
            assert(self.chunk_buf@.take(start as int) =~= before.image);
            proof {
                lemma_same_image_keeps_support(before, self@);
            }
            Status::ChunkInvalid
        }
    }

    /// Number of blocks accepted so far.
    pub fn chunk_count(&self) -> (count: usize)
        requires
            self.wf(),
        ensures
            count == self@.accepted(),
    {
        assert(self.chunk_buf@.take(self.chunk_count * CHUNK_SIZE).len() == self.chunk_count
            * CHUNK_SIZE);
        self.chunk_count
    }

    /// Number of blocks the image holds.
    pub fn expected_chunk_count(&self) -> (count: usize)
        ensures
            count == self@.expected,
    {
        self.expected_chunk_count
    }

    /// Whether every expected block has been accepted.
    pub fn is_complete(&self) -> (done: bool)
        requires
            self.wf(),
        ensures
            done == self@.complete(),
    {
        assert(self.chunk_buf@.take(self.chunk_count * CHUNK_SIZE).len() == self.chunk_count
            * CHUNK_SIZE);
        self.chunk_count == self.expected_chunk_count
    }

    /// The accepted block number `index`, decoded; none where fewer blocks
    /// have been accepted.
    pub fn chunk(&self, index: usize) -> (chunk: Option<Chunk>)
        requires
            self.wf(),
        ensures
            index < self@.accepted() ==> chunk is Some && chunk->Some_0.decodes(
                self@.chunk(index as int),
            ) && spec_is_supported_chunk(self@.chunk(index as int)),
            index >= self@.accepted() ==> chunk is None,
    {
        assert(self.chunk_buf@.take(self.chunk_count * CHUNK_SIZE).len() == self.chunk_count
            * CHUNK_SIZE);
        if index >= self.chunk_count {
            return None;
        }
        let start = index * CHUNK_SIZE;
        let data = slice_subrange(self.chunk_buf.as_slice(), start, start + CHUNK_SIZE);
        assert(data@ =~= self@.chunk(index as int));
        Chunk::from_bytes(data)
    }

    fn reset_crc(&mut self)
        ensures
            final(self).cur_crc == 0,
            final(self).cur_crc_offset == 0,
            final(self).chunk_buf == old(self).chunk_buf,
            final(self).chunk_count == old(self).chunk_count,
            final(self).expected_chunk_count == old(self).expected_chunk_count,
    {
        self.cur_crc = 0;
        self.cur_crc_offset = 0;
    }
}

/// Whether every accepted block is supported depends on the image alone.
proof fn lemma_same_image_keeps_support(s: DecoderState, t: DecoderState)
    requires
        s.all_supported(),
        t.image == s.image,
    ensures
        t.all_supported(),
{
    assert forall|k: int| 0 <= k < t.accepted() implies spec_is_supported_chunk(
        #[trigger] t.chunk(k),
    ) by {
        assert(t.chunk(k) == s.chunk(k));
    }
}

/// Appending a supported block to a sound image leaves every block of the
/// longer image supported.
proof fn lemma_accepting_keeps_support(s: DecoderState, chunk: Seq<u8>)
    requires
        s.wf(),
        spec_is_supported_chunk(chunk),
    ensures
        ({
            let t = DecoderState { image: s.image + chunk, ..s };
            &&& t.accepted() == s.accepted() + 1
            &&& t.image.len() % CHUNK_SIZE as nat == 0
            &&& t.all_supported()
        }),
{
    let t = DecoderState { image: s.image + chunk, ..s };
    assert forall|k: int| 0 <= k < t.accepted() implies spec_is_supported_chunk(
        #[trigger] t.chunk(k),
    ) by {
        if k < s.accepted() {
            assert(t.chunk(k) =~= s.chunk(k));
        } else {
            assert(t.chunk(k) =~= chunk);
        }
    }
}

/// Feeding one more byte is feeding the bytes before it and then that byte.
pub proof fn lemma_feed_all_push(s: DecoderState, bytes: Seq<u8>, byte: u8)
    ensures
        s.feed_all(bytes.push(byte)) == s.feed_all(bytes).feed(byte).0,
        s.last_status(bytes.push(byte)) == s.feed_all(bytes).feed(byte).1,
{
    assert(bytes.push(byte).drop_last() =~= bytes);
}

/// Feeding two strings one after the other is feeding their concatenation.
pub proof fn lemma_feed_all_concat(s: DecoderState, first: Seq<u8>, second: Seq<u8>)
    ensures
        s.feed_all(first + second) == s.feed_all(first).feed_all(second),
        second.len() > 0 ==> s.last_status(first + second) == s.feed_all(first).last_status(
            second,
        ),
    decreases second.len(),
{
    if second.len() == 0 {
        assert(first + second =~= first);
    } else {
        lemma_feed_all_concat(s, first, second.drop_last());
        assert((first + second).drop_last() =~= first + second.drop_last());
    }
}

/// Four checksum bytes fed at the start of a record leave the decoder
/// holding the word they spell.
proof fn lemma_feed_checksum(s: DecoderState, word: u32)
    requires
        s.wf(),
        !s.complete(),
        s.at_record_start(),
    ensures
        s.feed_all(le_bytes_u32(word)) == (DecoderState { crc: word, crc_len: 4, ..s }),
{
    let b0 = (word & 0xFF) as u8;
    let b1 = ((word >> 8) & 0xFF) as u8;
    let b2 = ((word >> 16) & 0xFF) as u8;
    let b3 = ((word >> 24) & 0xFF) as u8;
    let e = Seq::<u8>::empty();
    assert(le_bytes_u32(word) =~= e.push(b0).push(b1).push(b2).push(b3));
    lemma_feed_all_push(s, e, b0);
    lemma_feed_all_push(s, e.push(b0), b1);
    lemma_feed_all_push(s, e.push(b0).push(b1), b2);
    lemma_feed_all_push(s, e.push(b0).push(b1).push(b2), b3);
    let c1 = 0u32 | (b0 as u32) << 0u32;
    let c2 = c1 | (b1 as u32) << 8u32;
    let c3 = c2 | (b2 as u32) << 16u32;
    let c4 = c3 | (b3 as u32) << 24u32;
    assert(c4 == word) by (bit_vector)
        requires
            b0 == (word & 0xFF) as u8,
            b1 == ((word >> 8) & 0xFF) as u8,
            b2 == ((word >> 16) & 0xFF) as u8,
            b3 == ((word >> 24) & 0xFF) as u8,
            c1 == 0u32 | (b0 as u32) << 0u32,
            c2 == c1 | (b1 as u32) << 8u32,
            c3 == c2 | (b2 as u32) << 16u32,
            c4 == c3 | (b3 as u32) << 24u32,
    ;
    let s1 = s.feed(b0).0;
    assert(s1.crc == c1 && s1.crc_len == 1);
    let s2 = s1.feed(b1).0;
    assert(s2.crc == c2 && s2.crc_len == 2);
    let s3 = s2.feed(b2).0;
    assert(s3.crc == c3 && s3.crc_len == 3);
    let s4 = s3.feed(b3).0;
    assert(s4.crc == c4 && s4.crc_len == 4);
}

/// Block bytes that do not finish the block are appended to it and change
/// nothing else.
proof fn lemma_feed_block_bytes(s: DecoderState, bytes: Seq<u8>)
    requires
        !s.complete(),
        s.crc_len == 4,
        s.partial.len() + bytes.len() < CHUNK_SIZE,
    ensures
        s.feed_all(bytes) == (DecoderState { partial: s.partial + bytes, ..s }),
    decreases bytes.len(),
{
    if bytes.len() == 0 {
        assert(s.partial + bytes =~= s.partial);
    } else {
        lemma_feed_block_bytes(s, bytes.drop_last());
        assert((s.partial + bytes.drop_last()).push(bytes.last()) =~= s.partial + bytes);
    }
}

/// A record is the checksum announced for a block, then the block. Fed at
/// the start of a record, it leaves the decoder where feeding its last byte
/// to a decoder holding the first 511 block bytes leaves it.
proof fn lemma_feed_record(s: DecoderState, word: u32, block: Seq<u8>)
    requires
        s.wf(),
        !s.complete(),
        s.at_record_start(),
        block.len() == CHUNK_SIZE,
    ensures
        ({
            let held = DecoderState { crc: word, crc_len: 4, partial: block.drop_last(), ..s };
            &&& s.feed_all(le_bytes_u32(word) + block) == held.feed(block.last()).0
            &&& s.last_status(le_bytes_u32(word) + block) == held.feed(block.last()).1
        }),
{
    let head = le_bytes_u32(word);
    let body = block.drop_last();
    lemma_feed_checksum(s, word);
    let t = s.feed_all(head);
    lemma_feed_block_bytes(t, body);
    assert(t.partial + body =~= body);
    lemma_feed_all_concat(s, head, body);
    lemma_feed_all_push(s, head + body, block.last());
    assert((head + body).push(block.last()) =~= head + block);
}

/// A supported block that follows its own CRC-32 is accepted: the image
/// grows by exactly that block, the decoder stands at the start of the
/// next record, and the last byte reports `Complete` if the image is now
/// whole and `ChunkDone` if not.
pub proof fn lemma_good_record_accepted(s: DecoderState, block: Seq<u8>)
    requires
        s.wf(),
        !s.complete(),
        s.at_record_start(),
        spec_is_supported_chunk(block),
    ensures
        ({
            let record = le_bytes_u32(spec_crc32(block)) + block;
            let t = s.feed_all(record);
            &&& t.wf()
            &&& t.at_record_start()
            &&& t.image == s.image + block
            &&& t.accepted() == s.accepted() + 1
            &&& t.expected == s.expected
            &&& s.last_status(record) == if t.complete() {
                Status::Complete
            } else {
                Status::ChunkDone
            }
        }),
{
    lemma_feed_record(s, spec_crc32(block), block);
    assert(block.drop_last().push(block.last()) =~= block);
    lemma_accepting_keeps_support(s, block);
    let t = s.feed_all(le_bytes_u32(spec_crc32(block)) + block);
    lemma_same_image_keeps_support(DecoderState { image: s.image + block, ..s }, t);
}

/// A block with one byte changed after its CRC-32 was taken is thrown
/// away: the last byte reports `ChunkInvalid` and the decoder is back
/// where it stood before the record, so the same slot takes the
/// retransmission.
pub proof fn lemma_corrupt_record_rejected(s: DecoderState, block: Seq<u8>, bad: Seq<u8>, at: int)
    requires
        s.wf(),
        !s.complete(),
        s.at_record_start(),
        block.len() == CHUNK_SIZE,
        bad.len() == CHUNK_SIZE,
        0 <= at < CHUNK_SIZE,
        bad[at] != block[at],
        forall|j: int| 0 <= j < CHUNK_SIZE && j != at ==> bad[j] == block[j],
    ensures
        s.feed_all(le_bytes_u32(spec_crc32(block)) + bad) == s,
        s.last_status(le_bytes_u32(spec_crc32(block)) + bad) == Status::ChunkInvalid,
{
    lemma_crc32_detects_single_byte_change(bad, block, at);
    lemma_feed_record(s, spec_crc32(block), bad);
    assert(bad.drop_last().push(bad.last()) =~= bad);
    assert(s.partial =~= Seq::<u8>::empty());
}

/// A corrupted record followed by the corrected one counts once: the image
/// holds the block a single time.
pub proof fn lemma_retransmission_counts_once(
    s: DecoderState,
    block: Seq<u8>,
    bad: Seq<u8>,
    at: int,
)
    requires
        s.wf(),
        !s.complete(),
        s.at_record_start(),
        spec_is_supported_chunk(block),
        bad.len() == CHUNK_SIZE,
        0 <= at < CHUNK_SIZE,
        bad[at] != block[at],
        forall|j: int| 0 <= j < CHUNK_SIZE && j != at ==> bad[j] == block[j],
    ensures
        ({
            let crc = le_bytes_u32(spec_crc32(block));
            let t = s.feed_all((crc + bad) + (crc + block));
            &&& t.image == s.image + block
            &&& t.accepted() == s.accepted() + 1
        }),
{
    let crc = le_bytes_u32(spec_crc32(block));
    lemma_corrupt_record_rejected(s, block, bad, at);
    lemma_good_record_accepted(s, block);
    lemma_feed_all_concat(s, crc + bad, crc + block);
}

} // verus!
