//! The two checksums of the device: CRC-8 over frame payloads and CRC-32
//! over firmware chunks, each with its bit-level definition and the proof
//! that a change confined to one byte is always detected.

use vstd::prelude::*;

verus! {

/// One shift step of the CRC-8 register: polynomial 0x31, MSB first.
pub open spec fn crc8_round(crc: u8) -> u8 {
    if crc & 0x80 != 0 {
        (crc << 1) ^ 0x31
    } else {
        crc << 1
    }
}

/// `n` shift steps of the CRC-8 register.
pub open spec fn crc8_rounds(crc: u8, n: nat) -> u8
    decreases n,
{
    if n == 0 {
        crc
    } else {
        crc8_round(crc8_rounds(crc, (n - 1) as nat))
    }
}

/// The CRC-8 register after absorbing one byte.
pub open spec fn crc8_byte(crc: u8, val: u8) -> u8 {
    crc8_rounds(crc ^ val, 8)
}

/// The CRC-8 register after absorbing `data`, starting from `init`.
pub open spec fn crc8_from(init: u8, data: Seq<u8>) -> u8
    decreases data.len(),
{
    if data.len() == 0 {
        init
    } else {
        crc8_byte(crc8_from(init, data.drop_last()), data.last())
    }
}

/// CRC-8 of `data`: polynomial 0x31, initial value 0xFF, MSB first, no
/// final XOR.
pub open spec fn spec_crc8(data: Seq<u8>) -> u8 {
    crc8_from(0xFF, data)
}

/// Computes the CRC-8 of `data`.
pub fn calc_crc8(data: &[u8]) -> (crc: u8)
    ensures
        crc == spec_crc8(data@),
{
    let mut crc: u8 = 0xFF;
    let mut i: usize = 0;
    while i < data.len()
        invariant
            i <= data.len(),
            crc == crc8_from(0xFF, data@.take(i as int)),
        decreases data.len() - i,
    {
        let ghost before = crc;
        crc = crc ^ data[i];
        let mut bit: u8 = 0;
        while bit < 8
            invariant
                bit <= 8,
                crc == crc8_rounds(before ^ data@[i as int], bit as nat),
            decreases 8 - bit,
        {
            if (crc & 0x80) != 0 {
                crc = (crc << 1) ^ 0x31;
            } else {
                crc = crc << 1;
            }
            bit = bit + 1;
        }
        proof {
            assert(data@.take(i + 1).drop_last() == data@.take(i as int));
        }
        i = i + 1;
    }
    proof {
        assert(data@.take(data.len() as int) == data@);
    }
    crc
}

/// One shift step of the CRC-8 register loses nothing: distinct registers
/// stay distinct.
proof fn lemma_crc8_round_injective(x: u8, y: u8)
    requires
        crc8_round(x) == crc8_round(y),
    ensures
        x == y,
{
    assert(crc8_round(x) == crc8_round(y) ==> x == y) by (bit_vector);
}

proof fn lemma_crc8_rounds_injective(x: u8, y: u8, n: nat)
    requires
        crc8_rounds(x, n) == crc8_rounds(y, n),
    ensures
        x == y,
    decreases n,
{
    if n > 0 {
        lemma_crc8_round_injective(crc8_rounds(x, (n - 1) as nat), crc8_rounds(y, (n - 1) as nat));
        lemma_crc8_rounds_injective(x, y, (n - 1) as nat);
    }
}

/// Absorbing a byte keeps distinct registers distinct, and from one
/// register distinct bytes lead to distinct registers.
proof fn lemma_crc8_byte_injective(c1: u8, v1: u8, c2: u8, v2: u8)
    requires
        crc8_byte(c1, v1) == crc8_byte(c2, v2),
    ensures
        c1 == c2 ==> v1 == v2,
        v1 == v2 ==> c1 == c2,
{
    lemma_crc8_rounds_injective(c1 ^ v1, c2 ^ v2, 8);
    assert(c1 ^ v1 == c2 ^ v2 ==> (c1 == c2 ==> v1 == v2) && (v1 == v2 ==> c1 == c2))
        by (bit_vector);
}

/// Two payloads of one length that differ in exactly one byte, by one bit
/// or by several, never share a CRC-8. Differences spread over two or more
/// bytes can cancel: such pairs exist for every payload of two bytes or
/// more, and no checksum of eight bits can tell them apart.
pub proof fn lemma_crc8_detects_single_byte_change(a: Seq<u8>, b: Seq<u8>, at: int)
    requires
        a.len() == b.len(),
        0 <= at < a.len(),
        a[at] != b[at],
        forall|j: int| 0 <= j < a.len() && j != at ==> a[j] == b[j],
    ensures
        spec_crc8(a) != spec_crc8(b),
    decreases a.len(),
{
    let ca = crc8_from(0xFF, a.drop_last());
    let cb = crc8_from(0xFF, b.drop_last());
    if at == a.len() - 1 {
        assert(a.drop_last() =~= b.drop_last());
    } else {
        lemma_crc8_detects_single_byte_change(a.drop_last(), b.drop_last(), at);
    }
    if crc8_byte(ca, a.last()) == crc8_byte(cb, b.last()) {
        lemma_crc8_byte_injective(ca, a.last(), cb, b.last());
    }
}

/// One shift step of the CRC-32 register: reflected polynomial 0xEDB88320,
/// LSB first.
pub open spec fn crc32_round(crc: u32) -> u32 {
    if crc & 1 != 0 {
        (crc >> 1) ^ 0xEDB88320
    } else {
        crc >> 1
    }
}

/// `n` shift steps of the CRC-32 register.
pub open spec fn crc32_rounds(crc: u32, n: nat) -> u32
    decreases n,
{
    if n == 0 {
        crc
    } else {
        crc32_round(crc32_rounds(crc, (n - 1) as nat))
    }
}

/// The CRC-32 register after absorbing one byte.
pub open spec fn crc32_byte(crc: u32, val: u8) -> u32 {
    crc32_rounds(crc ^ (val as u32), 8)
}

/// The CRC-32 register after absorbing `data`, starting from `init`.
pub open spec fn crc32_from(init: u32, data: Seq<u8>) -> u32
    decreases data.len(),
{
    if data.len() == 0 {
        init
    } else {
        crc32_byte(crc32_from(init, data.drop_last()), data.last())
    }
}

/// CRC-32 of `data`: reflected polynomial 0xEDB88320, initial value
/// 0xFFFFFFFF, final complement.
pub open spec fn spec_crc32(data: Seq<u8>) -> u32 {
    !crc32_from(0xFFFF_FFFF, data)
}

/// Computes the CRC-32 of `data`.
pub fn calc_crc32(data: &[u8]) -> (crc: u32)
    ensures
        crc == spec_crc32(data@),
{
    let mut crc: u32 = 0xFFFF_FFFF;
    let mut i: usize = 0;
    while i < data.len()
        invariant
            i <= data.len(),
            crc == crc32_from(0xFFFF_FFFF, data@.take(i as int)),
        decreases data.len() - i,
    {
        let ghost before = crc;
        crc = crc ^ (data[i] as u32);
        let mut bit: u8 = 0;
        while bit < 8
            invariant
                bit <= 8,
                crc == crc32_rounds(before ^ (data@[i as int] as u32), bit as nat),
            decreases 8 - bit,
        {
            if (crc & 1) != 0 {
                crc = (crc >> 1) ^ 0xEDB88320;
            } else {
                crc = crc >> 1;
            }
            bit = bit + 1;
        }
        proof {
            assert(data@.take(i + 1).drop_last() == data@.take(i as int));
        }
        i = i + 1;
    }
    proof {
        assert(data@.take(data.len() as int) == data@);
    }
    !crc
}

proof fn lemma_crc32_round_injective(x: u32, y: u32)
    requires
        crc32_round(x) == crc32_round(y),
    ensures
        x == y,
{
    assert(crc32_round(x) == crc32_round(y) ==> x == y) by (bit_vector);
}

proof fn lemma_crc32_rounds_injective(x: u32, y: u32, n: nat)
    requires
        crc32_rounds(x, n) == crc32_rounds(y, n),
    ensures
        x == y,
    decreases n,
{
    if n > 0 {
        lemma_crc32_round_injective(
            crc32_rounds(x, (n - 1) as nat),
            crc32_rounds(y, (n - 1) as nat),
        );
        lemma_crc32_rounds_injective(x, y, (n - 1) as nat);
    }
}

proof fn lemma_crc32_byte_injective(c1: u32, v1: u8, c2: u32, v2: u8)
    requires
        crc32_byte(c1, v1) == crc32_byte(c2, v2),
    ensures
        c1 == c2 ==> v1 == v2,
        v1 == v2 ==> c1 == c2,
{
    lemma_crc32_rounds_injective(c1 ^ (v1 as u32), c2 ^ (v2 as u32), 8);
    assert(c1 ^ (v1 as u32) == c2 ^ (v2 as u32) ==> (c1 == c2 ==> v1 == v2) && (v1 == v2 ==> c1
        == c2)) by (bit_vector);
}

/// Two byte strings of one length that differ in exactly one byte never
/// share a CRC-32.
pub proof fn lemma_crc32_detects_single_byte_change(a: Seq<u8>, b: Seq<u8>, at: int)
    requires
        a.len() == b.len(),
        0 <= at < a.len(),
        a[at] != b[at],
        forall|j: int| 0 <= j < a.len() && j != at ==> a[j] == b[j],
    ensures
        spec_crc32(a) != spec_crc32(b),
    decreases a.len(),
{
    let ca = crc32_from(0xFFFF_FFFF, a.drop_last());
    let cb = crc32_from(0xFFFF_FFFF, b.drop_last());
    if at == a.len() - 1 {
        assert(a.drop_last() =~= b.drop_last());
    } else {
        lemma_crc32_detects_single_byte_change(a.drop_last(), b.drop_last(), at);
    }
    if crc32_byte(ca, a.last()) == crc32_byte(cb, b.last()) {
        lemma_crc32_byte_injective(ca, a.last(), cb, b.last());
    }
    let fa = crc32_from(0xFFFF_FFFF, a);
    let fb = crc32_from(0xFFFF_FFFF, b);
    assert(!fa != !fb) by (bit_vector)
        requires
            fa != fb,
    ;
}

} // verus!
