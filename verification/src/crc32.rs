//! CRC-32/ISO-HDLC, used to tie a Unicode-path extra field to its host
//! header's filename bytes.

use vstd::prelude::*;

verus! {

/// One round of the bit-reflected CRC-32 update: shift right, folding the
/// polynomial 0xEDB88320 in when the low bit was set.
pub open spec fn crc32_bit_step(c: u32) -> u32 {
    if c & 1 == 1 {
        (c >> 1) ^ 0xEDB88320u32
    } else {
        c >> 1
    }
}

/// `crc32_bit_step` applied `n` times.
pub open spec fn crc32_bit_steps(c: u32, n: nat) -> u32
    decreases n,
{
    if n == 0 {
        c
    } else {
        crc32_bit_steps(crc32_bit_step(c), (n - 1) as nat)
    }
}

/// Folding one input byte into the running CRC state.
pub open spec fn crc32_push_byte(c: u32, b: u8) -> u32 {
    crc32_bit_steps(c ^ (b as u32), 8)
}

/// The CRC register after feeding `data`, starting from the all-ones
/// initial value.
pub open spec fn crc32_state(data: Seq<u8>) -> u32
    decreases data.len(),
{
    if data.len() == 0 {
        0xFFFFFFFFu32
    } else {
        crc32_push_byte(crc32_state(data.drop_last()), data.last())
    }
}

/// CRC-32/ISO-HDLC of a byte sequence: all-ones initial value, reflected
/// polynomial 0xEDB88320, final complement.
pub open spec fn crc32_of(data: Seq<u8>) -> u32 {
    crc32_state(data) ^ 0xFFFFFFFFu32
}

proof fn lemma_crc32_bit_steps_snoc(c: u32, n: nat)
    ensures
        crc32_bit_steps(c, n + 1) == crc32_bit_step(crc32_bit_steps(c, n)),
    decreases n,
{
    assert(crc32_bit_steps(c, n + 1) == crc32_bit_steps(crc32_bit_step(c), n));
    if n > 0 {
        lemma_crc32_bit_steps_snoc(crc32_bit_step(c), (n - 1) as nat);
        assert(crc32_bit_steps(c, n) == crc32_bit_steps(crc32_bit_step(c), (n - 1) as nat));
    }
}

/// Fold one byte into the CRC register.
fn crc32_push(c: u32, b: u8) -> (r: u32)
    ensures
        r == crc32_push_byte(c, b),
{
    let start: u32 = c ^ (b as u32);
    let mut x: u32 = start;
    let mut k: usize = 0;
    while k < 8
        invariant
            k <= 8,
            x == crc32_bit_steps(start, k as nat),
        decreases 8 - k,
    {
        proof {
            lemma_crc32_bit_steps_snoc(start, k as nat);
        }
        x = if x & 1 == 1 {
            (x >> 1) ^ 0xEDB88320u32
        } else {
            x >> 1
        };
        k = k + 1;
    }
    x
}

/// CRC-32/ISO-HDLC of `data`.
pub fn crc32(data: &[u8]) -> (r: u32)
    ensures
        r == crc32_of(data@),
{
    let mut c: u32 = 0xFFFFFFFF;
    let n: usize = data.len();
    assert(data@.take(0) =~= Seq::<u8>::empty());
    for i in 0..n
        invariant
            n == data@.len(),
            c == crc32_state(data@.take(i as int)),
    {
        c = crc32_push(c, data[i]);
        assert(data@.take(i + 1).drop_last() =~= data@.take(i as int));
        assert(data@.take(i + 1).last() == data@[i as int]);
    }
    assert(data@.take(n as int) =~= data@);
    c ^ 0xFFFFFFFF
}

} // verus!
