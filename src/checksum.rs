//! CRC-16/XMODEM, the integrity code that closes every frame: polynomial
//! 0x1021, register starting at zero, bytes fed most significant bit first.
use vstd::prelude::*;

verus! {

/// One shift of the CRC register: multiply by x modulo the generator.
pub open spec fn crc_shift(c: u16) -> u16 {
    if c & 0x8000u16 != 0 {
        ((c << 1u16) ^ 0x1021u16) as u16
    } else {
        (c << 1u16) as u16
    }
}

/// `n` successive shifts of the register.
pub open spec fn crc_shift_n(c: u16, n: nat) -> u16
    decreases n,
{
    if n == 0 {
        c
    } else {
        crc_shift_n(crc_shift(c), (n - 1) as nat)
    }
}

/// The register after feeding one byte into it.
pub open spec fn crc_byte(c: u16, b: u8) -> u16 {
    crc_shift_n(c ^ ((b as u16) << 8u16), 8)
}

/// The checksum of a byte sequence: the register, started at zero, after
/// feeding every byte in order.
pub open spec fn crc16_of(s: Seq<u8>) -> u16
    decreases s.len(),
{
    if s.len() == 0 {
        0
    } else {
        crc_byte(crc16_of(s.drop_last()), s.last())
    }
}

proof fn lemma_shift_injective(a: u16, b: u16)
    requires
        a != b,
    ensures
        crc_shift(a) != crc_shift(b),
{
    assert(a != b ==> (if a & 0x8000u16 != 0 {
        ((a << 1u16) ^ 0x1021u16) as u16
    } else {
        (a << 1u16) as u16
    }) != (if b & 0x8000u16 != 0 {
        ((b << 1u16) ^ 0x1021u16) as u16
    } else {
        (b << 1u16) as u16
    })) by (bit_vector);
}

proof fn lemma_shift_n_injective(a: u16, b: u16, n: nat)
    requires
        a != b,
    ensures
        crc_shift_n(a, n) != crc_shift_n(b, n),
    decreases n,
{
    if n > 0 {
        lemma_shift_injective(a, b);
        lemma_shift_n_injective(crc_shift(a), crc_shift(b), (n - 1) as nat);
    }
}

/// Feeding the same byte into two different registers keeps them different.
proof fn lemma_byte_injective_in_register(c1: u16, c2: u16, b: u8)
    requires
        c1 != c2,
    ensures
        crc_byte(c1, b) != crc_byte(c2, b),
{
    assert(c1 != c2 ==> c1 ^ ((b as u16) << 8u16) != c2 ^ ((b as u16) << 8u16)) by (bit_vector);
    lemma_shift_n_injective(c1 ^ ((b as u16) << 8u16), c2 ^ ((b as u16) << 8u16), 8);
}

/// Feeding two different bytes into one register gives different registers.
proof fn lemma_byte_injective_in_input(c: u16, b1: u8, b2: u8)
    requires
        b1 != b2,
    ensures
        crc_byte(c, b1) != crc_byte(c, b2),
{
    assert(b1 != b2 ==> c ^ ((b1 as u16) << 8u16) != c ^ ((b2 as u16) << 8u16)) by (bit_vector);
    lemma_shift_n_injective(c ^ ((b1 as u16) << 8u16), c ^ ((b2 as u16) << 8u16), 8);
}

/// Replacing any one byte of a sequence by a different byte changes its
/// checksum.
pub proof fn lemma_checksum_detects_byte_change(s: Seq<u8>, i: int, v: u8)
    requires
        0 <= i < s.len(),
        v != s[i],
    ensures
        crc16_of(s.update(i, v)) != crc16_of(s),
    decreases s.len(),
{
    let t = s.update(i, v);
    if i == s.len() - 1 {
        assert(t.drop_last() =~= s.drop_last());
        lemma_byte_injective_in_input(crc16_of(s.drop_last()), v, s.last());
    } else {
        assert(t.drop_last() =~= s.drop_last().update(i, v));
        lemma_checksum_detects_byte_change(s.drop_last(), i, v);
        lemma_byte_injective_in_register(crc16_of(t.drop_last()), crc16_of(s.drop_last()), s.last());
    }
}

/// Flipping any single bit of the input changes the checksum.
pub proof fn lemma_checksum_detects_bit_flip(s: Seq<u8>, i: int, bit: u8)
    requires
        0 <= i < s.len(),
        bit < 8,
    ensures
        crc16_of(s.update(i, s[i] ^ (1u8 << bit))) != crc16_of(s),
{
    let x = s[i];
    assert(bit < 8 ==> x ^ (1u8 << bit) != x) by (bit_vector);
    lemma_checksum_detects_byte_change(s, i, x ^ (1u8 << bit));
}

/// The register after feeding one byte, computed one shift at a time.
fn crc16_update(crc: u16, b: u8) -> (r: u16)
    ensures
        r == crc_byte(crc, b),
{
    let mut c: u16 = crc ^ ((b as u16) << 8u16);
    let mut k: u16 = 0;
    while k < 8
        invariant
            k <= 8,
            crc_shift_n(c, (8 - k) as nat) == crc_byte(crc, b),
        decreases 8 - k,
    {
        c = if c & 0x8000u16 != 0 {
            (c << 1u16) ^ 0x1021u16
        } else {
            c << 1u16
        };
        k = k + 1;
    }
    c
}

/// The CRC-16 of `data`, as the device computes it. The result is the spec
/// function `crc16_of` of the bytes, so equal inputs give equal checksums.
pub fn checksum(data: &[u8]) -> (r: u16)
    ensures
        r == crc16_of(data@),
{
    let mut crc: u16 = 0;
    let mut i: usize = 0;
    while i < data.len()
        invariant
            i <= data@.len(),
            crc == crc16_of(data@.subrange(0, i as int)),
        decreases data@.len() - i,
    {
        assert(data@.subrange(0, i + 1).drop_last() =~= data@.subrange(0, i as int));
        crc = crc16_update(crc, data[i]);
        i = i + 1;
    }
    assert(data@.subrange(0, data@.len() as int) =~= data@);
    crc
}

} // verus!
