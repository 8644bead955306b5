//! Word-level arithmetic and byte-packing helpers: modular (wrap-around)
//! 32-bit arithmetic, bit rotation, and little-endian assembly of half-words
//! and words from bytes.

use vstd::prelude::*;

verus! {

/// Reduce a mathematical integer to the 32-bit word it denotes
/// (the value modulo 2^32; Euclidean remainder, so always in range).
pub open spec fn to_u32(x: int) -> u32 {
    (x % 0x1_0000_0000) as u32
}

/// 32-bit addition with wrap-around.
pub open spec fn wadd(a: u32, b: u32) -> u32 {
    to_u32(a + b)
}

/// 32-bit subtraction with wrap-around.
pub open spec fn wsub(a: u32, b: u32) -> u32 {
    to_u32(a - b)
}

/// 32-bit multiplication with wrap-around.
pub open spec fn wmul(a: u32, b: u32) -> u32 {
    to_u32(a * b)
}

/// Rotate a 32-bit word right by `s` bit positions, `s < 32`.
pub open spec fn ror(x: u32, s: u32) -> u32
    recommends
        s < 32,
{
    if s == 0 {
        x
    } else {
        (x >> s) | (x << (32 - s) as u32)
    }
}

/// Little-endian: the 16-bit value stored as the byte pair `b0`, `b1`.
pub open spec fn half_of_bytes(b0: u8, b1: u8) -> u16 {
    (b0 + b1 * 0x100) as u16
}

/// Little-endian: the 32-bit value stored as the bytes `b0` .. `b3`.
pub open spec fn word_of_bytes(b0: u8, b1: u8, b2: u8, b3: u8) -> u32 {
    (b0 + b1 * 0x100 + b2 * 0x1_0000 + b3 * 0x100_0000) as u32
}

/// Byte `i` (0 = least significant) of a 32-bit word.
pub open spec fn byte_of(v: u32, i: int) -> u8
    recommends
        0 <= i < 4,
{
    if i == 0 {
        (v % 0x100) as u8
    } else if i == 1 {
        ((v / 0x100) % 0x100) as u8
    } else if i == 2 {
        ((v / 0x1_0000) % 0x100) as u8
    } else {
        ((v / 0x100_0000) % 0x100) as u8
    }
}

/// The 16-bit value stored little-endian at offset `a` of `m`.
pub open spec fn half_at(m: Seq<u8>, a: int) -> u16
    recommends
        0 <= a,
        a + 2 <= m.len(),
{
    half_of_bytes(m[a], m[a + 1])
}

/// The 32-bit value stored little-endian at offset `a` of `m`.
pub open spec fn word_at(m: Seq<u8>, a: int) -> u32
    recommends
        0 <= a,
        a + 4 <= m.len(),
{
    word_of_bytes(m[a], m[a + 1], m[a + 2], m[a + 3])
}

/// `m` with the 32-bit value `v` stored little-endian at offset `a`.
pub open spec fn store_word(m: Seq<u8>, a: int, v: u32) -> Seq<u8>
    recommends
        0 <= a,
        a + 4 <= m.len(),
{
    m.update(a, byte_of(v, 0)).update(a + 1, byte_of(v, 1)).update(a + 2, byte_of(v, 2)).update(
        a + 3,
        byte_of(v, 3),
    )
}

/// `m` with the bytes `bs` written starting at offset `a` (the image of a
/// program load).
pub open spec fn load_bytes(m: Seq<u8>, a: int, bs: Seq<u8>) -> Seq<u8>
    recommends
        0 <= a,
        a + bs.len() <= m.len(),
{
    Seq::new(m.len(), |i: int| if a <= i < a + bs.len() { bs[i - a] } else { m[i] })
}

/// Reassembling the four bytes of a word gives the word back.
pub proof fn lemma_word_of_bytes_of(v: u32)
    ensures
        word_of_bytes(byte_of(v, 0), byte_of(v, 1), byte_of(v, 2), byte_of(v, 3)) == v,
{
    assert(v % 0x100 + ((v / 0x100) % 0x100) * 0x100 + ((v / 0x1_0000) % 0x100) * 0x1_0000 + ((v
        / 0x100_0000) % 0x100) * 0x100_0000 == v) by (bit_vector);
}

/// Storing a word and reading it back at the same offset yields the word.
pub proof fn lemma_store_word_at(m: Seq<u8>, a: int, v: u32)
    requires
        0 <= a,
        a + 4 <= m.len(),
    ensures
        word_at(store_word(m, a, v), a) == v,
        store_word(m, a, v).len() == m.len(),
        forall|i: int| 0 <= i < m.len() && !(a <= i < a + 4) ==> store_word(m, a, v)[i] == m[i],
{
    lemma_word_of_bytes_of(v);
}

/// Bounds that masking with the common field-extraction constants guarantees,
/// for 32-bit operands.
pub proof fn lemma_mask_bounds_u32()
    by (bit_vector)
    ensures
        forall|x: u32| #[trigger] (x & 0x1) < 2,
        forall|x: u32| #[trigger] (x & 0x3) < 4,
        forall|x: u32| #[trigger] (x & 0x7) < 8,
        forall|x: u32| #[trigger] (x & 0xF) < 16,
        forall|x: u32| #[trigger] (x & 0xFF) < 0x100,
        forall|x: u32| #[trigger] (x & 0xFFF) < 0x1000,
        forall|x: u32| #[trigger] (x & 0xFFFFFF) < 0x100_0000,
        forall|x: u32| #[trigger] (x | 1) >= 1,
{
}

/// Bounds that masking with the common field-extraction constants guarantees,
/// for 16-bit operands.
pub proof fn lemma_mask_bounds_u16()
    by (bit_vector)
    ensures
        forall|x: u16| #[trigger] (x & 0x1) < 2,
        forall|x: u16| #[trigger] (x & 0x3) < 4,
        forall|x: u16| #[trigger] (x & 0x7) < 8,
        forall|x: u16| #[trigger] (x & 0xF) < 16,
        forall|x: u16| #[trigger] (x & 0x1F) < 32,
        forall|x: u16| #[trigger] (x & 0xFF) < 0x100,
        forall|x: u16| #[trigger] (x & 0x7FF) < 0x800,
{
}

/// Adding an already-reduced summand is the same as adding the summand.
pub proof fn lemma_to_u32_add(a: int, x: int)
    ensures
        to_u32(a + to_u32(x)) == to_u32(a + x),
{
    let m = 0x1_0000_0000int;
    vstd::arithmetic::div_mod::lemma_mod_multiples_vanish(-(x / m), a + x, m);
    assert(x % m == x - m * (x / m)) by {
        vstd::arithmetic::div_mod::lemma_fundamental_div_mod(x, m);
    }
    assert(a + to_u32(x) == m * (-(x / m)) + (a + x));
}

/// 32-bit addition with wrap-around.
pub fn wrap_add(a: u32, b: u32) -> (r: u32)
    ensures
        r == wadd(a, b),
{
    a.wrapping_add(b)
}

/// 32-bit subtraction with wrap-around.
pub fn wrap_sub(a: u32, b: u32) -> (r: u32)
    ensures
        r == wsub(a, b),
{
    a.wrapping_sub(b)
}

/// 32-bit multiplication with wrap-around.
pub fn wrap_mul(a: u32, b: u32) -> (r: u32)
    ensures
        r == wmul(a, b),
{
    proof {
        vstd::arithmetic::div_mod::lemma_mod_bound(a * b, 0x1_0000_0000int);
        assert(a as nat * b as nat == (a * b) as nat);
    }
    a.wrapping_mul(b)
}

/// Add a signed displacement to a 32-bit word, with wrap-around.
pub fn add_signed(a: u32, d: i32) -> (r: u32)
    ensures
        r == to_u32(a + d),
{
    if d >= 0 {
        a.wrapping_add(d as u32)
    } else {
        let neg: u32 = (-(d as i64)) as u32;
        assert(neg == -(d as int));
        a.wrapping_sub(neg)
    }
}

/// Rotate a 32-bit word right by an immediate shift count below 32.
pub fn rotate_right_imm(x: u32, s: u32) -> (r: u32)
    requires
        s < 32,
    ensures
        r == ror(x, s),
{
    if s == 0 {
        x
    } else {
        (x >> s) | (x << (32 - s))
    }
}

} // verus!
