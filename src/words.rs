use vstd::prelude::*;

verus! {

/// Addition of two 32-bit words modulo 2^32.
pub open spec fn add32(a: u32, b: u32) -> u32 {
    ((a as int + b as int) % 0x1_0000_0000) as u32
}

/// Rotation of a 32-bit word to the right by `n` places.
pub open spec fn rotr(x: u32, n: u32) -> u32 {
    (x >> n) | (x << (32 - n) as u32)
}

/// Message schedule mixing of the word fifteen places back.
pub open spec fn small_sigma0(x: u32) -> u32 {
    rotr(x, 7) ^ rotr(x, 18) ^ (x >> 3)
}

/// Message schedule mixing of the word two places back.
pub open spec fn small_sigma1(x: u32) -> u32 {
    rotr(x, 17) ^ rotr(x, 19) ^ (x >> 10)
}

/// Round mixing of register `a`.
pub open spec fn big_sigma0(x: u32) -> u32 {
    rotr(x, 2) ^ rotr(x, 13) ^ rotr(x, 22)
}

/// Round mixing of register `e`.
pub open spec fn big_sigma1(x: u32) -> u32 {
    rotr(x, 6) ^ rotr(x, 11) ^ rotr(x, 25)
}

/// Bitwise choice: each bit of `e` picks the bit of `f` (when set) or of `g`.
pub open spec fn ch(e: u32, f: u32, g: u32) -> u32 {
    (e & f) ^ (!e & g)
}

/// Bitwise majority of three words.
pub open spec fn maj(a: u32, b: u32, c: u32) -> u32 {
    (a & b) ^ (a & c) ^ (b & c)
}

/// Sum of two words modulo 2^32.
pub fn wrapping_sum(a: u32, b: u32) -> (r: u32)
    ensures
        r == add32(a, b),
{
    a.wrapping_add(b)
}

/// Rotates `x` right by `n` places.
pub fn rotate_right(x: u32, n: u32) -> (r: u32)
    requires
        0 < n < 32,
    ensures
        r == rotr(x, n),
{
    (x >> n) | (x << (32 - n))
}

/// The schedule mixing function sigma0.
pub fn small_sigma0_of(x: u32) -> (r: u32)
    ensures
        r == small_sigma0(x),
{
    rotate_right(x, 7) ^ rotate_right(x, 18) ^ (x >> 3)
}

/// The schedule mixing function sigma1.
pub fn small_sigma1_of(x: u32) -> (r: u32)
    ensures
        r == small_sigma1(x),
{
    rotate_right(x, 17) ^ rotate_right(x, 19) ^ (x >> 10)
}

/// The round mixing function Sigma0.
pub fn big_sigma0_of(x: u32) -> (r: u32)
    ensures
        r == big_sigma0(x),
{
    rotate_right(x, 2) ^ rotate_right(x, 13) ^ rotate_right(x, 22)
}

/// The round mixing function Sigma1.
pub fn big_sigma1_of(x: u32) -> (r: u32)
    ensures
        r == big_sigma1(x),
{
    rotate_right(x, 6) ^ rotate_right(x, 11) ^ rotate_right(x, 25)
}

/// Bitwise choice of `f` or `g` by `e`.
pub fn ch_of(e: u32, f: u32, g: u32) -> (r: u32)
    ensures
        r == ch(e, f, g),
{
    (e & f) ^ (!e & g)
}

/// Bitwise majority of `a`, `b` and `c`.
pub fn maj_of(a: u32, b: u32, c: u32) -> (r: u32)
    ensures
        r == maj(a, b, c),
{
    (a & b) ^ (a & c) ^ (b & c)
}

} // verus!
