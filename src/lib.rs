//! SHA-256 digest of a byte sequence, with the whole pipeline (padding, message schedule,
//! compression, accumulation) proved against a mathematical model of the algorithm.
use vstd::prelude::*;

pub mod constants;
pub mod preprocessing;
pub mod words;
pub mod schedule;
pub mod compress;

use constants::{SQRT_2, SQRT_3, SQRT_5, SQRT_7, SQRT_11, SQRT_13, SQRT_17, SQRT_19};
use compress::{compress, compress_block};
use preprocessing::{
    blockify_msg, block_lanes, fits_length_field, lemma_block_words, lemma_padded_len, message_block,
    padded,
};
use schedule::{create_message_schedule, message_schedule};
use words::{add32, wrapping_sum};

verus! {

/// Why a message has no digest.
#[derive(Debug, Clone, Copy, PartialEq, Eq, Structural)]
pub enum HashError {
    /// The message's length in bits does not fit in the 64-bit length field.
    InputTooLarge,
}

/// The initial accumulator: the first 32 bits of the fractional parts of the square roots of
/// the first eight primes.
pub open spec fn initial_state() -> Seq<u32> {
    seq![SQRT_2, SQRT_3, SQRT_5, SQRT_7, SQRT_11, SQRT_13, SQRT_17, SQRT_19]
}

/// Register-wise sum modulo 2^32 of two eight-word states.
pub open spec fn add_states(h: Seq<u32>, c: Seq<u32>) -> Seq<u32> {
    Seq::new(8, |i: int| add32(h[i], c[i]))
}

/// The accumulator after folding in the first `n` blocks of the padded message `p`.
pub open spec fn hash_state(p: Seq<u8>, n: nat) -> Seq<u32>
    decreases n,
{
    if n == 0 {
        initial_state()
    } else {
        let h = hash_state(p, (n - 1) as nat);
        add_states(h, compress(h, message_schedule(message_block(p, n - 1))))
    }
}

/// The eight registers as 32 bytes, each register big-endian, in register order.
pub open spec fn digest_bytes(h: Seq<u32>) -> Seq<u8> {
    Seq::new(32, |i: int| ((h[i / 4] >> (24 - 8 * (i % 4)) as u32) & 0xff) as u8)
}

/// The SHA-256 digest of the message `m`.
pub open spec fn sha256(m: Seq<u8>) -> Seq<u8> {
    let p = padded(m);
    digest_bytes(hash_state(p, p.len() / 64))
}

/// Every digest is 32 bytes long, whatever the message.
pub proof fn lemma_digest_len(m: Seq<u8>)
    ensures
        sha256(m).len() == 32,
{
}

/// The digest depends on the message bytes alone: two digests that `hash` returned for
/// byte-identical messages are identical.
pub proof fn lemma_hash_deterministic(m1: Seq<u8>, m2: Seq<u8>, d1: [u8; 32], d2: [u8; 32])
    requires
        m1 == m2,
        d1@ == sha256(m1),
        d2@ == sha256(m2),
    ensures
        d1 == d2,
{
    assert(d1@ =~= d2@);
}

/// A message of up to 55 bytes pads to a single block, while one of 56 to 119 bytes pads to
/// two: past 55 bytes the marker and the 8-byte length field no longer fit in the first block.
pub proof fn lemma_padding_boundary(m: Seq<u8>)
    ensures
        m.len() <= 55 ==> padded(m).len() / 64 == 1,
        56 <= m.len() <= 119 ==> padded(m).len() / 64 == 2,
{
    lemma_padded_len(m);
}

/// The digest of `message`, or `InputTooLarge` when its length in bits does not fit in 64 bits.
pub fn hash(message: &[u8]) -> (r: Result<[u8; 32], HashError>)
    ensures
        r is Ok <==> fits_length_field(message@),
        r is Ok ==> r->Ok_0@ == sha256(message@),
        r is Err ==> r->Err_0 == HashError::InputTooLarge,
{
    if message.len() as u64 > 0x1fff_ffff_ffff_ffff {
        return Err(HashError::InputTooLarge);
    }
    let ghost p = padded(message@);
    let mut h: [u32; 8] = [SQRT_2, SQRT_3, SQRT_5, SQRT_7, SQRT_11, SQRT_13, SQRT_17, SQRT_19];
    assert(h@ =~= initial_state());

    let blocks = blockify_msg(message);
    proof {
        lemma_padded_len(message@);
    }

    for b in 0..blocks.len()
        invariant
            blocks@.len() * 64 == p.len(),
            forall|c: int| 0 <= c < blocks@.len() ==> #[trigger] blocks@[c]@ == block_lanes(p, c),
            h@ == hash_state(p, b as nat),
    {
        proof {
            lemma_block_words(p, b as int);
        }
        let w = create_message_schedule(blocks[b]);
        let h_comp = compress_block(h, &w);
        let ghost before = h@;

        // Add the compressed block to the current hash
        h[0] = wrapping_sum(h[0], h_comp[0]);
        h[1] = wrapping_sum(h[1], h_comp[1]);
        h[2] = wrapping_sum(h[2], h_comp[2]);
        h[3] = wrapping_sum(h[3], h_comp[3]);
        h[4] = wrapping_sum(h[4], h_comp[4]);
        h[5] = wrapping_sum(h[5], h_comp[5]);
        h[6] = wrapping_sum(h[6], h_comp[6]);
        h[7] = wrapping_sum(h[7], h_comp[7]);
        assert(h@ =~= add_states(before, h_comp@));
    }

    // Serialise the registers, each big-endian
    let mut digest: [u8; 32] = [0; 32];
    for i in 0..8
        invariant
            forall|j: int| 0 <= j < 4 * i ==> digest[j] == digest_bytes(h@)[j],
    {
        digest[4 * i] = ((h[i] >> 24) & 0xff) as u8;
        digest[4 * i + 1] = ((h[i] >> 16) & 0xff) as u8;
        digest[4 * i + 2] = ((h[i] >> 8) & 0xff) as u8;
        digest[4 * i + 3] = (h[i] & 0xff) as u8;
        assert forall|j: int| 4 * i <= j < 4 * i + 4 implies digest[j] == digest_bytes(h@)[j] by {
            assert(j / 4 == i && j % 4 == j - 4 * i);
            let x = h[i as int];
            assert(x >> 0u32 == x) by (bit_vector);
        }
    }
    assert(digest@ =~= digest_bytes(h@));
    Ok(digest)
}

} // verus!
