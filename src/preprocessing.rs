use vstd::prelude::*;

use crate::schedule::{block_words, lane_word};

verus! {

/// Number of zero bytes between the `0x80` marker and the length field, for a message of
/// `n` bytes: the least count that brings the padded length to a multiple of 64.
pub open spec fn zero_pad_len(n: nat) -> nat {
    ((55 - n as int) % 64) as nat
}

/// Byte `k` (0 to 7, most significant first) of the 64-bit length field `bits`.
pub open spec fn length_byte(bits: u64, k: int) -> u8 {
    ((bits >> (56 - 8 * k) as u64) & 0xff) as u8
}

/// The message's bit length as eight big-endian bytes.
pub open spec fn length_field(n: nat) -> Seq<u8> {
    Seq::new(8, |k: int| length_byte((n * 8) as u64, k))
}

/// The padded message: the message, a single set bit (the byte `0x80`), zero bytes up to
/// 56 modulo 64, then the 64-bit big-endian bit length.
pub open spec fn padded(m: Seq<u8>) -> Seq<u8> {
    m.push(0x80u8) + Seq::new(zero_pad_len(m.len()), |i: int| 0u8) + length_field(m.len())
}

/// Whether the message's length in bits fits in the 64-bit length field.
pub open spec fn fits_length_field(m: Seq<u8>) -> bool {
    m.len() * 8 < 0x1_0000_0000_0000_0000
}

/// Sixteen bytes read as one big-endian 128-bit number.
pub open spec fn pack_bytes(
    x0: u8, x1: u8, x2: u8, x3: u8, x4: u8, x5: u8, x6: u8, x7: u8,
    x8: u8, x9: u8, x10: u8, x11: u8, x12: u8, x13: u8, x14: u8, x15: u8,
) -> u128 {
    (x0 as u128) << 120u128 | (x1 as u128) << 112u128 | (x2 as u128) << 104u128
        | (x3 as u128) << 96u128 | (x4 as u128) << 88u128 | (x5 as u128) << 80u128
        | (x6 as u128) << 72u128 | (x7 as u128) << 64u128 | (x8 as u128) << 56u128
        | (x9 as u128) << 48u128 | (x10 as u128) << 40u128 | (x11 as u128) << 32u128
        | (x12 as u128) << 24u128 | (x13 as u128) << 16u128 | (x14 as u128) << 8u128
        | (x15 as u128)
}

/// Four bytes read as one big-endian 32-bit word.
pub open spec fn be_word(x0: u8, x1: u8, x2: u8, x3: u8) -> u32 {
    (x0 as u32) << 24u32 | (x1 as u32) << 16u32 | (x2 as u32) << 8u32 | (x3 as u32)
}

/// Sixteen bytes of `p` from `off` on, read as one big-endian 128-bit lane.
pub open spec fn pack128(p: Seq<u8>, off: int) -> u128 {
    pack_bytes(
        p[off], p[off + 1], p[off + 2], p[off + 3], p[off + 4], p[off + 5], p[off + 6], p[off + 7],
        p[off + 8], p[off + 9], p[off + 10], p[off + 11], p[off + 12], p[off + 13], p[off + 14],
        p[off + 15],
    )
}

/// Four bytes of `p` from `off` on, read as one big-endian 32-bit word.
pub open spec fn be32(p: Seq<u8>, off: int) -> u32 {
    be_word(p[off], p[off + 1], p[off + 2], p[off + 3])
}

/// Block `b` of the padded message `p` as sixteen big-endian 32-bit words.
pub open spec fn message_block(p: Seq<u8>, b: int) -> Seq<u32> {
    Seq::new(16, |j: int| be32(p, 64 * b + 4 * j))
}

/// Block `b` of the padded message `p` as four 128-bit lanes.
pub open spec fn block_lanes(p: Seq<u8>, b: int) -> Seq<u128> {
    Seq::new(4, |q: int| pack128(p, 64 * b + 16 * q))
}

/// The four 32-bit words of a lane packed from sixteen bytes are the big-endian words of
/// those bytes, four at a time.
pub proof fn lemma_lane_words(
    x0: u8, x1: u8, x2: u8, x3: u8, x4: u8, x5: u8, x6: u8, x7: u8,
    x8: u8, x9: u8, x10: u8, x11: u8, x12: u8, x13: u8, x14: u8, x15: u8,
)
    by (bit_vector)
    ensures
        lane_word(pack_bytes(x0, x1, x2, x3, x4, x5, x6, x7, x8, x9, x10, x11, x12, x13, x14, x15), 0)
            == be_word(x0, x1, x2, x3),
        lane_word(pack_bytes(x0, x1, x2, x3, x4, x5, x6, x7, x8, x9, x10, x11, x12, x13, x14, x15), 1)
            == be_word(x4, x5, x6, x7),
        lane_word(pack_bytes(x0, x1, x2, x3, x4, x5, x6, x7, x8, x9, x10, x11, x12, x13, x14, x15), 2)
            == be_word(x8, x9, x10, x11),
        lane_word(pack_bytes(x0, x1, x2, x3, x4, x5, x6, x7, x8, x9, x10, x11, x12, x13, x14, x15), 3)
            == be_word(x12, x13, x14, x15),
{
}

/// Splitting the four lanes of a block gives the block's sixteen big-endian words.
pub proof fn lemma_block_words(p: Seq<u8>, b: int)
    requires
        0 <= b,
        64 * b + 64 <= p.len(),
    ensures
        block_words(block_lanes(p, b)) == message_block(p, b),
{
    assert forall|j: int| 0 <= j < 16 implies #[trigger] block_words(block_lanes(p, b))[j]
        == message_block(p, b)[j] by {
        let q = j / 4;
        let k = j % 4;
        let off = 64 * b + 16 * q;
        lemma_lane_words(
            p[off], p[off + 1], p[off + 2], p[off + 3], p[off + 4], p[off + 5], p[off + 6],
            p[off + 7], p[off + 8], p[off + 9], p[off + 10], p[off + 11], p[off + 12],
            p[off + 13], p[off + 14], p[off + 15],
        );
        assert(off + 4 * k == 64 * b + 4 * j);
    }
    assert(block_words(block_lanes(p, b)) =~= message_block(p, b));
}

/// The padded length of an `n`-byte message, in closed form.
pub proof fn lemma_padded_len(m: Seq<u8>)
    ensures
        padded(m).len() == 64 * ((m.len() + 8) / 64 + 1),
        padded(m).len() % 64 == 0,
        padded(m).len() >= m.len() + 9,
{
    let n = m.len() as int;
    assert(padded(m).len() == n + 1 + zero_pad_len(m.len()) + 8);
    assert((55 - n) % 64 == 63 - (n + 8) % 64 && (n + 8) == 64 * ((n + 8) / 64) + (n + 8) % 64)
        by (nonlinear_arith)
        requires
            n >= 0,
    ;
}

/// Byte `i` of the padded message, whose length is `total`.
fn padded_byte(message: &[u8], total: u64, i: u64) -> (r: u8)
    requires
        fits_length_field(message@),
        total == padded(message@).len(),
        i < total,
    ensures
        r == padded(message@)[i as int],
{
    let ghost m = message@;
    let ghost p = padded(m);
    proof {
        lemma_padded_len(m);
        assert(p == m.push(0x80u8) + Seq::new(zero_pad_len(m.len()), |j: int| 0u8) + length_field(
            m.len(),
        ));
    }
    let len = message.len() as u64;
    if i < len {
        message[i as usize]
    } else if i == len {
        0x80
    } else if i < total - 8 {
        0
    } else {
        let k = i - (total - 8);
        let bits = len * 8;
        ((bits >> (56 - 8 * k)) & 0xff) as u8
    }
}

/// Sixteen bytes of the padded message from `off` on, as one big-endian 128-bit lane.
fn padded_lane(message: &[u8], total: u64, off: u64) -> (r: u128)
    requires
        fits_length_field(message@),
        total == padded(message@).len(),
        off + 16 <= total,
    ensures
        r == pack128(padded(message@), off as int),
{
    let mut b: [u8; 16] = [0; 16];
    for t in 0..16
        invariant
            fits_length_field(message@),
            total == padded(message@).len(),
            off + 16 <= total,
            forall|j: int| 0 <= j < t ==> b[j] == padded(message@)[off + j],
    {
        b[t] = padded_byte(message, total, off + t as u64);
    }
    (b[0] as u128) << 120 | (b[1] as u128) << 112 | (b[2] as u128) << 104 | (b[3] as u128) << 96
        | (b[4] as u128) << 88 | (b[5] as u128) << 80 | (b[6] as u128) << 72 | (b[7] as u128)
        << 64 | (b[8] as u128) << 56 | (b[9] as u128) << 48 | (b[10] as u128) << 40 | (b[11]
        as u128) << 32 | (b[12] as u128) << 24 | (b[13] as u128) << 16 | (b[14] as u128) << 8
        | (b[15] as u128)
}

/// Pads the message and cuts it into 512-bit blocks, each as four 128-bit lanes.
pub fn blockify_msg(message: &[u8]) -> (blocks: Vec<[u128; 4]>)
    requires
        fits_length_field(message@),
    ensures
        blocks@.len() == (message@.len() + 8) / 64 + 1,
        blocks@.len() * 64 == padded(message@).len(),
        forall|b: int| 0 <= b < blocks@.len() ==> #[trigger] blocks@[b]@ == block_lanes(padded(message@), b),
{
    let len = message.len() as u64;
    let n_blocks = (len + 8) / 64 + 1;
    let total = n_blocks * 64;
    proof {
        lemma_padded_len(message@);
    }
    let mut blocks: Vec<[u128; 4]> = Vec::new();
    let mut b: u64 = 0;
    while b < n_blocks
        invariant
            fits_length_field(message@),
            len == message@.len(),
            n_blocks == (len + 8) / 64 + 1,
            total == n_blocks * 64,
            total == padded(message@).len(),
            b <= n_blocks,
            blocks@.len() == b,
            forall|c: int| 0 <= c < b ==> #[trigger] blocks@[c]@ == block_lanes(padded(message@), c),
        decreases n_blocks - b,
    {
        proof {
            assert(b * 64 + 64 <= n_blocks * 64) by (nonlinear_arith)
                requires
                    b < n_blocks,
            ;
        }
        let off = b * 64;
        let lanes: [u128; 4] = [
            padded_lane(message, total, off),
            padded_lane(message, total, off + 16),
            padded_lane(message, total, off + 32),
            padded_lane(message, total, off + 48),
        ];
        assert(lanes@ =~= block_lanes(padded(message@), b as int));
        blocks.push(lanes);
        b = b + 1;
    }
    blocks
}

} // verus!
