use vstd::prelude::*;

use crate::words::{add32, small_sigma0, small_sigma1, small_sigma0_of, small_sigma1_of, wrapping_sum};

verus! {

/// Word `k` (0 to 3, most significant first) of a 128-bit lane.
pub open spec fn lane_word(x: u128, k: int) -> u32 {
    ((x >> (96 - 32 * k) as u128) & 0xffff_ffff) as u32
}

/// The sixteen 32-bit words of a block given as four 128-bit lanes, in order.
pub open spec fn block_words(block: Seq<u128>) -> Seq<u32> {
    Seq::new(16, |j: int| lane_word(block[j / 4], j % 4))
}

/// Word `i` of the message schedule of the sixteen block words `m`.
pub open spec fn schedule_word(m: Seq<u32>, i: nat) -> u32
    decreases i,
{
    if i < 16 {
        m[i as int]
    } else {
        add32(
            add32(
                add32(schedule_word(m, (i - 16) as nat), small_sigma0(schedule_word(m, (i - 15) as nat))),
                schedule_word(m, (i - 7) as nat),
            ),
            small_sigma1(schedule_word(m, (i - 2) as nat)),
        )
    }
}

/// The 64-word message schedule of the sixteen block words `m`.
pub open spec fn message_schedule(m: Seq<u32>) -> Seq<u32> {
    Seq::new(64, |i: int| schedule_word(m, i as nat))
}

/// Splits a 128-bit lane into its four 32-bit words, most significant first.
pub fn transfer_to_msg_schedule(block_data: u128, message_schedule: &mut [u32; 4])
    ensures
        forall|k: int| 0 <= k < 4 ==> final(message_schedule)[k] == lane_word(block_data, k),
{
    message_schedule[0] = ((block_data >> 96) & 0xffff_ffff) as u32;
    message_schedule[1] = ((block_data >> 64) & 0xffff_ffff) as u32;
    message_schedule[2] = ((block_data >> 32) & 0xffff_ffff) as u32;
    message_schedule[3] = (block_data & 0xffff_ffff) as u32;
    proof {
        assert(block_data >> 0u128 == block_data) by (bit_vector);
    }
}

/// Expands one block into its 64-word message schedule.
pub fn create_message_schedule(block: [u128; 4]) -> (w: [u32; 64])
    ensures
        w@ == message_schedule(block_words(block@)),
{
    let ghost m = block_words(block@);
    let mut w: [u32; 64] = [0; 64];

    // The first sixteen words are the block's own
    for i in 0..4
        invariant
            m == block_words(block@),
            forall|j: int| 0 <= j < 4 * i ==> w[j] == m[j],
    {
        let mut part: [u32; 4] = [0; 4];
        transfer_to_msg_schedule(block[i], &mut part);
        w[4 * i] = part[0];
        w[4 * i + 1] = part[1];
        w[4 * i + 2] = part[2];
        w[4 * i + 3] = part[3];
        assert forall|j: int| 4 * i <= j < 4 * i + 4 implies w[j] == m[j] by {
            assert(j / 4 == i && j % 4 == j - 4 * i);
        }
    }

    // The rest follow from earlier words
    for i in 16..64
        invariant
            m.len() == 16,
            forall|j: int| 0 <= j < 16 ==> w[j] == m[j],
            forall|j: int| 0 <= j < i ==> w[j] == schedule_word(m, j as nat),
    {
        let s_0 = small_sigma0_of(w[i - 15]);
        let s_1 = small_sigma1_of(w[i - 2]);
        w[i] = wrapping_sum(wrapping_sum(wrapping_sum(w[i - 16], s_0), w[i - 7]), s_1);
    }

    assert(w@ =~= message_schedule(m));
    w
}

} // verus!
