use vstd::prelude::*;

use crate::constants::ROUND_CONSTANTS;
use crate::words::{
    add32, big_sigma0, big_sigma1, ch, maj, big_sigma0_of, big_sigma1_of, ch_of, maj_of,
    wrapping_sum,
};

verus! {

/// One round on the registers `s` (a to h), with round constant `k` and schedule word `w`.
pub open spec fn round(s: Seq<u32>, k: u32, w: u32) -> Seq<u32> {
    let t1 = add32(add32(add32(add32(s[7], big_sigma1(s[4])), ch(s[4], s[5], s[6])), k), w);
    let t2 = add32(big_sigma0(s[0]), maj(s[0], s[1], s[2]));
    seq![add32(t1, t2), s[0], s[1], s[2], add32(s[3], t1), s[4], s[5], s[6]]
}

/// The registers after the first `n` rounds over the schedule `w`, starting from `s`.
pub open spec fn rounds(s: Seq<u32>, w: Seq<u32>, n: nat) -> Seq<u32>
    decreases n,
{
    if n == 0 {
        s
    } else {
        round(rounds(s, w, (n - 1) as nat), ROUND_CONSTANTS@[n - 1], w[n - 1])
    }
}

/// The registers after all 64 rounds over the schedule `w`, starting from `s`.
pub open spec fn compress(s: Seq<u32>, w: Seq<u32>) -> Seq<u32> {
    rounds(s, w, 64)
}

/// Runs the 64 rounds over one block's schedule, starting from the accumulator `h`.
pub fn compress_block(h: [u32; 8], w: &[u32; 64]) -> (r: [u32; 8])
    ensures
        r@ == compress(h@, w@),
{
    let mut s = h;

    for i in 0..64
        invariant
            s@ == rounds(h@, w@, i as nat),
    {
        let s_1 = big_sigma1_of(s[4]);
        let ch = ch_of(s[4], s[5], s[6]);
        let tmp_1 = wrapping_sum(
            wrapping_sum(wrapping_sum(wrapping_sum(s[7], s_1), ch), ROUND_CONSTANTS[i]),
            w[i],
        );
        let s_0 = big_sigma0_of(s[0]);
        let maj = maj_of(s[0], s[1], s[2]);
        let tmp_2 = wrapping_sum(s_0, maj);
        let ghost before = s@;

        s[7] = s[6];
        s[6] = s[5];
        s[5] = s[4];
        s[4] = wrapping_sum(s[3], tmp_1);
        s[3] = s[2];
        s[2] = s[1];
        s[1] = s[0];
        s[0] = wrapping_sum(tmp_1, tmp_2);
        assert(s@ =~= round(before, ROUND_CONSTANTS@[i as int], w@[i as int]));
    }

    s
}

} // verus!
