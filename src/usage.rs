use vstd::arithmetic::div_mod::lemma_fundamental_div_mod;
use vstd::prelude::*;

verus! {

/// Sum of a sequence of per-core readings, in hundredths of a percent.
pub open spec fn total(s: Seq<u32>) -> int
    decreases s.len(),
{
    if s.len() == 0 {
        0
    } else {
        total(s.drop_last()) + s.last() as int
    }
}

/// The arithmetic mean of a sample, rounded to the nearest hundredth of a
/// percent (halves round up); an empty sample has mean zero.
pub open spec fn mean_rounded(s: Seq<u32>) -> int {
    if s.len() == 0 {
        0
    } else {
        (2 * total(s) + s.len()) / (2 * s.len() as int)
    }
}

proof fn lemma_total_push(s: Seq<u32>, x: u32)
    ensures
        total(s.push(x)) == total(s) + x,
{
    assert(s.push(x).drop_last() =~= s);
}

/// The rounded mean of a non-empty sample lies within half a hundredth of a
/// percent of its exact arithmetic mean `total(s) / s.len()`.
pub proof fn lemma_aggregate_is_mean(s: Seq<u32>)
    requires
        s.len() > 0,
    ensures
        2 * total(s) - s.len() < 2 * mean_rounded(s) * s.len(),
        2 * mean_rounded(s) * s.len() <= 2 * total(s) + s.len(),
{
    let n = s.len() as int;
    let a = 2 * total(s) + n;
    lemma_fundamental_div_mod(a, 2 * n);
    let q = a / (2 * n);
    assert(a == (2 * n) * q + a % (2 * n));
    assert(0 <= a % (2 * n) < 2 * n);
    assert(2 * q * n == (2 * n) * q) by (nonlinear_arith);
}

/// The mean of a sample in hundredths of a percent, rounded to the nearest
/// hundredth; zero for an empty sample.
pub fn aggregate(sample: &Vec<u32>) -> (r: u32)
    ensures
        r == mean_rounded(sample@),
{
    let n: usize = sample.len();
    if n == 0 {
        return 0;
    }
    let mut sum: u128 = 0;
    let mut i: usize = 0;
    while i < n
        invariant
            n == sample@.len(),
            i <= n,
            sum == total(sample@.take(i as int)),
            sum <= i * (u32::MAX as int),
        decreases n - i,
    {
        proof {
            lemma_total_push(sample@.take(i as int), sample@[i as int]);
            assert(sample@.take(i as int).push(sample@[i as int]) =~= sample@.take(i + 1));
        }
        assert((i + 1) * (u32::MAX as int) == i * (u32::MAX as int) + u32::MAX) by (nonlinear_arith);
        sum = sum + sample[i] as u128;
        i = i + 1;
    }
    assert(sample@.take(n as int) =~= sample@);
    let nn: u128 = n as u128;
    proof {
        let m: int = u32::MAX as int;
        assert(sum <= nn * m);
        assert(nn * m <= 0x1_0000_0000_0000_0000 * m) by (nonlinear_arith)
            requires nn <= 0x1_0000_0000_0000_0000int, m >= 0;
        assert((2 * sum + nn) / (2 * nn as int) <= m) by (nonlinear_arith)
            requires sum <= nn * m, nn >= 1, m >= 0;
    }
    ((2 * sum + nn) / (2 * nn)) as u32
}

} // verus!
