//! Proportional distribution of a repayment over the investors' stakes.
use vstd::prelude::*;
use crate::state::IsaError;

verus! {

/// The sum of a sequence of amounts.
pub open spec fn sum(s: Seq<u64>) -> int
    decreases s.len(),
{
    if s.len() == 0 {
        0
    } else {
        sum(s.drop_last()) + s.last()
    }
}

/// One investor's slice of `amount`: `floor(amount * stake / total)`.
pub open spec fn share_of(amount: u64, stake: u64, total: int) -> int {
    (amount * stake) / total
}

/// The shares of `amount` over `stakes`, in the order of the stakes.
pub open spec fn shares_of(amount: u64, stakes: Seq<u64>) -> Seq<u64> {
    Seq::new(stakes.len(), |i: int| share_of(amount, stakes[i], sum(stakes)) as u64)
}

proof fn lemma_sum_bound(s: Seq<u64>)
    ensures
        0 <= sum(s) <= s.len() * (u64::MAX as int),
    decreases s.len(),
{
    if s.len() > 0 {
        lemma_sum_bound(s.drop_last());
    }
}

pub proof fn lemma_sum_take_last(s: Seq<u64>, i: int)
    requires
        0 <= i < s.len(),
    ensures
        sum(s.take(i + 1)) == sum(s.take(i)) + s[i],
{
    assert(s.take(i + 1).drop_last() =~= s.take(i));
}

/// The sum of a prefix is at most the sum of the whole.
pub proof fn lemma_sum_prefix_le(s: Seq<u64>, i: int)
    requires
        0 <= i <= s.len(),
    ensures
        0 <= sum(s.take(i)) <= sum(s),
    decreases s.len() - i,
{
    if i < s.len() {
        lemma_sum_take_last(s, i);
        lemma_sum_prefix_le(s, i + 1);
    } else {
        assert(s.take(i) =~= s);
    }
    lemma_sum_bound(s.take(i));
}

/// Each floored share times the total is at most the unfloored product, so
/// over a prefix the shares times the total stay within `amount` times the
/// prefix's stake.
proof fn lemma_shares_prefix(amount: u64, stakes: Seq<u64>, i: int)
    requires
        0 <= i <= stakes.len(),
        sum(stakes) > 0,
    ensures
        sum(shares_of(amount, stakes).take(i)) * sum(stakes) <= amount * sum(stakes.take(i)),
        0 <= sum(shares_of(amount, stakes).take(i)),
    decreases i,
{
    let sh = shares_of(amount, stakes);
    let t = sum(stakes);
    if i > 0 {
        lemma_shares_prefix(amount, stakes, i - 1);
        lemma_sum_take_last(sh, i - 1);
        lemma_sum_take_last(stakes, i - 1);
        let x = amount * stakes[i - 1];
        let q = x / t;
        assert(q * t <= x) by (nonlinear_arith)
            requires
                t > 0,
                x >= 0,
                q == x / t,
        ;
        assert(0 <= q) by (nonlinear_arith)
            requires
                t > 0,
                x >= 0,
                q == x / t,
        ;
        assert(q <= amount) by {
            lemma_stake_le_sum(stakes, i - 1);
            assert(x <= amount * t) by (nonlinear_arith)
                requires
                    x == amount * stakes[i - 1],
                    stakes[i - 1] <= t,
                    amount >= 0,
            ;
            assert(q <= amount) by (nonlinear_arith)
                requires
                    t > 0,
                    x <= amount * t,
                    q == x / t,
            ;
        }
        assert(sh[i - 1] == q);
        let a = sum(sh.take(i - 1));
        let b = sum(stakes.take(i - 1));
        assert((a + q) * t <= amount * (b + stakes[i - 1])) by (nonlinear_arith)
            requires
                a * t <= amount * b,
                q * t <= x,
                x == amount * stakes[i - 1],
        ;
    } else {
        assert(sh.take(0) =~= Seq::<u64>::empty());
        assert(stakes.take(0) =~= Seq::<u64>::empty());
    }
}

/// A single stake is at most the sum of all of them.
pub proof fn lemma_stake_le_sum(stakes: Seq<u64>, i: int)
    requires
        0 <= i < stakes.len(),
    ensures
        stakes[i] <= sum(stakes),
    decreases stakes.len(),
{
    lemma_sum_bound(stakes.drop_last());
    if i < stakes.len() - 1 {
        lemma_stake_le_sum(stakes.drop_last(), i);
    }
}

/// Floor division never hands out more than the amount: whatever the stakes,
/// as long as they are not all zero, the shares sum to at most `amount`.
pub proof fn lemma_shares_within_amount(amount: u64, stakes: Seq<u64>)
    requires
        sum(stakes) > 0,
    ensures
        sum(shares_of(amount, stakes)) <= amount,
        forall|i: int| 0 <= i < stakes.len() ==> 0 <= share_of(amount, #[trigger] stakes[i], sum(stakes)) <= amount,
{
    let sh = shares_of(amount, stakes);
    let t = sum(stakes);
    lemma_shares_prefix(amount, stakes, stakes.len() as int);
    assert(sh.take(sh.len() as int) =~= sh);
    assert(stakes.take(stakes.len() as int) =~= stakes);
    let a = sum(sh);
    assert(a <= amount) by (nonlinear_arith)
        requires
            a * t <= amount * t,
            t > 0,
    ;
    assert forall|i: int| 0 <= i < stakes.len() implies 0 <= share_of(amount, #[trigger] stakes[i], t) <= amount by {
        lemma_stake_le_sum(stakes, i);
        let x = amount * stakes[i];
        assert(x <= amount * t) by (nonlinear_arith)
            requires
                x == amount * stakes[i],
                stakes[i] <= t,
                amount >= 0,
        ;
        assert(0 <= x / t <= amount) by (nonlinear_arith)
            requires
                t > 0,
                x <= amount * t,
                x >= 0,
        ;
    }
}

/// Pass one: the sum of the stakes, in a 128-bit accumulator, which no
/// number of 64-bit stakes that fits in memory can overflow.
pub fn total_stake(stakes: &Vec<u64>) -> (t: u128)
    ensures
        t == sum(stakes@),
{
    let mut t: u128 = 0;
    let mut i: usize = 0;
    while i < stakes.len()
        invariant
            0 <= i <= stakes.len(),
            t == sum(stakes@.take(i as int)),
        decreases stakes.len() - i,
    {
        proof {
            lemma_sum_take_last(stakes@, i as int);
            lemma_sum_bound(stakes@.take(i as int));
            assert(i * (u64::MAX as int) + u64::MAX <= u128::MAX) by (nonlinear_arith)
                requires
                    i <= usize::MAX,
            ;
        }
        t = t + stakes[i] as u128;
        i = i + 1;
    }
    assert(stakes@.take(stakes.len() as int) =~= stakes@);
    t
}

/// Pass two: every stake's share of `amount`, multiplied before dividing.
/// Fails with `NoInvestors` exactly when the stakes sum to zero.
pub fn compute_shares(amount: u64, stakes: &Vec<u64>) -> (r: Result<Vec<u64>, IsaError>)
    ensures
        sum(stakes@) == 0 ==> r == Err::<Vec<u64>, IsaError>(IsaError::NoInvestors),
        sum(stakes@) > 0 ==> (r matches Ok(shares) && shares@ == shares_of(amount, stakes@)),
        r matches Ok(shares) ==> sum(stakes@) > 0 && shares@ == shares_of(amount, stakes@) && sum(
            shares@,
        ) <= amount,
{
    let total = total_stake(stakes);
    if total == 0 {
        return Err(IsaError::NoInvestors);
    }
    proof {
        lemma_shares_within_amount(amount, stakes@);
    }
    let mut shares: Vec<u64> = Vec::new();
    let mut i: usize = 0;
    while i < stakes.len()
        invariant
            0 <= i <= stakes.len(),
            total == sum(stakes@),
            total > 0,
            shares@ == shares_of(amount, stakes@).take(i as int),
            forall|j: int| 0 <= j < stakes.len() ==> 0 <= share_of(amount, #[trigger] stakes@[j], sum(stakes@)) <= amount,
        decreases stakes.len() - i,
    {
        assert(amount as u128 * stakes[i as int] as u128 <= u64::MAX as u128 * u64::MAX as u128) by (nonlinear_arith);
        let x: u128 = amount as u128 * stakes[i] as u128;
        let share: u128 = x / total;
        assert(share == share_of(amount, stakes@[i as int], sum(stakes@)));
        assert(share <= amount);
        shares.push(share as u64);
        i = i + 1;
        assert(shares@ =~= shares_of(amount, stakes@).take(i as int));
    }
    assert(shares@ =~= shares_of(amount, stakes@));
    Ok(shares)
}

} // verus!
