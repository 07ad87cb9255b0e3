use vstd::prelude::*;

use vstd::arithmetic::div_mod::lemma_div_pos_is_pos;
use vstd::arithmetic::div_mod::lemma_fundamental_div_mod;
use vstd::arithmetic::div_mod::lemma_mod_bound;
use vstd::arithmetic::mul::lemma_mul_is_distributive_add;
use vstd::arithmetic::mul::lemma_mul_nonnegative;

use crate::state::BPS_DENOMINATOR;
use crate::state::InheritorShare;

verus! {

/// The lamports one beneficiary receives out of `available`: its share
/// in basis points, truncated by integer division. Every share is
/// computed independently from `available`, never from a running
/// remainder, so truncation losses accumulate as dust in the escrow.
pub open spec fn share_amount(available: int, bps: int) -> int {
    (available * bps) / (BPS_DENOMINATOR as int)
}

/// Total lamports the whole beneficiary table receives out of
/// `available`.
pub open spec fn sum_shares(available: int, s: Seq<InheritorShare>) -> int
    decreases s.len(),
{
    if s.len() == 0 {
        0
    } else {
        sum_shares(available, s.drop_last()) + share_amount(available, s.last().amount as int)
    }
}

/// Sum of the table's shares in basis points.
pub open spec fn sum_bps(s: Seq<InheritorShare>) -> int
    decreases s.len(),
{
    if s.len() == 0 {
        0
    } else {
        sum_bps(s.drop_last()) + s.last().amount
    }
}

/// Sum of the truncation remainders `(available * bps) % denominator`
/// over the table: exactly what the shares lose against the untruncated
/// proportional split.
spec fn sum_rems(available: int, s: Seq<InheritorShare>) -> int
    decreases s.len(),
{
    if s.len() == 0 {
        0
    } else {
        sum_rems(available, s.drop_last()) + (available * s.last().amount) % (
        BPS_DENOMINATOR as int)
    }
}

pub proof fn lemma_share_amount_nonneg(available: int, bps: int)
    requires
        available >= 0,
        bps >= 0,
    ensures
        share_amount(available, bps) >= 0,
{
    lemma_mul_nonnegative(available, bps);
    lemma_div_pos_is_pos(available * bps, BPS_DENOMINATOR as int);
}

/// A prefix of the table never receives more than the whole table.
pub proof fn lemma_sum_shares_prefix_le(available: int, s: Seq<InheritorShare>, i: int)
    requires
        available >= 0,
        0 <= i <= s.len(),
    ensures
        sum_shares(available, s.subrange(0, i)) <= sum_shares(available, s),
    decreases s.len() - i,
{
    if i == s.len() {
        assert(s.subrange(0, i) =~= s);
    } else {
        assert(s.subrange(0, i + 1).drop_last() =~= s.subrange(0, i));
        assert(s.subrange(0, i + 1).last() == s[i]);
        lemma_share_amount_nonneg(available, s[i].amount as int);
        lemma_sum_shares_prefix_le(available, s, i + 1);
    }
}

/// Exact accounting of the truncated split: scaled by the denominator,
/// the distributed total is the untruncated proportional total minus the
/// truncation remainders, and those remainders are at most
/// `denominator - 1` per beneficiary.
proof fn lemma_sum_shares_exact(available: int, s: Seq<InheritorShare>)
    requires
        available >= 0,
    ensures
        (BPS_DENOMINATOR as int) * sum_shares(available, s) == available * sum_bps(s) - sum_rems(
            available,
            s,
        ),
        0 <= sum_rems(available, s) <= (BPS_DENOMINATOR - 1) as int * s.len(),
    decreases s.len(),
{
    let d = BPS_DENOMINATOR as int;
    if s.len() > 0 {
        let t = s.drop_last();
        let b = s.last().amount as int;
        lemma_sum_shares_exact(available, t);
        lemma_mul_nonnegative(available, b);
        lemma_fundamental_div_mod(available * b, d);
        lemma_mod_bound(available * b, d);
        lemma_mul_is_distributive_add(d, sum_shares(available, t), share_amount(available, b));
        lemma_mul_is_distributive_add(available, sum_bps(t), b);
        lemma_mul_is_distributive_add((BPS_DENOMINATOR - 1) as int, t.len() as int, 1);
    }
}

/// When the table's shares sum to exactly the denominator, paying the
/// (capped) reward and then the truncated proportional shares never
/// exceeds the escrow total, and the undistributed dust is fewer base
/// units than there are beneficiaries.
pub proof fn lemma_distribution_bounds(total: u64, reward: u64, s: Seq<InheritorShare>)
    requires
        sum_bps(s) == BPS_DENOMINATOR as int,
    ensures
        ({
            let reward_paid: int = if reward <= total {
                reward as int
            } else {
                total as int
            };
            let available = total - reward_paid;
            &&& reward_paid + sum_shares(available, s) <= total
            &&& available - sum_shares(available, s) < s.len()
        }),
{
    let d = BPS_DENOMINATOR as int;
    let reward_paid: int = if reward <= total {
        reward as int
    } else {
        total as int
    };
    let available = total - reward_paid;
    assert(s.len() > 0) by {
        if s.len() == 0 {
            assert(sum_bps(s) == 0);
        }
    }
    lemma_sum_shares_exact(available, s);
    let total_shares = sum_shares(available, s);
    // d * total_shares == available * d - sum_rems, with the remainders
    // between 0 and (d - 1) * len, so scaling back down:
    assert(available * sum_bps(s) == available * d);
    assert(d * total_shares <= d * available);
    assert(total_shares <= available);
    assert(d * (available - total_shares) == sum_rems(available, s)) by {
        assert(d * (available - total_shares) == d * available - d * total_shares) by {
            vstd::arithmetic::mul::lemma_mul_is_distributive_sub(d, available, total_shares);
        }
        assert(available * d == d * available) by {
            vstd::arithmetic::mul::lemma_mul_is_commutative(available, d);
        }
    }
    assert((BPS_DENOMINATOR - 1) as int * s.len() < d * s.len());
    assert(d * (available - total_shares) < d * s.len());
    assert(available - total_shares < s.len());
}

} // verus!
