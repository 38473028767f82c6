use crate::error::SolclawError;
use crate::state::{SplitRecipient, FULL_SHARE_BPS};
use vstd::prelude::*;

verus! {

/// The share `share_bps` of `total`, rounded down.
pub open spec fn share_of(total: u64, share_bps: u16) -> int {
    (total as int * share_bps as int) / 10000
}

/// The shares of a list of recipients, in order.
pub open spec fn shares_of(recipients: Seq<SplitRecipient>) -> Seq<u16> {
    Seq::new(recipients.len(), |i: int| recipients[i].share_bps)
}

/// The sum of the first `upto` shares.
pub open spec fn bps_before(shares: Seq<u16>, upto: int) -> int
    decreases upto,
{
    if upto <= 0 {
        0
    } else {
        bps_before(shares, upto - 1) + shares[upto - 1]
    }
}

/// The sum of all shares.
pub open spec fn total_bps(shares: Seq<u16>) -> int {
    bps_before(shares, shares.len() as int)
}

/// The sum of the rounded-down shares of the first `upto` recipients.
pub open spec fn floor_before(total: u64, shares: Seq<u16>, upto: int) -> int
    decreases upto,
{
    if upto <= 0 {
        0
    } else {
        floor_before(total, shares, upto - 1) + share_of(total, shares[upto - 1])
    }
}

/// What recipient `i` of a split of `total` gets: its share rounded down,
/// but for the last recipient, who gets what the others leave.
pub open spec fn split_leg(total: u64, shares: Seq<u16>, i: int) -> int {
    if i == shares.len() - 1 {
        total - floor_before(total, shares, i)
    } else {
        share_of(total, shares[i])
    }
}

/// What the first `upto` recipients of a split get together.
pub open spec fn paid_before(total: u64, shares: Seq<u16>, upto: int) -> int
    decreases upto,
{
    if upto <= 0 {
        0
    } else {
        paid_before(total, shares, upto - 1) + split_leg(total, shares, upto - 1)
    }
}

/// The sum of a list of amounts.
pub open spec fn amounts_total(amounts: Seq<u64>) -> int
    decreases amounts.len(),
{
    if amounts.len() == 0 {
        0
    } else {
        amounts_total(amounts.drop_last()) + amounts.last()
    }
}

/// One more amount adds itself to the sum.
pub proof fn lemma_amounts_total_push(amounts: Seq<u64>, amount: u64)
    ensures
        amounts_total(amounts.push(amount)) == amounts_total(amounts) + amount,
{
    assert(amounts.push(amount).drop_last() =~= amounts);
}

/// The sum of the first `upto` shares grows with `upto`, and no share is
/// larger than the sum of all.
proof fn lemma_bps_before_grows(shares: Seq<u16>, i: int, j: int)
    requires
        0 <= i <= j <= shares.len(),
    ensures
        0 <= bps_before(shares, i) <= bps_before(shares, j),
        i < j ==> shares[i] <= bps_before(shares, j),
    decreases j,
{
    if i < j {
        lemma_bps_before_grows(shares, i, j - 1);
    } else if i > 0 {
        lemma_bps_before_grows(shares, i - 1, j - 1);
    }
}

/// A rounded-down share is at most the exact share, and the share of a
/// part is at most the total.
proof fn lemma_share_bounds(total: u64, share_bps: u16)
    ensures
        0 <= share_of(total, share_bps),
        share_of(total, share_bps) * 10000 <= total * share_bps,
        share_bps <= 10000 ==> share_of(total, share_bps) <= total,
{
    let product = total as int * share_bps as int;
    assert(0 <= product) by (nonlinear_arith)
        requires
            product == total as int * share_bps as int,
    ;
    assert(0 <= product / 10000 && (product / 10000) * 10000 <= product) by (nonlinear_arith)
        requires
            0 <= product,
    ;
    if share_bps <= 10000 {
        assert(product <= total * 10000) by (nonlinear_arith)
            requires
                product == total as int * share_bps as int,
                share_bps <= 10000,
        ;
    }
}

/// The rounded-down shares of the first `upto` recipients are together at
/// most the exact share of the sum of their basis points.
proof fn lemma_floor_before_bound(total: u64, shares: Seq<u16>, upto: int)
    requires
        0 <= upto <= shares.len(),
    ensures
        0 <= floor_before(total, shares, upto),
        floor_before(total, shares, upto) * 10000 <= total * bps_before(shares, upto),
    decreases upto,
{
    if upto > 0 {
        lemma_floor_before_bound(total, shares, upto - 1);
        lemma_share_bounds(total, shares[upto - 1]);
        assert(total * bps_before(shares, upto) == total * bps_before(shares, upto - 1) + total
            * shares[upto - 1]) by (nonlinear_arith)
            requires
                bps_before(shares, upto) == bps_before(shares, upto - 1) + shares[upto - 1],
        ;
    }
}

/// Where the shares add up to the whole, any number of rounded-down shares
/// stays within the total.
pub proof fn lemma_floor_before_within_total(total: u64, shares: Seq<u16>, upto: int)
    requires
        total_bps(shares) == 10000,
        0 <= upto <= shares.len(),
    ensures
        0 <= floor_before(total, shares, upto) <= total,
{
    lemma_floor_before_bound(total, shares, upto);
    lemma_bps_before_grows(shares, upto, shares.len() as int);
    let floor = floor_before(total, shares, upto);
    let bps = bps_before(shares, upto);
    assert(floor <= total) by (nonlinear_arith)
        requires
            floor * 10000 <= total * bps,
            0 <= bps <= 10000,
            0 <= total,
    ;
}

/// Before the last recipient, what was paid is the sum of the rounded-down
/// shares.
proof fn lemma_paid_before_is_floor(total: u64, shares: Seq<u16>, upto: int)
    requires
        0 <= upto < shares.len(),
    ensures
        paid_before(total, shares, upto) == floor_before(total, shares, upto),
    decreases upto,
{
    if upto > 0 {
        lemma_paid_before_is_floor(total, shares, upto - 1);
    }
}

/// A split hands out the total exactly: for shares that add up to 10000
/// basis points, every recipient gets between nothing and the total, and
/// all of them together get the total, no unit more or less, also where
/// shares round down to nothing.
pub proof fn lemma_split_is_exact(total: u64, shares: Seq<u16>)
    requires
        shares.len() >= 1,
        total_bps(shares) == 10000,
    ensures
        paid_before(total, shares, shares.len() as int) == total,
        forall|i: int| 0 <= i < shares.len() ==> 0 <= #[trigger] split_leg(total, shares, i) <= total,
        forall|upto: int|
            0 <= upto <= shares.len() ==> 0 <= #[trigger] paid_before(total, shares, upto) <= total,
{
    let n = shares.len() as int;
    lemma_paid_before_is_floor(total, shares, n - 1);
    assert forall|i: int| 0 <= i < n implies 0 <= #[trigger] split_leg(total, shares, i)
        <= total by {
        if i == n - 1 {
            lemma_floor_before_within_total(total, shares, i);
        } else {
            lemma_bps_before_grows(shares, i, n);
            lemma_share_bounds(total, shares[i]);
        }
    }
    assert forall|upto: int| 0 <= upto <= n implies 0 <= #[trigger] paid_before(
        total,
        shares,
        upto,
    ) <= total by {
        if upto < n {
            lemma_paid_before_is_floor(total, shares, upto);
            lemma_floor_before_within_total(total, shares, upto);
        }
    }
}

/// Computes the share `share_bps` of `total`, rounded down, through a
/// 128-bit product.
pub fn split_amount(total: u64, share_bps: u16) -> (amount: u64)
    requires
        share_bps <= 10000,
    ensures
        amount == share_of(total, share_bps),
{
    proof {
        lemma_share_bounds(total, share_bps);
        assert(total as int * share_bps as int <= 0xffff_ffff_ffff_ffff * 0xffff)
            by (nonlinear_arith)
            requires
                total <= 0xffff_ffff_ffff_ffff,
                share_bps <= 0xffff,
        ;
    }
    let product: u128 = (total as u128) * (share_bps as u128);
    (product / (FULL_SHARE_BPS as u128)) as u64
}

/// Adds up the shares of `recipients`.
pub fn sum_shares(recipients: &Vec<SplitRecipient>) -> (sum: u128)
    ensures
        sum == total_bps(shares_of(recipients@)),
{
    let mut sum: u128 = 0;
    let mut i: usize = 0;
    while i < recipients.len()
        invariant
            i <= recipients.len(),
            sum == bps_before(shares_of(recipients@), i as int),
            sum <= 0xffff * i,
        decreases recipients.len() - i,
    {
        sum = sum + recipients[i].share_bps as u128;
        i += 1;
    }
    sum
}

/// Computes what each recipient of a split of `total` gets: each but the
/// last its share rounded down, the last the rest. The shares must add up
/// to exactly 10000 basis points. What the recipients get adds up to the
/// total.
pub fn split_amounts(total: u64, recipients: &Vec<SplitRecipient>) -> (r: Result<
    Vec<u64>,
    SolclawError,
>)
    ensures
        match r {
            Ok(legs) => {
                &&& total_bps(shares_of(recipients@)) == 10000
                &&& legs@.len() == recipients@.len()
                &&& forall|i: int|
                    0 <= i < legs@.len() ==> legs@[i] == split_leg(
                        total,
                        shares_of(recipients@),
                        i,
                    )
                &&& amounts_total(legs@) == total
            },
            Err(e) => {
                &&& e == SolclawError::InvalidSplitShares
                &&& total_bps(shares_of(recipients@)) != 10000
            },
        },
{
    if sum_shares(recipients) != FULL_SHARE_BPS as u128 {
        return Err(SolclawError::InvalidSplitShares);
    }
    let ghost shares = shares_of(recipients@);
    let n = recipients.len();
    let mut legs: Vec<u64> = Vec::new();
    let mut distributed: u64 = 0;
    let mut i: usize = 0;
    while i < n
        invariant
            n == recipients.len(),
            n >= 1,
            i <= n,
            shares == shares_of(recipients@),
            total_bps(shares) == 10000,
            legs@.len() == i,
            i < n ==> distributed == floor_before(total, shares, i as int),
            forall|j: int| 0 <= j < i ==> legs@[j] == split_leg(total, shares, j),
            amounts_total(legs@) == paid_before(total, shares, i as int),
        decreases n - i,
    {
        proof {
            lemma_floor_before_within_total(total, shares, i as int);
            lemma_floor_before_within_total(total, shares, i as int + 1);
            lemma_bps_before_grows(shares, i as int, n as int);
        }
        let ghost legs_before = legs@;
        let amount = if i == n - 1 {
            total - distributed
        } else {
            split_amount(total, recipients[i].share_bps)
        };
        if i < n - 1 {
            distributed = distributed + amount;
        }
        legs.push(amount);
        proof {
            lemma_amounts_total_push(legs_before, amount);
        }
        i += 1;
    }
    proof {
        lemma_split_is_exact(total, shares);
    }
    Ok(legs)
}

} // verus!
