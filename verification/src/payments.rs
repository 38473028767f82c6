use crate::address::{check_recipient, recipient_error, Address};
use crate::cap::{cap_applied, cap_error, check_spending_cap};
use crate::conservation::{all_from, lemma_batch_conserves, lemma_split_conserves, total_moved};
use crate::context::{BatchPayment, SplitPayment};
use crate::error::SolclawError;
use crate::events::{BatchPaymentEvent, SplitPaymentEvent};
use crate::memo::{memo_fits, memo_or_empty, memo_text, memo_too_long};
use crate::split::{
    amounts_total, lemma_amounts_total_push, lemma_split_is_exact, paid_before, shares_of,
    split_amounts, split_leg, total_bps,
};
use crate::state::{add_to_total, BatchPaymentEntry, Clock, SplitRecipient, VaultTransfer};
use vstd::prelude::*;

verus! {

/// Most payments in a batch, and most recipients of a split.
pub const MAX_RECIPIENTS: usize = 10;

/// The texts of a list of strings, in order.
pub open spec fn texts_of(strings: Seq<String>) -> Seq<Seq<char>> {
    Seq::new(strings.len(), |i: int| strings[i]@)
}

/// The location that the caller supplied for the record of recipient `i`.
pub open spec fn supplied_registry(accounts: Seq<Address>, i: int) -> Address {
    accounts[2 * i]
}

/// The location that the caller supplied for the vault of recipient `i`.
pub open spec fn supplied_vault(accounts: Seq<Address>, i: int) -> Address {
    accounts[2 * i + 1]
}

// ---------------------------------------------------------------------
// Split payment
// ---------------------------------------------------------------------

/// Why the locations supplied for the first `upto` recipients of a split are
/// refused, if any is: the finding on the first recipient, among those that
/// get something, whose locations do not match its name. A recipient that
/// gets nothing is not looked at.
pub open spec fn split_recipients_error(
    ctx: SplitPayment,
    total: u64,
    recipients: Seq<SplitRecipient>,
    upto: int,
) -> Option<SolclawError>
    decreases upto,
{
    if upto <= 0 {
        None
    } else {
        let before = split_recipients_error(ctx, total, recipients, upto - 1);
        if before is Some {
            before
        } else if split_leg(total, shares_of(recipients), upto - 1) == 0 {
            None
        } else {
            recipient_error(
                ctx.program_id,
                recipients[upto - 1].name@,
                supplied_registry(ctx.remaining_accounts@, upto - 1),
                supplied_vault(ctx.remaining_accounts@, upto - 1),
            )
        }
    }
}

/// Why a split is refused, if it is. The checks, in order: 2 to 10
/// recipients; a memo of at most 128 bytes; shares that add up to 10000
/// basis points; a caller that is the sender's controller; two supplied
/// locations for each recipient; the sender's daily cap, against the total;
/// and the supplied locations of each recipient that gets something.
pub open spec fn split_error(
    ctx: SplitPayment,
    now: i64,
    total: u64,
    recipients: Seq<SplitRecipient>,
    memo: Option<String>,
) -> Option<SolclawError> {
    if recipients.len() < 2 || recipients.len() > 10 {
        Some(SolclawError::TooManySplitRecipients)
    } else if memo_too_long(memo) {
        Some(SolclawError::MemoTooLong)
    } else if total_bps(shares_of(recipients)) != 10000 {
        Some(SolclawError::InvalidSplitShares)
    } else if ctx.authority != ctx.sender_registry.authority {
        Some(SolclawError::Unauthorized)
    } else if ctx.remaining_accounts@.len() != 2 * recipients.len() {
        Some(SolclawError::InvalidRemainingAccounts)
    } else if cap_error(ctx.sender_registry, total, now) is Some {
        cap_error(ctx.sender_registry, total, now)
    } else {
        split_recipients_error(ctx, total, recipients, recipients.len() as int)
    }
}

/// The movements of a split to its first `upto` recipients: one for each
/// that gets something, in order, out of the sender's vault, signed for by
/// that vault, into the vault supplied for the recipient.
pub open spec fn split_transfers(
    ctx: SplitPayment,
    total: u64,
    recipients: Seq<SplitRecipient>,
    upto: int,
) -> Seq<VaultTransfer>
    decreases upto,
{
    if upto <= 0 {
        Seq::empty()
    } else {
        let before = split_transfers(ctx, total, recipients, upto - 1);
        let amount = split_leg(total, shares_of(recipients), upto - 1);
        if amount == 0 {
            before
        } else {
            before.push(
                VaultTransfer {
                    from: ctx.sender_vault,
                    to: supplied_vault(ctx.remaining_accounts@, upto - 1),
                    authority: ctx.sender_vault,
                    amount: amount as u64,
                },
            )
        }
    }
}

/// The names of those of the first `upto` recipients that get something.
pub open spec fn split_paid_names(total: u64, recipients: Seq<SplitRecipient>, upto: int) -> Seq<
    Seq<char>,
>
    decreases upto,
{
    if upto <= 0 {
        Seq::empty()
    } else {
        let before = split_paid_names(total, recipients, upto - 1);
        if split_leg(total, shares_of(recipients), upto - 1) == 0 {
            before
        } else {
            before.push(recipients[upto - 1].name@)
        }
    }
}

/// What those of the first `upto` recipients that get something get.
pub open spec fn split_paid_amounts(total: u64, recipients: Seq<SplitRecipient>, upto: int) -> Seq<
    u64,
>
    decreases upto,
{
    if upto <= 0 {
        Seq::empty()
    } else {
        let before = split_paid_amounts(total, recipients, upto - 1);
        let amount = split_leg(total, shares_of(recipients), upto - 1);
        if amount == 0 {
            before
        } else {
            before.push(amount as u64)
        }
    }
}

/// The records after a split of `total` at `now`: the sender is charged the
/// total against its cap and has sent the total.
pub open spec fn split_applied(ctx: SplitPayment, now: i64, total: u64) -> SplitPayment {
    SplitPayment {
        sender_registry: cap_applied(ctx.sender_registry, total, now).with_sent(total),
        ..ctx
    }
}

/// A finding on some of the recipients is the finding on all of them.
proof fn lemma_split_recipients_error_stays(
    ctx: SplitPayment,
    total: u64,
    recipients: Seq<SplitRecipient>,
    found: int,
    upto: int,
)
    requires
        0 <= found <= upto,
        split_recipients_error(ctx, total, recipients, found) is Some,
    ensures
        split_recipients_error(ctx, total, recipients, upto) == split_recipients_error(
            ctx,
            total,
            recipients,
            found,
        ),
    decreases upto,
{
    if found < upto {
        lemma_split_recipients_error_stays(ctx, total, recipients, found, upto - 1);
    }
}

/// What the first `upto` recipients are on record as getting adds up to
/// what they get: those that get nothing add nothing.
proof fn lemma_split_paid_amounts_total(total: u64, recipients: Seq<SplitRecipient>, upto: int)
    requires
        recipients.len() >= 1,
        total_bps(shares_of(recipients)) == 10000,
        0 <= upto <= recipients.len(),
    ensures
        amounts_total(split_paid_amounts(total, recipients, upto)) == paid_before(
            total,
            shares_of(recipients),
            upto,
        ),
    decreases upto,
{
    if upto > 0 {
        lemma_split_paid_amounts_total(total, recipients, upto - 1);
        lemma_split_is_exact(total, shares_of(recipients));
        let amount = split_leg(total, shares_of(recipients), upto - 1);
        assert(0 <= amount <= total);
        if amount != 0 {
            lemma_amounts_total_push(
                split_paid_amounts(total, recipients, upto - 1),
                amount as u64,
            );
        }
    }
}

/// Splits `total_amount` among 2 to 10 recipients by their shares in basis
/// points, which must add up to 10000. Each recipient but the last gets its
/// share rounded down; the last gets the rest, so that the whole total is
/// handed out. The caller must be the sender's controller, and for each
/// recipient that gets something the supplied record and vault locations
/// must be the ones derived from its name. The sender's cap is charged once,
/// with the total. Returns the movements for the host to carry out and the
/// record of the split; the host must carry out all of them or none. The
/// movements all come out of the sender's vault and move the total, no
/// unit more or less.
pub fn split_payment(
    ctx: &mut SplitPayment,
    clock: &Clock,
    total_amount: u64,
    recipients: Vec<SplitRecipient>,
    memo: Option<String>,
) -> (r: Result<(Vec<VaultTransfer>, SplitPaymentEvent), SolclawError>)
    ensures
        match r {
            Ok((transfers, event)) => {
                &&& split_error(*old(ctx), clock.unix_timestamp, total_amount, recipients@, memo)
                    is None
                &&& *final(ctx) == split_applied(*old(ctx), clock.unix_timestamp, total_amount)
                &&& transfers@ == split_transfers(
                    *old(ctx),
                    total_amount,
                    recipients@,
                    recipients@.len() as int,
                )
                &&& event.sender@ == old(ctx).sender_registry.name@
                &&& texts_of(event.recipients@) == split_paid_names(
                    total_amount,
                    recipients@,
                    recipients@.len() as int,
                )
                &&& event.amounts@ == split_paid_amounts(
                    total_amount,
                    recipients@,
                    recipients@.len() as int,
                )
                &&& event.total == total_amount
                &&& event.memo@ == memo_text(memo)
                &&& event.timestamp == clock.unix_timestamp
                &&& all_from(transfers@, old(ctx).sender_vault)
                &&& total_moved(transfers@) == total_amount
                &&& amounts_total(event.amounts@) == total_amount
            },
            Err(e) => {
                &&& split_error(*old(ctx), clock.unix_timestamp, total_amount, recipients@, memo)
                    == Some(e)
                &&& *final(ctx) == *old(ctx)
            },
        },
{
    let n = recipients.len();
    if n < 2 || n > MAX_RECIPIENTS {
        return Err(SolclawError::TooManySplitRecipients);
    }
    if !memo_fits(&memo) {
        return Err(SolclawError::MemoTooLong);
    }
    let legs = split_amounts(total_amount, &recipients)?;
    if ctx.authority != ctx.sender_registry.authority {
        return Err(SolclawError::Unauthorized);
    }
    if ctx.remaining_accounts.len() != n * 2 {
        return Err(SolclawError::InvalidRemainingAccounts);
    }
    let (spent, day) = check_spending_cap(&ctx.sender_registry, total_amount, clock)?;

    let mut transfers: Vec<VaultTransfer> = Vec::new();
    let mut names: Vec<String> = Vec::new();
    let mut amounts: Vec<u64> = Vec::new();
    let mut i: usize = 0;
    while i < n
        invariant
            n == recipients@.len(),
            2 <= n <= 10,
            i <= n,
            *ctx == *old(ctx),
            ctx.remaining_accounts@.len() == 2 * n,
            split_error(*ctx, clock.unix_timestamp, total_amount, recipients@, memo)
                == split_recipients_error(*ctx, total_amount, recipients@, n as int),
            legs@.len() == n,
            forall|j: int|
                0 <= j < n ==> legs@[j] == split_leg(total_amount, shares_of(recipients@), j),
            split_recipients_error(*ctx, total_amount, recipients@, i as int) is None,
            transfers@ == split_transfers(*ctx, total_amount, recipients@, i as int),
            texts_of(names@) == split_paid_names(total_amount, recipients@, i as int),
            amounts@ == split_paid_amounts(total_amount, recipients@, i as int),
        decreases n - i,
    {
        let amount = legs[i];
        if amount != 0 {
            let registry = ctx.remaining_accounts[2 * i];
            let vault = ctx.remaining_accounts[2 * i + 1];
            match check_recipient(&ctx.program_id, recipients[i].name.as_str(), &registry, &vault) {
                Ok(()) => {},
                Err(e) => {
                    proof {
                        lemma_split_recipients_error_stays(
                            *ctx,
                            total_amount,
                            recipients@,
                            i as int + 1,
                            n as int,
                        );
                    }
                    return Err(e);
                },
            }
            transfers.push(
                VaultTransfer {
                    from: ctx.sender_vault,
                    to: vault,
                    authority: ctx.sender_vault,
                    amount,
                },
            );
            let ghost names_before = names@;
            names.push(recipients[i].name.clone());
            amounts.push(amount);
            assert(texts_of(names@) =~= texts_of(names_before).push(recipients@[i as int].name@));
        }
        i += 1;
    }

    proof {
        lemma_split_conserves(*ctx, total_amount, recipients@);
        lemma_split_paid_amounts_total(total_amount, recipients@, n as int);
        lemma_split_is_exact(total_amount, shares_of(recipients@));
    }
    ctx.sender_registry.daily_spent = spent;
    ctx.sender_registry.last_spend_day = day;
    ctx.sender_registry.total_sent = add_to_total(ctx.sender_registry.total_sent, total_amount);

    let event = SplitPaymentEvent {
        sender: ctx.sender_registry.name.clone(),
        recipients: names,
        amounts,
        total: total_amount,
        memo: memo_or_empty(memo),
        timestamp: clock.unix_timestamp,
    };
    Ok((transfers, event))
}

// ---------------------------------------------------------------------
// Batch payment
// ---------------------------------------------------------------------

/// The sum of the amounts of the first `upto` payments.
pub open spec fn batch_total(payments: Seq<BatchPaymentEntry>, upto: int) -> int
    decreases upto,
{
    if upto <= 0 {
        0
    } else {
        batch_total(payments, upto - 1) + payments[upto - 1].amount
    }
}

/// Whether one of the payments has a memo longer than 128 bytes.
pub open spec fn batch_memo_too_long(payments: Seq<BatchPaymentEntry>) -> bool {
    exists|i: int| 0 <= i < payments.len() && memo_too_long(#[trigger] payments[i].memo)
}

/// Whether one of the payments has the amount zero.
pub open spec fn batch_has_zero_amount(payments: Seq<BatchPaymentEntry>) -> bool {
    exists|i: int| 0 <= i < payments.len() && (#[trigger] payments[i]).amount == 0
}

/// Why the locations supplied for the first `upto` recipients of a batch
/// are refused, if any is: the finding on the first recipient whose
/// locations do not match its name.
pub open spec fn batch_recipients_error(
    ctx: BatchPayment,
    payments: Seq<BatchPaymentEntry>,
    upto: int,
) -> Option<SolclawError>
    decreases upto,
{
    if upto <= 0 {
        None
    } else {
        let before = batch_recipients_error(ctx, payments, upto - 1);
        if before is Some {
            before
        } else {
            recipient_error(
                ctx.program_id,
                payments[upto - 1].recipient_name@,
                supplied_registry(ctx.remaining_accounts@, upto - 1),
                supplied_vault(ctx.remaining_accounts@, upto - 1),
            )
        }
    }
}

/// Why a batch is refused, if it is. The checks, in order: 1 to 10
/// payments; a caller that is the sender's controller; memos of at most 128
/// bytes; two supplied locations for each payment; amounts above zero; a
/// sum of the amounts that fits in 64 bits; the sender's daily cap, against
/// that sum; and the supplied locations of each recipient.
pub open spec fn batch_error(ctx: BatchPayment, now: i64, payments: Seq<BatchPaymentEntry>)
    -> Option<SolclawError> {
    let total = batch_total(payments, payments.len() as int);
    if payments.len() < 1 || payments.len() > 10 {
        Some(SolclawError::InvalidBatchSize)
    } else if ctx.authority != ctx.sender_registry.authority {
        Some(SolclawError::Unauthorized)
    } else if batch_memo_too_long(payments) {
        Some(SolclawError::MemoTooLong)
    } else if ctx.remaining_accounts@.len() != 2 * payments.len() {
        Some(SolclawError::InvalidRemainingAccounts)
    } else if batch_has_zero_amount(payments) {
        Some(SolclawError::InvalidAmount)
    } else if total > u64::MAX {
        Some(SolclawError::Overflow)
    } else if cap_error(ctx.sender_registry, total as u64, now) is Some {
        cap_error(ctx.sender_registry, total as u64, now)
    } else {
        batch_recipients_error(ctx, payments, payments.len() as int)
    }
}

/// The movements of a batch: one for each payment, in order, out of the
/// sender's vault, signed for by that vault, into the vault supplied for
/// the recipient.
pub open spec fn batch_transfers(ctx: BatchPayment, payments: Seq<BatchPaymentEntry>) -> Seq<
    VaultTransfer,
> {
    Seq::new(
        payments.len(),
        |i: int|
            VaultTransfer {
                from: ctx.sender_vault,
                to: supplied_vault(ctx.remaining_accounts@, i),
                authority: ctx.sender_vault,
                amount: payments[i].amount,
            },
    )
}

/// The records after a batch at `now`: the sender is charged the sum of the
/// amounts against its cap and has sent that sum.
pub open spec fn batch_applied(ctx: BatchPayment, now: i64, payments: Seq<BatchPaymentEntry>)
    -> BatchPayment {
    let total = batch_total(payments, payments.len() as int) as u64;
    BatchPayment {
        sender_registry: cap_applied(ctx.sender_registry, total, now).with_sent(total),
        ..ctx
    }
}

/// A finding on some of the recipients is the finding on all of them.
proof fn lemma_batch_recipients_error_stays(
    ctx: BatchPayment,
    payments: Seq<BatchPaymentEntry>,
    found: int,
    upto: int,
)
    requires
        0 <= found <= upto,
        batch_recipients_error(ctx, payments, found) is Some,
    ensures
        batch_recipients_error(ctx, payments, upto) == batch_recipients_error(
            ctx,
            payments,
            found,
        ),
    decreases upto,
{
    if found < upto {
        lemma_batch_recipients_error_stays(ctx, payments, found, upto - 1);
    }
}

/// The sum of the first amounts grows with their number.
proof fn lemma_batch_total_grows(payments: Seq<BatchPaymentEntry>, i: int, j: int)
    requires
        0 <= i <= j,
    ensures
        0 <= batch_total(payments, i) <= batch_total(payments, j),
    decreases j,
{
    if i < j {
        lemma_batch_total_grows(payments, i, j - 1);
    } else if i > 0 {
        lemma_batch_total_grows(payments, i - 1, j - 1);
    }
}

/// Tells whether every memo of the batch is absent or at most 128 bytes
/// long.
pub fn batch_memos_fit(payments: &Vec<BatchPaymentEntry>) -> (fit: bool)
    ensures
        fit == !batch_memo_too_long(payments@),
{
    let mut i: usize = 0;
    while i < payments.len()
        invariant
            i <= payments.len(),
            forall|j: int| 0 <= j < i ==> !memo_too_long(#[trigger] payments@[j].memo),
        decreases payments.len() - i,
    {
        if !memo_fits(&payments[i].memo) {
            return false;
        }
        i += 1;
    }
    true
}

/// Adds up the amounts of a batch. An amount of zero is refused, and so is
/// a sum that does not fit in 64 bits.
pub fn batch_sum(payments: &Vec<BatchPaymentEntry>) -> (r: Result<u64, SolclawError>)
    ensures
        match r {
            Ok(total) => {
                &&& !batch_has_zero_amount(payments@)
                &&& total == batch_total(payments@, payments@.len() as int)
            },
            Err(e) => e == (if batch_has_zero_amount(payments@) {
                SolclawError::InvalidAmount
            } else {
                SolclawError::Overflow
            }) && (batch_has_zero_amount(payments@) || batch_total(
                payments@,
                payments@.len() as int,
            ) > u64::MAX),
        },
{
    let n = payments.len();
    let mut i: usize = 0;
    while i < n
        invariant
            n == payments@.len(),
            i <= n,
            forall|j: int| 0 <= j < i ==> (#[trigger] payments@[j]).amount != 0,
        decreases n - i,
    {
        if payments[i].amount == 0 {
            return Err(SolclawError::InvalidAmount);
        }
        i += 1;
    }
    let mut total: u64 = 0;
    let mut k: usize = 0;
    while k < n
        invariant
            n == payments@.len(),
            k <= n,
            !batch_has_zero_amount(payments@),
            total == batch_total(payments@, k as int),
        decreases n - k,
    {
        total = match total.checked_add(payments[k].amount) {
            Some(sum) => sum,
            None => {
                proof {
                    lemma_batch_total_grows(payments@, k as int + 1, n as int);
                }
                return Err(SolclawError::Overflow);
            },
        };
        k += 1;
    }
    Ok(total)
}

/// Pays 1 to 10 recipients, each its own amount, in one request. The
/// caller must be the sender's controller, every amount must be above zero
/// and every memo at most 128 bytes, and for each recipient the supplied
/// record and vault locations must be the ones derived from its name. The
/// sender's cap is charged once, with the sum of the amounts. Returns the
/// movements for the host to carry out and the record of the batch; the
/// host must carry out all of them or none. The movements all come out of
/// the sender's vault and move the sum of the amounts, which is the total
/// on record.
pub fn batch_payment(ctx: &mut BatchPayment, clock: &Clock, payments: Vec<BatchPaymentEntry>) -> (r:
    Result<(Vec<VaultTransfer>, BatchPaymentEvent), SolclawError>)
    ensures
        match r {
            Ok((transfers, event)) => {
                &&& batch_error(*old(ctx), clock.unix_timestamp, payments@) is None
                &&& *final(ctx) == batch_applied(*old(ctx), clock.unix_timestamp, payments@)
                &&& transfers@ == batch_transfers(*old(ctx), payments@)
                &&& event.sender@ == old(ctx).sender_registry.name@
                &&& texts_of(event.recipients@) == Seq::new(
                    payments@.len(),
                    |i: int| payments@[i].recipient_name@,
                )
                &&& event.amounts@ == Seq::new(payments@.len(), |i: int| payments@[i].amount)
                &&& texts_of(event.memos@) == Seq::new(
                    payments@.len(),
                    |i: int| memo_text(payments@[i].memo),
                )
                &&& event.total == batch_total(payments@, payments@.len() as int)
                &&& event.timestamp == clock.unix_timestamp
                &&& all_from(transfers@, old(ctx).sender_vault)
                &&& total_moved(transfers@) == event.total
            },
            Err(e) => {
                &&& batch_error(*old(ctx), clock.unix_timestamp, payments@) == Some(e)
                &&& *final(ctx) == *old(ctx)
            },
        },
{
    let n = payments.len();
    if n < 1 || n > MAX_RECIPIENTS {
        return Err(SolclawError::InvalidBatchSize);
    }
    if ctx.authority != ctx.sender_registry.authority {
        return Err(SolclawError::Unauthorized);
    }
    if !batch_memos_fit(&payments) {
        return Err(SolclawError::MemoTooLong);
    }
    if ctx.remaining_accounts.len() != n * 2 {
        return Err(SolclawError::InvalidRemainingAccounts);
    }
    let total = batch_sum(&payments)?;
    let (spent, day) = check_spending_cap(&ctx.sender_registry, total, clock)?;

    let mut transfers: Vec<VaultTransfer> = Vec::new();
    let mut recipients: Vec<String> = Vec::new();
    let mut amounts: Vec<u64> = Vec::new();
    let mut memos: Vec<String> = Vec::new();
    let mut i: usize = 0;
    while i < n
        invariant
            n == payments@.len(),
            1 <= n <= 10,
            i <= n,
            *ctx == *old(ctx),
            ctx.remaining_accounts@.len() == 2 * n,
            batch_error(*ctx, clock.unix_timestamp, payments@) == batch_recipients_error(
                *ctx,
                payments@,
                n as int,
            ),
            batch_recipients_error(*ctx, payments@, i as int) is None,
            transfers@.len() == i,
            recipients@.len() == i,
            amounts@.len() == i,
            memos@.len() == i,
            forall|j: int| 0 <= j < i ==> transfers@[j] == batch_transfers(*ctx, payments@)[j],
            forall|j: int| 0 <= j < i ==> (#[trigger] recipients@[j])@ == payments@[j].recipient_name@,
            forall|j: int| 0 <= j < i ==> #[trigger] amounts@[j] == payments@[j].amount,
            forall|j: int| 0 <= j < i ==> (#[trigger] memos@[j])@ == memo_text(payments@[j].memo),
        decreases n - i,
    {
        let registry = ctx.remaining_accounts[2 * i];
        let vault = ctx.remaining_accounts[2 * i + 1];
        match check_recipient(
            &ctx.program_id,
            payments[i].recipient_name.as_str(),
            &registry,
            &vault,
        ) {
            Ok(()) => {},
            Err(e) => {
                proof {
                    lemma_batch_recipients_error_stays(*ctx, payments@, i as int + 1, n as int);
                }
                return Err(e);
            },
        }
        transfers.push(
            VaultTransfer {
                from: ctx.sender_vault,
                to: vault,
                authority: ctx.sender_vault,
                amount: payments[i].amount,
            },
        );
        recipients.push(payments[i].recipient_name.clone());
        amounts.push(payments[i].amount);
        memos.push(memo_or_empty(payments[i].memo.clone()));
        i += 1;
    }

    ctx.sender_registry.daily_spent = spent;
    ctx.sender_registry.last_spend_day = day;
    ctx.sender_registry.total_sent = add_to_total(ctx.sender_registry.total_sent, total);

    assert(transfers@ =~= batch_transfers(*old(ctx), payments@));
    proof {
        lemma_batch_conserves(*old(ctx), payments@);
    }
    assert(texts_of(recipients@) =~= Seq::new(
        payments@.len(),
        |i: int| payments@[i].recipient_name@,
    ));
    assert(amounts@ =~= Seq::new(payments@.len(), |i: int| payments@[i].amount));
    assert(texts_of(memos@) =~= Seq::new(payments@.len(), |i: int| memo_text(payments@[i].memo)));
    let event = BatchPaymentEvent {
        sender: ctx.sender_registry.name.clone(),
        recipients,
        amounts,
        memos,
        total,
        timestamp: clock.unix_timestamp,
    };
    Ok((transfers, event))
}

} // verus!
