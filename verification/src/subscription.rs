use crate::address::{name_matches, padded_name};
use crate::cap::{cap_applied, cap_error, check_spending_cap};
use crate::context::{CancelSubscription, CreateSubscription, ExecuteSubscription};
use crate::error::SolclawError;
use crate::events::SubscriptionExecutedEvent;
use crate::memo::{decimal, decimal_string};
use crate::state::{add_to_total, Clock, Subscription, VaultTransfer, MIN_INTERVAL_SECONDS};
use vstd::prelude::*;
use vstd::string::StringExecFns;
use vstd::utf8::encode_utf8;

verus! {

// ---------------------------------------------------------------------
// Create
// ---------------------------------------------------------------------

/// Why a subscription is not created, if it is not. The checks, in order:
/// an amount above zero; an interval of at least 60 seconds; a caller that
/// is the sender's controller; a receiver name that is the name of the
/// receiver's record; and a first due time that still fits.
pub open spec fn create_subscription_error(
    ctx: CreateSubscription,
    now: i64,
    receiver_name: Seq<char>,
    amount: u64,
    interval_seconds: i64,
) -> Option<SolclawError> {
    if amount == 0 {
        Some(SolclawError::InvalidAmount)
    } else if interval_seconds < 60 {
        Some(SolclawError::InvalidInterval)
    } else if ctx.authority != ctx.sender_registry.authority {
        Some(SolclawError::Unauthorized)
    } else if ctx.receiver_registry.name_hash@ != padded_name(encode_utf8(receiver_name)) {
        Some(SolclawError::NameMismatch)
    } else if now + interval_seconds > i64::MAX {
        Some(SolclawError::Overflow)
    } else {
        None
    }
}

/// The subscription as it is created at `now`: active, first due one
/// interval after `now`, with nothing paid yet.
pub open spec fn created_subscription(
    ctx: CreateSubscription,
    now: i64,
    receiver_name: String,
    amount: u64,
    interval_seconds: i64,
) -> Subscription {
    Subscription {
        sender: ctx.sender_registry_key,
        receiver: ctx.receiver_registry_key,
        sender_name: ctx.sender_registry.name,
        receiver_name,
        amount,
        interval_seconds,
        last_executed: now,
        next_due: (now + interval_seconds) as i64,
        is_active: true,
        authority: ctx.authority,
        total_paid: 0,
        execution_count: 0,
        bump: ctx.subscription_bump,
    }
}

/// Creates a recurring payment of `amount` from the sender to the receiver
/// every `interval_seconds`, first due one interval from now. The caller
/// must be the sender's controller.
pub fn create_subscription(
    ctx: &mut CreateSubscription,
    clock: &Clock,
    receiver_name: String,
    amount: u64,
    interval_seconds: i64,
) -> (r: Result<(), SolclawError>)
    ensures
        match r {
            Ok(()) => {
                &&& create_subscription_error(
                    *old(ctx),
                    clock.unix_timestamp,
                    receiver_name@,
                    amount,
                    interval_seconds,
                ) is None
                &&& *final(ctx) == (CreateSubscription {
                    subscription: created_subscription(
                        *old(ctx),
                        clock.unix_timestamp,
                        receiver_name,
                        amount,
                        interval_seconds,
                    ),
                    ..*old(ctx)
                })
                &&& final(ctx).subscription.wf()
            },
            Err(e) => {
                &&& create_subscription_error(
                    *old(ctx),
                    clock.unix_timestamp,
                    receiver_name@,
                    amount,
                    interval_seconds,
                ) == Some(e)
                &&& *final(ctx) == *old(ctx)
            },
        },
{
    if amount == 0 {
        return Err(SolclawError::InvalidAmount);
    }
    if interval_seconds < MIN_INTERVAL_SECONDS {
        return Err(SolclawError::InvalidInterval);
    }
    if ctx.authority != ctx.sender_registry.authority {
        return Err(SolclawError::Unauthorized);
    }
    if !name_matches(&ctx.receiver_registry.name_hash, receiver_name.as_str()) {
        return Err(SolclawError::NameMismatch);
    }
    let now = clock.unix_timestamp;
    let next_due = match now.checked_add(interval_seconds) {
        Some(due) => due,
        None => {
            return Err(SolclawError::Overflow);
        },
    };
    ctx.subscription = Subscription {
        sender: ctx.sender_registry_key,
        receiver: ctx.receiver_registry_key,
        sender_name: ctx.sender_registry.name.clone(),
        receiver_name,
        amount,
        interval_seconds,
        last_executed: now,
        next_due,
        is_active: true,
        authority: ctx.authority,
        total_paid: 0,
        execution_count: 0,
        bump: ctx.subscription_bump,
    };
    Ok(())
}

// ---------------------------------------------------------------------
// Execute
// ---------------------------------------------------------------------

/// Why a payment of a subscription is refused at `now`, if it is. The
/// checks, in order: sender and receiver records that are the ones of the
/// subscription; an active subscription; a due time that has come; the
/// sender's daily cap; and a next due time and totals that still fit.
/// Who the caller is plays no part.
pub open spec fn execute_error(ctx: ExecuteSubscription, now: i64) -> Option<SolclawError> {
    let subscription = ctx.subscription;
    if subscription.sender != ctx.sender_registry_key || subscription.receiver
        != ctx.receiver_registry_key {
        Some(SolclawError::InvalidSubscription)
    } else if !subscription.is_active {
        Some(SolclawError::SubscriptionNotActive)
    } else if now < subscription.next_due {
        Some(SolclawError::SubscriptionNotDue)
    } else if cap_error(ctx.sender_registry, subscription.amount, now) is Some {
        cap_error(ctx.sender_registry, subscription.amount, now)
    } else if now + subscription.interval_seconds > i64::MAX || now
        + subscription.interval_seconds < i64::MIN || subscription.total_paid
        + subscription.amount > u64::MAX || subscription.execution_count + 1 > u64::MAX {
        Some(SolclawError::Overflow)
    } else {
        None
    }
}

/// The records after a payment of a subscription at `now`: the next
/// payment is due one interval after `now`, whenever this one was due; one
/// more payment is on record; the sender is charged against its cap and has
/// sent the amount; the receiver has received it.
pub open spec fn execute_applied(ctx: ExecuteSubscription, now: i64) -> ExecuteSubscription {
    let subscription = ctx.subscription;
    ExecuteSubscription {
        subscription: Subscription {
            last_executed: now,
            next_due: (now + subscription.interval_seconds) as i64,
            total_paid: (subscription.total_paid + subscription.amount) as u64,
            execution_count: (subscription.execution_count + 1) as u64,
            ..subscription
        },
        sender_registry: cap_applied(ctx.sender_registry, subscription.amount, now).with_sent(
            subscription.amount,
        ),
        receiver_registry: ctx.receiver_registry.with_received(subscription.amount),
        ..ctx
    }
}

/// The memo of the payment with the given number.
pub open spec fn execution_memo(execution_count: u64) -> Seq<char> {
    "Subscription payment #"@ + decimal(execution_count as nat)
}

/// Makes the payment of a subscription that is due. Anyone may call.
/// Returns the movement for the host to carry out, out of the sender's
/// vault and signed for by that vault, and the record of the payment, whose
/// memo names the number of the payment.
pub fn execute_subscription(ctx: &mut ExecuteSubscription, clock: &Clock) -> (r: Result<
    (VaultTransfer, SubscriptionExecutedEvent),
    SolclawError,
>)
    ensures
        match r {
            Ok((movement, event)) => {
                &&& execute_error(*old(ctx), clock.unix_timestamp) is None
                &&& *final(ctx) == execute_applied(*old(ctx), clock.unix_timestamp)
                &&& movement == (VaultTransfer {
                    from: old(ctx).sender_vault,
                    to: old(ctx).receiver_vault,
                    authority: old(ctx).sender_vault,
                    amount: old(ctx).subscription.amount,
                })
                &&& event.sender@ == old(ctx).subscription.sender_name@
                &&& event.receiver@ == old(ctx).subscription.receiver_name@
                &&& event.amount == old(ctx).subscription.amount
                &&& event.memo@ == execution_memo(event.execution_count)
                &&& event.execution_count == old(ctx).subscription.execution_count + 1
                &&& event.timestamp == clock.unix_timestamp
            },
            Err(e) => {
                &&& execute_error(*old(ctx), clock.unix_timestamp) == Some(e)
                &&& *final(ctx) == *old(ctx)
            },
        },
{
    if ctx.subscription.sender != ctx.sender_registry_key {
        return Err(SolclawError::InvalidSubscription);
    }
    if ctx.subscription.receiver != ctx.receiver_registry_key {
        return Err(SolclawError::InvalidSubscription);
    }
    if !ctx.subscription.is_active {
        return Err(SolclawError::SubscriptionNotActive);
    }
    let now = clock.unix_timestamp;
    if now < ctx.subscription.next_due {
        return Err(SolclawError::SubscriptionNotDue);
    }
    let amount = ctx.subscription.amount;
    let (spent, day) = check_spending_cap(&ctx.sender_registry, amount, clock)?;
    let next_due = match now.checked_add(ctx.subscription.interval_seconds) {
        Some(due) => due,
        None => {
            return Err(SolclawError::Overflow);
        },
    };
    let total_paid = match ctx.subscription.total_paid.checked_add(amount) {
        Some(total) => total,
        None => {
            return Err(SolclawError::Overflow);
        },
    };
    let execution_count = match ctx.subscription.execution_count.checked_add(1) {
        Some(count) => count,
        None => {
            return Err(SolclawError::Overflow);
        },
    };

    ctx.subscription.last_executed = now;
    ctx.subscription.next_due = next_due;
    ctx.subscription.total_paid = total_paid;
    ctx.subscription.execution_count = execution_count;
    ctx.sender_registry.daily_spent = spent;
    ctx.sender_registry.last_spend_day = day;
    ctx.sender_registry.total_sent = add_to_total(ctx.sender_registry.total_sent, amount);
    ctx.receiver_registry.total_received = add_to_total(
        ctx.receiver_registry.total_received,
        amount,
    );

    let movement = VaultTransfer {
        from: ctx.sender_vault,
        to: ctx.receiver_vault,
        authority: ctx.sender_vault,
        amount,
    };
    let mut memo = String::from_str("Subscription payment #");
    memo.append(decimal_string(execution_count).as_str());
    let event = SubscriptionExecutedEvent {
        sender: ctx.subscription.sender_name.clone(),
        receiver: ctx.subscription.receiver_name.clone(),
        amount,
        memo,
        execution_count,
        timestamp: now,
    };
    Ok((movement, event))
}

// ---------------------------------------------------------------------
// Cancel
// ---------------------------------------------------------------------

/// Ends a subscription: it is no longer active, and stays on record. The
/// caller must be the subscription's controlling identity.
pub fn cancel_subscription(ctx: &mut CancelSubscription) -> (r: Result<(), SolclawError>)
    ensures
        match r {
            Ok(()) => {
                &&& old(ctx).authority == old(ctx).subscription.authority
                &&& *final(ctx) == (CancelSubscription {
                    subscription: Subscription { is_active: false, ..old(ctx).subscription },
                    ..*old(ctx)
                })
            },
            Err(e) => {
                &&& e == SolclawError::Unauthorized
                &&& old(ctx).authority != old(ctx).subscription.authority
                &&& *final(ctx) == *old(ctx)
            },
        },
{
    if ctx.authority != ctx.subscription.authority {
        return Err(SolclawError::Unauthorized);
    }
    ctx.subscription.is_active = false;
    Ok(())
}

// ---------------------------------------------------------------------
// Laws
// ---------------------------------------------------------------------

/// A subscription is first due exactly one interval after its creation.
pub proof fn lemma_created_due_after_interval(
    ctx: CreateSubscription,
    now: i64,
    receiver_name: String,
    amount: u64,
    interval_seconds: i64,
)
    requires
        create_subscription_error(ctx, now, receiver_name@, amount, interval_seconds) is None,
    ensures
        created_subscription(ctx, now, receiver_name, amount, interval_seconds).next_due == now
            + interval_seconds,
        created_subscription(ctx, now, receiver_name, amount, interval_seconds).is_active,
        created_subscription(ctx, now, receiver_name, amount, interval_seconds).wf(),
{
}

/// A payment is gated by the due time. Before it, an active subscription
/// cannot be executed: the call fails as not due. A payment that goes
/// through at `now` sets the next due time to `now` plus the interval,
/// counted from the time of the payment and not from the old due time.
pub proof fn lemma_execute_due_gating(ctx: ExecuteSubscription, now: i64)
    ensures
        ctx.subscription.sender == ctx.sender_registry_key && ctx.subscription.receiver
            == ctx.receiver_registry_key && ctx.subscription.is_active && now
            < ctx.subscription.next_due ==> execute_error(ctx, now) == Some(
            SolclawError::SubscriptionNotDue,
        ),
        execute_error(ctx, now) is None ==> {
            &&& now >= ctx.subscription.next_due
            &&& execute_applied(ctx, now).subscription.next_due == now
                + ctx.subscription.interval_seconds
            &&& execute_applied(ctx, now).subscription.last_executed == now
        },
{
}

/// The due time of a well-formed subscription never goes back: a payment
/// moves it forward by at least the interval past the old due time. So a
/// second execution at the same time, or at any time before the new due
/// time, fails as not due.
pub proof fn lemma_execute_advances_due(ctx: ExecuteSubscription, now: i64, again: i64)
    requires
        ctx.subscription.wf(),
        execute_error(ctx, now) is None,
    ensures
        execute_applied(ctx, now).subscription.wf(),
        execute_applied(ctx, now).subscription.next_due >= ctx.subscription.next_due
            + ctx.subscription.interval_seconds,
        again < now + ctx.subscription.interval_seconds ==> execute_error(
            execute_applied(ctx, now),
            again,
        ) == Some(SolclawError::SubscriptionNotDue),
{
}

/// A cancelled subscription cannot be executed, whoever calls and whenever.
pub proof fn lemma_cancelled_never_executes(ctx: ExecuteSubscription, now: i64)
    requires
        !ctx.subscription.is_active,
    ensures
        execute_error(ctx, now) is Some,
        ctx.subscription.sender == ctx.sender_registry_key && ctx.subscription.receiver
            == ctx.receiver_registry_key ==> execute_error(ctx, now) == Some(
            SolclawError::SubscriptionNotActive,
        ),
{
}

} // verus!
