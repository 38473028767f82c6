use crate::address::{name_matches, padded_name};
use crate::cap::{cap_applied, cap_error, check_spending_cap};
use crate::context::{Approve, ModifyAllowance, RevokeAllowance, TransferFrom};
use crate::error::SolclawError;
use crate::events::{
    AllowanceApprovedEvent,
    AllowanceModifiedEvent,
    AllowanceRevokedEvent,
    TransferFromEvent,
};
use crate::memo::{memo_fits, memo_or_empty, memo_text, memo_too_long};
use crate::state::{add_to_total, Allowance, Clock, VaultTransfer};
use vstd::prelude::*;
use vstd::string::StringExecFns;
use vstd::utf8::encode_utf8;

verus! {

// ---------------------------------------------------------------------
// Approve
// ---------------------------------------------------------------------

/// Why an approval is refused, if it is: the first of a caller that is not
/// the owner's controller, a spender name that is not the name of the
/// spender's record, and an owner that is its own spender.
pub open spec fn approve_error(ctx: Approve, spender_name: Seq<char>) -> Option<SolclawError> {
    if ctx.authority != ctx.owner_registry.authority {
        Some(SolclawError::Unauthorized)
    } else if ctx.spender_registry.name_hash@ != padded_name(encode_utf8(spender_name)) {
        Some(SolclawError::NameMismatch)
    } else if ctx.owner_registry_key == ctx.spender_registry_key {
        Some(SolclawError::CannotApproveSelf)
    } else {
        None
    }
}

/// The allowance that an approval of `amount` leaves: active, with exactly
/// that amount to pull, whatever it held before, and nothing pulled yet.
pub open spec fn approved_allowance(ctx: Approve, spender_name: String, amount: u64) -> Allowance {
    Allowance {
        owner: ctx.owner_registry_key,
        spender: ctx.spender_registry_key,
        owner_name: ctx.owner_registry.name,
        spender_name,
        amount,
        total_pulled: 0,
        pull_count: 0,
        is_active: true,
        authority: ctx.authority,
        bump: ctx.allowance_bump,
    }
}

/// Lets the spender pull up to `amount` from the owner's vault. The caller
/// must be the owner's controller. An earlier allowance of the pair is
/// replaced, not added to.
pub fn approve(ctx: &mut Approve, clock: &Clock, spender_name: String, amount: u64) -> (r: Result<
    AllowanceApprovedEvent,
    SolclawError,
>)
    ensures
        match r {
            Ok(event) => {
                &&& approve_error(*old(ctx), spender_name@) is None
                &&& *final(ctx) == (Approve {
                    allowance: approved_allowance(*old(ctx), spender_name, amount),
                    ..*old(ctx)
                })
                &&& event.owner@ == old(ctx).owner_registry.name@
                &&& event.spender@ == spender_name@
                &&& event.amount == amount
                &&& event.timestamp == clock.unix_timestamp
            },
            Err(e) => {
                &&& approve_error(*old(ctx), spender_name@) == Some(e)
                &&& *final(ctx) == *old(ctx)
            },
        },
{
    if ctx.authority != ctx.owner_registry.authority {
        return Err(SolclawError::Unauthorized);
    }
    if !name_matches(&ctx.spender_registry.name_hash, spender_name.as_str()) {
        return Err(SolclawError::NameMismatch);
    }
    if ctx.owner_registry_key == ctx.spender_registry_key {
        return Err(SolclawError::CannotApproveSelf);
    }
    let event = AllowanceApprovedEvent {
        owner: ctx.owner_registry.name.clone(),
        spender: spender_name.clone(),
        amount,
        timestamp: clock.unix_timestamp,
    };
    ctx.allowance = Allowance {
        owner: ctx.owner_registry_key,
        spender: ctx.spender_registry_key,
        owner_name: ctx.owner_registry.name.clone(),
        spender_name,
        amount,
        total_pulled: 0,
        pull_count: 0,
        is_active: true,
        authority: ctx.authority,
        bump: ctx.allowance_bump,
    };
    Ok(event)
}

// ---------------------------------------------------------------------
// Transfer from
// ---------------------------------------------------------------------

/// Why a pull is refused, if it is. The checks, in order: an amount above
/// zero; a memo of at most 128 bytes; a caller that is the spender's
/// controller; an active allowance; an allowance of exactly this owner and
/// this spender; an amount within what is left of the allowance; the
/// owner's daily cap; and totals of the allowance that still fit.
pub open spec fn transfer_from_error(
    ctx: TransferFrom,
    now: i64,
    amount: u64,
    memo: Option<String>,
) -> Option<SolclawError> {
    if amount == 0 {
        Some(SolclawError::InvalidAmount)
    } else if memo_too_long(memo) {
        Some(SolclawError::MemoTooLong)
    } else if ctx.spender_authority != ctx.spender_registry.authority {
        Some(SolclawError::Unauthorized)
    } else if !ctx.allowance.is_active {
        Some(SolclawError::AllowanceNotActive)
    } else if ctx.allowance.owner != ctx.owner_registry_key || ctx.allowance.spender
        != ctx.spender_registry_key {
        Some(SolclawError::AllowanceMismatch)
    } else if amount > ctx.allowance.amount {
        Some(SolclawError::AllowanceExceeded)
    } else if cap_error(ctx.owner_registry, amount, now) is Some {
        cap_error(ctx.owner_registry, amount, now)
    } else if ctx.allowance.total_pulled + amount > u64::MAX || ctx.allowance.pull_count + 1
        > u64::MAX {
        Some(SolclawError::Overflow)
    } else {
        None
    }
}

/// The records after a pull of `amount` at `now`: the allowance has that
/// much less left and one more pull of that amount on record; the owner is
/// charged against its cap and has sent the amount; the spender has
/// received it.
pub open spec fn transfer_from_applied(ctx: TransferFrom, now: i64, amount: u64) -> TransferFrom {
    TransferFrom {
        allowance: Allowance {
            amount: (ctx.allowance.amount - amount) as u64,
            total_pulled: (ctx.allowance.total_pulled + amount) as u64,
            pull_count: (ctx.allowance.pull_count + 1) as u64,
            ..ctx.allowance
        },
        owner_registry: cap_applied(ctx.owner_registry, amount, now).with_sent(amount),
        spender_registry: ctx.spender_registry.with_received(amount),
        ..ctx
    }
}

/// Pulls `amount` from the owner's vault into the spender's, under the
/// allowance. The caller must be the spender's controller. The owner's
/// daily cap is the one charged. Returns the movement for the host to carry
/// out, out of the owner's vault and signed for by that vault, and the
/// record of the pull.
pub fn transfer_from(ctx: &mut TransferFrom, clock: &Clock, amount: u64, memo: Option<String>) -> (r:
    Result<(VaultTransfer, TransferFromEvent), SolclawError>)
    ensures
        match r {
            Ok((movement, event)) => {
                &&& transfer_from_error(*old(ctx), clock.unix_timestamp, amount, memo) is None
                &&& *final(ctx) == transfer_from_applied(*old(ctx), clock.unix_timestamp, amount)
                &&& movement == (VaultTransfer {
                    from: old(ctx).owner_vault,
                    to: old(ctx).spender_vault,
                    authority: old(ctx).owner_vault,
                    amount,
                })
                &&& event.owner@ == old(ctx).owner_registry.name@
                &&& event.spender@ == old(ctx).spender_registry.name@
                &&& event.amount == amount
                &&& event.memo@ == memo_text(memo)
                &&& event.remaining_allowance == old(ctx).allowance.amount - amount
                &&& event.pull_number == old(ctx).allowance.pull_count + 1
                &&& event.timestamp == clock.unix_timestamp
            },
            Err(e) => {
                &&& transfer_from_error(*old(ctx), clock.unix_timestamp, amount, memo) == Some(e)
                &&& *final(ctx) == *old(ctx)
            },
        },
{
    if amount == 0 {
        return Err(SolclawError::InvalidAmount);
    }
    if !memo_fits(&memo) {
        return Err(SolclawError::MemoTooLong);
    }
    if ctx.spender_authority != ctx.spender_registry.authority {
        return Err(SolclawError::Unauthorized);
    }
    if !ctx.allowance.is_active {
        return Err(SolclawError::AllowanceNotActive);
    }
    if ctx.allowance.owner != ctx.owner_registry_key {
        return Err(SolclawError::AllowanceMismatch);
    }
    if ctx.allowance.spender != ctx.spender_registry_key {
        return Err(SolclawError::AllowanceMismatch);
    }
    if amount > ctx.allowance.amount {
        return Err(SolclawError::AllowanceExceeded);
    }
    let (spent, day) = check_spending_cap(&ctx.owner_registry, amount, clock)?;
    let total_pulled = match ctx.allowance.total_pulled.checked_add(amount) {
        Some(total) => total,
        None => {
            return Err(SolclawError::Overflow);
        },
    };
    let pull_count = match ctx.allowance.pull_count.checked_add(1) {
        Some(count) => count,
        None => {
            return Err(SolclawError::Overflow);
        },
    };

    ctx.allowance.amount = ctx.allowance.amount - amount;
    ctx.allowance.total_pulled = total_pulled;
    ctx.allowance.pull_count = pull_count;
    ctx.owner_registry.daily_spent = spent;
    ctx.owner_registry.last_spend_day = day;
    ctx.owner_registry.total_sent = add_to_total(ctx.owner_registry.total_sent, amount);
    ctx.spender_registry.total_received = add_to_total(
        ctx.spender_registry.total_received,
        amount,
    );

    let movement = VaultTransfer {
        from: ctx.owner_vault,
        to: ctx.spender_vault,
        authority: ctx.owner_vault,
        amount,
    };
    let event = TransferFromEvent {
        owner: ctx.owner_registry.name.clone(),
        spender: ctx.spender_registry.name.clone(),
        amount,
        memo: memo_or_empty(memo),
        remaining_allowance: ctx.allowance.amount,
        pull_number: ctx.allowance.pull_count,
        timestamp: clock.unix_timestamp,
    };
    Ok((movement, event))
}

// ---------------------------------------------------------------------
// Revoke and increase
// ---------------------------------------------------------------------

/// Revokes an allowance: it is no longer active and nothing is left to
/// pull; what was pulled stays on record. The caller must be the
/// allowance's controlling identity.
pub fn revoke_allowance(ctx: &mut RevokeAllowance, clock: &Clock) -> (r: Result<
    AllowanceRevokedEvent,
    SolclawError,
>)
    ensures
        match r {
            Ok(event) => {
                &&& old(ctx).authority == old(ctx).allowance.authority
                &&& *final(ctx) == (RevokeAllowance {
                    allowance: Allowance { is_active: false, amount: 0, ..old(ctx).allowance },
                    ..*old(ctx)
                })
                &&& event.owner@ == old(ctx).allowance.owner_name@
                &&& event.spender@ == old(ctx).allowance.spender_name@
                &&& event.total_pulled == old(ctx).allowance.total_pulled
                &&& event.pull_count == old(ctx).allowance.pull_count
                &&& event.timestamp == clock.unix_timestamp
            },
            Err(e) => {
                &&& e == SolclawError::Unauthorized
                &&& old(ctx).authority != old(ctx).allowance.authority
                &&& *final(ctx) == *old(ctx)
            },
        },
{
    if ctx.authority != ctx.allowance.authority {
        return Err(SolclawError::Unauthorized);
    }
    ctx.allowance.is_active = false;
    ctx.allowance.amount = 0;
    Ok(
        AllowanceRevokedEvent {
            owner: ctx.allowance.owner_name.clone(),
            spender: ctx.allowance.spender_name.clone(),
            total_pulled: ctx.allowance.total_pulled,
            pull_count: ctx.allowance.pull_count,
            timestamp: clock.unix_timestamp,
        },
    )
}

/// Why an increase is refused, if it is: the first of a caller that is not
/// the allowance's controlling identity, an allowance that is not active,
/// and an amount that would no longer fit.
pub open spec fn increase_error(ctx: ModifyAllowance, additional_amount: u64) -> Option<
    SolclawError,
> {
    if ctx.authority != ctx.allowance.authority {
        Some(SolclawError::Unauthorized)
    } else if !ctx.allowance.is_active {
        Some(SolclawError::AllowanceNotActive)
    } else if ctx.allowance.amount + additional_amount > u64::MAX {
        Some(SolclawError::Overflow)
    } else {
        None
    }
}

/// Adds `additional_amount` to what is left of an active allowance. The
/// caller must be the allowance's controlling identity.
pub fn increase_allowance(ctx: &mut ModifyAllowance, clock: &Clock, additional_amount: u64) -> (r:
    Result<AllowanceModifiedEvent, SolclawError>)
    ensures
        match r {
            Ok(event) => {
                &&& increase_error(*old(ctx), additional_amount) is None
                &&& *final(ctx) == (ModifyAllowance {
                    allowance: Allowance {
                        amount: (old(ctx).allowance.amount + additional_amount) as u64,
                        ..old(ctx).allowance
                    },
                    ..*old(ctx)
                })
                &&& event.owner@ == old(ctx).allowance.owner_name@
                &&& event.spender@ == old(ctx).allowance.spender_name@
                &&& event.new_amount == old(ctx).allowance.amount + additional_amount
                &&& event.action@ == "increase"@
                &&& event.timestamp == clock.unix_timestamp
            },
            Err(e) => {
                &&& increase_error(*old(ctx), additional_amount) == Some(e)
                &&& *final(ctx) == *old(ctx)
            },
        },
{
    if ctx.authority != ctx.allowance.authority {
        return Err(SolclawError::Unauthorized);
    }
    if !ctx.allowance.is_active {
        return Err(SolclawError::AllowanceNotActive);
    }
    let new_amount = match ctx.allowance.amount.checked_add(additional_amount) {
        Some(sum) => sum,
        None => {
            return Err(SolclawError::Overflow);
        },
    };
    ctx.allowance.amount = new_amount;
    Ok(
        AllowanceModifiedEvent {
            owner: ctx.allowance.owner_name.clone(),
            spender: ctx.allowance.spender_name.clone(),
            new_amount,
            action: String::from_str("increase"),
            timestamp: clock.unix_timestamp,
        },
    )
}

/// A pull takes from what is left exactly what it adds to what was pulled:
/// after a pull that went through, less is left by the amount, one more
/// pull is on record, and what is left and what was pulled together are
/// what they were. A pull above what is left is refused as exceeding the
/// allowance, if nothing before that check refuses it.
pub proof fn lemma_pull_moves_allowance(ctx: TransferFrom, now: i64, amount: u64, memo: Option<String>)
    ensures
        transfer_from_error(ctx, now, amount, memo) is None ==> {
            let after = transfer_from_applied(ctx, now, amount).allowance;
            &&& amount <= ctx.allowance.amount
            &&& after.amount == ctx.allowance.amount - amount
            &&& after.total_pulled == ctx.allowance.total_pulled + amount
            &&& after.pull_count == ctx.allowance.pull_count + 1
            &&& after.amount + after.total_pulled == ctx.allowance.amount
                + ctx.allowance.total_pulled
            &&& after.is_active
        },
        amount > ctx.allowance.amount ==> transfer_from_error(ctx, now, amount, memo) is Some,
        amount > ctx.allowance.amount && amount > 0 && !memo_too_long(memo)
            && ctx.spender_authority == ctx.spender_registry.authority && ctx.allowance.is_active
            && ctx.allowance.owner == ctx.owner_registry_key && ctx.allowance.spender
            == ctx.spender_registry_key ==> transfer_from_error(ctx, now, amount, memo) == Some(
            SolclawError::AllowanceExceeded,
        ),
{
}

} // verus!
