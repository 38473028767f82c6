use crate::cap::{cap_applied, cap_error, check_and_update_spending_cap};
use crate::context::TransferByName;
use crate::error::SolclawError;
use crate::events::TransferEvent;
use crate::memo::{memo_fits, memo_or_empty, memo_text, memo_too_long};
use crate::state::{add_to_total, Clock, VaultTransfer};
use vstd::prelude::*;

verus! {

/// Why a direct transfer is refused, if it is: the first of a zero amount,
/// a memo that is too long, a caller that is not the sender's controller,
/// and the sender's daily cap.
pub open spec fn transfer_error(
    ctx: TransferByName,
    now: i64,
    amount: u64,
    memo: Option<String>,
) -> Option<SolclawError> {
    if amount == 0 {
        Some(SolclawError::InvalidAmount)
    } else if memo_too_long(memo) {
        Some(SolclawError::MemoTooLong)
    } else if ctx.sender_registry.authority != ctx.authority {
        Some(SolclawError::Unauthorized)
    } else {
        cap_error(ctx.sender_registry, amount, now)
    }
}

/// The records after a direct transfer of `amount` at `now`: the sender is
/// charged against its cap and has sent the amount, the receiver has
/// received it.
pub open spec fn transfer_applied(ctx: TransferByName, now: i64, amount: u64) -> TransferByName {
    TransferByName {
        sender_registry: cap_applied(ctx.sender_registry, amount, now).with_sent(amount),
        receiver_registry: ctx.receiver_registry.with_received(amount),
        ..ctx
    }
}

/// Transfers `amount` from the sender's vault to the receiver's. The caller
/// must be the sender's controller. Returns the movement for the host to
/// carry out, out of the sender's vault and signed for by that vault, and
/// the record of the transfer.
pub fn transfer_by_name(
    ctx: &mut TransferByName,
    clock: &Clock,
    amount: u64,
    memo: Option<String>,
) -> (r: Result<(VaultTransfer, TransferEvent), SolclawError>)
    ensures
        match r {
            Ok((movement, event)) => {
                &&& transfer_error(*old(ctx), clock.unix_timestamp, amount, memo) is None
                &&& *final(ctx) == transfer_applied(*old(ctx), clock.unix_timestamp, amount)
                &&& movement == (VaultTransfer {
                    from: old(ctx).sender_vault,
                    to: old(ctx).receiver_vault,
                    authority: old(ctx).sender_vault,
                    amount,
                })
                &&& event.sender@ == old(ctx).sender_registry.name@
                &&& event.receiver@ == old(ctx).receiver_registry.name@
                &&& event.amount == amount
                &&& event.memo@ == memo_text(memo)
                &&& event.timestamp == clock.unix_timestamp
            },
            Err(e) => {
                &&& transfer_error(*old(ctx), clock.unix_timestamp, amount, memo) == Some(e)
                &&& *final(ctx) == *old(ctx)
            },
        },
{
    if amount == 0 {
        return Err(SolclawError::InvalidAmount);
    }
    if !memo_fits(&memo) {
        return Err(SolclawError::MemoTooLong);
    }
    if ctx.sender_registry.authority != ctx.authority {
        return Err(SolclawError::Unauthorized);
    }
    check_and_update_spending_cap(&mut ctx.sender_registry, amount, clock)?;

    ctx.sender_registry.total_sent = add_to_total(ctx.sender_registry.total_sent, amount);
    ctx.receiver_registry.total_received = add_to_total(
        ctx.receiver_registry.total_received,
        amount,
    );

    let movement = VaultTransfer {
        from: ctx.sender_vault,
        to: ctx.receiver_vault,
        authority: ctx.sender_vault,
        amount,
    };
    let event = TransferEvent {
        sender: ctx.sender_registry.name.clone(),
        receiver: ctx.receiver_registry.name.clone(),
        amount,
        memo: memo_or_empty(memo),
        timestamp: clock.unix_timestamp,
    };
    Ok((movement, event))
}

} // verus!
