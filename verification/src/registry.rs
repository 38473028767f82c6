use crate::address::{name_hash, padded_name};
use crate::context::{Deposit, RegisterAgent, SetDailyLimit, Withdraw};
use crate::error::SolclawError;
use crate::events::DailyLimitSetEvent;
use crate::memo::byte_len;
use crate::state::{AgentRegistry, Clock, VaultTransfer};
use vstd::prelude::*;
use vstd::utf8::encode_utf8;

verus! {

/// The record of an agent registered at `now` under `name`, with the index
/// key `name_hash`: bound to the vault and the controller of the request,
/// with all totals at zero and no daily limit.
pub open spec fn registered_agent(
    ctx: RegisterAgent,
    now: i64,
    name: String,
    name_hash: [u8; 32],
) -> AgentRegistry {
    AgentRegistry {
        name_hash,
        name,
        authority: ctx.authority,
        vault: ctx.vault,
        created_at: now,
        total_sent: 0,
        total_received: 0,
        bump: ctx.agent_registry_bump,
        vault_bump: ctx.vault_bump,
        daily_limit: 0,
        daily_spent: 0,
        last_spend_day: 0,
    }
}

/// Registers an agent under `name`, which must be 1 to 32 bytes long, and
/// binds the vault to it.
pub fn register_agent(ctx: &mut RegisterAgent, clock: &Clock, name: String) -> (r: Result<
    (),
    SolclawError,
>)
    ensures
        match r {
            Ok(()) => {
                &&& 1 <= byte_len(name@) <= 32
                &&& final(ctx).agent_registry.name_hash@ == padded_name(encode_utf8(name@))
                &&& *final(ctx) == (RegisterAgent {
                    agent_registry: registered_agent(
                        *old(ctx),
                        clock.unix_timestamp,
                        name,
                        final(ctx).agent_registry.name_hash,
                    ),
                    ..*old(ctx)
                })
                &&& final(ctx).agent_registry.wf()
            },
            Err(e) => {
                &&& e == SolclawError::InvalidNameLength
                &&& !(1 <= byte_len(name@) <= 32)
                &&& *final(ctx) == *old(ctx)
            },
        },
{
    let length = name.as_str().as_bytes().len();
    if length < 1 || length > 32 {
        return Err(SolclawError::InvalidNameLength);
    }
    let hash = name_hash(name.as_str());
    ctx.agent_registry = AgentRegistry {
        name_hash: hash,
        name,
        authority: ctx.authority,
        vault: ctx.vault,
        created_at: clock.unix_timestamp,
        total_sent: 0,
        total_received: 0,
        bump: ctx.agent_registry_bump,
        vault_bump: ctx.vault_bump,
        daily_limit: 0,
        daily_spent: 0,
        last_spend_day: 0,
    };
    Ok(())
}

/// Funds an agent's vault with `amount` from an outside account. Anyone
/// may fund any vault. Returns the movement for the host to carry out, out
/// of the outside account and signed for by the caller.
pub fn deposit(ctx: &Deposit, amount: u64) -> (r: Result<VaultTransfer, SolclawError>)
    ensures
        r == (if amount == 0 {
            Err::<VaultTransfer, SolclawError>(SolclawError::InvalidAmount)
        } else {
            Ok(
                VaultTransfer {
                    from: ctx.user_token_account,
                    to: ctx.vault,
                    authority: ctx.authority,
                    amount,
                },
            )
        }),
{
    if amount == 0 {
        return Err(SolclawError::InvalidAmount);
    }
    Ok(
        VaultTransfer {
            from: ctx.user_token_account,
            to: ctx.vault,
            authority: ctx.authority,
            amount,
        },
    )
}

/// Takes `amount` out of an agent's vault to an outside account. The
/// caller must be the agent's controller. Returns the movement for the host
/// to carry out, out of the vault and signed for by the vault.
pub fn withdraw(ctx: &Withdraw, amount: u64) -> (r: Result<VaultTransfer, SolclawError>)
    ensures
        r == (if amount == 0 {
            Err::<VaultTransfer, SolclawError>(SolclawError::InvalidAmount)
        } else if ctx.agent_registry.authority != ctx.authority {
            Err(SolclawError::Unauthorized)
        } else {
            Ok(
                VaultTransfer {
                    from: ctx.vault,
                    to: ctx.destination,
                    authority: ctx.vault,
                    amount,
                },
            )
        }),
{
    if amount == 0 {
        return Err(SolclawError::InvalidAmount);
    }
    if ctx.agent_registry.authority != ctx.authority {
        return Err(SolclawError::Unauthorized);
    }
    Ok(VaultTransfer { from: ctx.vault, to: ctx.destination, authority: ctx.vault, amount })
}

/// Sets an agent's daily spending limit; 0 clears it. The caller must be
/// the agent's controller. What the agent has spent in the current
/// day-window stays on record.
pub fn set_daily_limit(ctx: &mut SetDailyLimit, clock: &Clock, limit_usdc: u64) -> (r: Result<
    DailyLimitSetEvent,
    SolclawError,
>)
    ensures
        match r {
            Ok(event) => {
                &&& old(ctx).authority == old(ctx).registry.authority
                &&& *final(ctx) == (SetDailyLimit {
                    registry: AgentRegistry { daily_limit: limit_usdc, ..old(ctx).registry },
                    ..*old(ctx)
                })
                &&& event.agent@ == old(ctx).registry.name@
                &&& event.limit_usdc == limit_usdc
                &&& event.timestamp == clock.unix_timestamp
            },
            Err(e) => {
                &&& e == SolclawError::Unauthorized
                &&& old(ctx).authority != old(ctx).registry.authority
                &&& *final(ctx) == *old(ctx)
            },
        },
{
    if ctx.authority != ctx.registry.authority {
        return Err(SolclawError::Unauthorized);
    }
    ctx.registry.daily_limit = limit_usdc;
    Ok(
        DailyLimitSetEvent {
            agent: ctx.registry.name.clone(),
            limit_usdc,
            timestamp: clock.unix_timestamp,
        },
    )
}

} // verus!
