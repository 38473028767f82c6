use crate::error::SolclawError;
use crate::state::{AgentRegistry, Clock, SECONDS_PER_DAY};
use vstd::prelude::*;

verus! {

/// The day-window that a time falls into: the time divided by the length of
/// a day, rounded toward zero.
pub open spec fn day_of(timestamp: int) -> int {
    if timestamp >= 0 {
        timestamp / 86400
    } else {
        -((-timestamp) / 86400)
    }
}

/// What the agent has spent so far in the day-window of `now`: its running
/// amount if it last spent in that window, and nothing if the window is new.
pub open spec fn spent_in_window(registry: AgentRegistry, now: int) -> int {
    if day_of(now) == registry.last_spend_day {
        registry.daily_spent as int
    } else {
        0
    }
}

/// Why the agent may not spend `amount` at `now`, if it may not. An agent
/// without a limit may always spend. Under a limit, the amount is added to
/// what was spent in the window of `now`; a sum that no longer fits is an
/// overflow, and one above the limit exceeds the cap.
pub open spec fn cap_error(registry: AgentRegistry, amount: u64, now: i64) -> Option<SolclawError> {
    if registry.daily_limit == 0 {
        None
    } else if spent_in_window(registry, now as int) + amount > u64::MAX {
        Some(SolclawError::Overflow)
    } else if spent_in_window(registry, now as int) + amount > registry.daily_limit {
        Some(SolclawError::SpendingCapExceeded)
    } else {
        None
    }
}

/// The agent after an allowed spend of `amount` at `now`: under a limit, the
/// window is that of `now` and the amount is added to what was spent in it.
pub open spec fn cap_applied(registry: AgentRegistry, amount: u64, now: i64) -> AgentRegistry {
    if registry.daily_limit == 0 {
        registry
    } else {
        AgentRegistry {
            daily_spent: (spent_in_window(registry, now as int) + amount) as u64,
            last_spend_day: day_of(now as int) as i64,
            ..registry
        }
    }
}

/// Checks a spend of `amount` against the agent's daily limit without
/// recording it. On success returns the running amount and the day-window
/// that recording the spend would leave in the agent.
pub fn check_spending_cap(registry: &AgentRegistry, amount: u64, clock: &Clock) -> (r: Result<
    (u64, i64),
    SolclawError,
>)
    ensures
        match r {
            Ok((spent, day)) => {
                &&& cap_error(*registry, amount, clock.unix_timestamp) is None
                &&& spent == cap_applied(*registry, amount, clock.unix_timestamp).daily_spent
                &&& day == cap_applied(*registry, amount, clock.unix_timestamp).last_spend_day
            },
            Err(e) => cap_error(*registry, amount, clock.unix_timestamp) == Some(e),
        },
{
    if registry.daily_limit == 0 {
        return Ok((registry.daily_spent, registry.last_spend_day));
    }
    let today = clock.unix_timestamp / SECONDS_PER_DAY;
    let spent: u64 = if today != registry.last_spend_day {
        0
    } else {
        registry.daily_spent
    };
    let new_total = match spent.checked_add(amount) {
        Some(total) => total,
        None => {
            return Err(SolclawError::Overflow);
        },
    };
    if new_total > registry.daily_limit {
        return Err(SolclawError::SpendingCapExceeded);
    }
    Ok((new_total, today))
}

/// Checks a spend of `amount` against the agent's daily limit and records
/// it. A refused spend leaves the agent unchanged.
pub fn check_and_update_spending_cap(
    registry: &mut AgentRegistry,
    amount: u64,
    clock: &Clock,
) -> (r: Result<(), SolclawError>)
    ensures
        match r {
            Ok(()) => {
                &&& cap_error(*old(registry), amount, clock.unix_timestamp) is None
                &&& *final(registry) == cap_applied(*old(registry), amount, clock.unix_timestamp)
            },
            Err(e) => {
                &&& cap_error(*old(registry), amount, clock.unix_timestamp) == Some(e)
                &&& *final(registry) == *old(registry)
            },
        },
{
    let (spent, day) = check_spending_cap(registry, amount, clock)?;
    registry.daily_spent = spent;
    registry.last_spend_day = day;
    Ok(())
}

/// Within one day-window, an agent under a limit that has spent nothing yet
/// may spend any amount up to the limit, and a further spend goes through
/// exactly when both together stay within the limit. A spend that would
/// pass the limit is refused as exceeding the cap (as an overflow where the
/// sum no longer fits in 64 bits).
pub proof fn lemma_cap_within_window(
    registry: AgentRegistry,
    first: u64,
    second: u64,
    t1: i64,
    t2: i64,
)
    requires
        registry.daily_limit > 0,
        spent_in_window(registry, t1 as int) == 0,
        day_of(t1 as int) == day_of(t2 as int),
        first <= registry.daily_limit,
    ensures
        cap_error(registry, first, t1) is None,
        cap_applied(registry, first, t1).daily_spent == first,
        cap_error(cap_applied(registry, first, t1), second, t2) == (if first + second
            <= registry.daily_limit {
            None
        } else if first + second <= u64::MAX {
            Some(SolclawError::SpendingCapExceeded)
        } else {
            Some(SolclawError::Overflow)
        }),
        first + second <= registry.daily_limit ==> cap_applied(
            cap_applied(registry, first, t1),
            second,
            t2,
        ).daily_spent == first + second,
{
}

/// A single spend above the limit is refused as exceeding the cap, whatever
/// the agent has spent before.
pub proof fn lemma_cap_refuses_above_limit(registry: AgentRegistry, amount: u64, now: i64)
    requires
        registry.daily_limit > 0,
        amount > registry.daily_limit,
    ensures
        cap_error(registry, amount, now) is Some,
        spent_in_window(registry, now as int) + amount <= u64::MAX ==> cap_error(
            registry,
            amount,
            now,
        ) == Some(SolclawError::SpendingCapExceeded),
{
}

/// In a day-window other than the one the agent last spent in, whatever it
/// spent before no longer counts: any amount up to the limit goes through.
pub proof fn lemma_cap_resets_on_new_day(registry: AgentRegistry, amount: u64, now: i64)
    requires
        registry.daily_limit > 0,
        day_of(now as int) != registry.last_spend_day,
    ensures
        cap_error(registry, amount, now) == (if amount <= registry.daily_limit {
            None
        } else {
            Some(SolclawError::SpendingCapExceeded)
        }),
        amount <= registry.daily_limit ==> cap_applied(registry, amount, now).daily_spent
            == amount,
{
}

/// An agent without a limit may spend any amount at any time, and nothing
/// is recorded against it.
pub proof fn lemma_no_limit_allows_all(registry: AgentRegistry, amount: u64, now: i64)
    requires
        registry.daily_limit == 0,
    ensures
        cap_error(registry, amount, now) is None,
        cap_applied(registry, amount, now) == registry,
{
}

/// Spending and receiving change an agent's running amounts and totals and
/// nothing else: the name, the controller and the bound vault stay what they
/// were at registration, and the limit stays what its controller set. What
/// an agent receives does not count against its cap.
pub proof fn lemma_spending_keeps_identity(
    registry: AgentRegistry,
    charged: u64,
    sent: u64,
    received: u64,
    now: i64,
)
    ensures
        cap_applied(registry, charged, now).with_sent(sent).same_agent(registry),
        cap_applied(registry, charged, now).with_sent(sent).daily_limit == registry.daily_limit,
        cap_applied(registry, charged, now).with_sent(sent).total_received
            == registry.total_received,
        registry.wf() ==> cap_applied(registry, charged, now).with_sent(sent).wf(),
        registry.with_received(received).same_agent(registry),
        registry.with_received(received).daily_limit == registry.daily_limit,
        registry.with_received(received).daily_spent == registry.daily_spent,
        registry.with_received(received).last_spend_day == registry.last_spend_day,
        registry.with_received(received).total_sent == registry.total_sent,
        registry.wf() ==> registry.with_received(received).wf(),
{
}

} // verus!
