use solclaw::address::name_hash;
use solclaw::{
    transfer_by_name, Address, AgentRegistry, Clock, SolclawError, TransferByName, TransferEvent,
    VaultTransfer,
};

fn id(n: u8) -> Address {
    Address { bytes: [n; 32] }
}

fn agent(name: &str, authority: Address, vault: Address) -> AgentRegistry {
    AgentRegistry {
        name_hash: name_hash(name),
        name: name.to_string(),
        authority,
        vault,
        created_at: 0,
        total_sent: 0,
        total_received: 0,
        bump: 255,
        vault_bump: 255,
        daily_limit: 0,
        daily_spent: 0,
        last_spend_day: 0,
    }
}

fn alice_to_bob() -> TransferByName {
    TransferByName {
        sender_registry: agent("alice", id(1), id(11)),
        sender_vault: id(11),
        receiver_registry: agent("bob", id(2), id(12)),
        receiver_vault: id(12),
        authority: id(1),
    }
}

#[test]
fn transfer_moves_and_records() {
    let mut ctx = alice_to_bob();
    let (movement, event) = transfer_by_name(
        &mut ctx,
        &Clock { unix_timestamp: 1000 },
        250,
        Some("lunch".to_string()),
    )
    .unwrap();
    assert_eq!(
        movement,
        VaultTransfer { from: id(11), to: id(12), authority: id(11), amount: 250 }
    );
    assert_eq!(
        event,
        TransferEvent {
            sender: "alice".to_string(),
            receiver: "bob".to_string(),
            amount: 250,
            memo: "lunch".to_string(),
            timestamp: 1000,
        }
    );
    assert_eq!(ctx.sender_registry.total_sent, 250);
    assert_eq!(ctx.sender_registry.total_received, 0);
    assert_eq!(ctx.receiver_registry.total_received, 250);
    assert_eq!(ctx.receiver_registry.total_sent, 0);
    // Nothing is recorded against a cap that is not set.
    assert_eq!(ctx.sender_registry.daily_spent, 0);
    assert_eq!(ctx.sender_registry.last_spend_day, 0);
}

#[test]
fn transfer_without_memo_records_an_empty_one() {
    let mut ctx = alice_to_bob();
    let (_, event) =
        transfer_by_name(&mut ctx, &Clock { unix_timestamp: 1000 }, 1, None).unwrap();
    assert_eq!(event.memo, "");
}

#[test]
fn transfer_refuses_zero() {
    let mut ctx = alice_to_bob();
    let before = ctx.clone();
    assert_eq!(
        transfer_by_name(&mut ctx, &Clock { unix_timestamp: 1000 }, 0, None),
        Err(SolclawError::InvalidAmount)
    );
    assert_eq!(ctx, before);
}

#[test]
fn transfer_accepts_a_memo_of_128_bytes_and_refuses_129() {
    let mut ctx = alice_to_bob();
    assert!(transfer_by_name(
        &mut ctx,
        &Clock { unix_timestamp: 1000 },
        5,
        Some("m".repeat(128))
    )
    .is_ok());
    let before = ctx.clone();
    assert_eq!(
        transfer_by_name(&mut ctx, &Clock { unix_timestamp: 1000 }, 5, Some("m".repeat(129))),
        Err(SolclawError::MemoTooLong)
    );
    assert_eq!(ctx, before);
}

#[test]
fn transfer_refuses_a_stranger() {
    let mut ctx = alice_to_bob();
    ctx.authority = id(2);
    let before = ctx.clone();
    assert_eq!(
        transfer_by_name(&mut ctx, &Clock { unix_timestamp: 1000 }, 5, None),
        Err(SolclawError::Unauthorized)
    );
    assert_eq!(ctx, before);
}

#[test]
fn transfer_checks_in_order() {
    // Zero amount, long memo and a stranger at once: the amount is reported.
    let mut ctx = alice_to_bob();
    ctx.authority = id(2);
    assert_eq!(
        transfer_by_name(&mut ctx, &Clock { unix_timestamp: 1000 }, 0, Some("m".repeat(200))),
        Err(SolclawError::InvalidAmount)
    );
    assert_eq!(
        transfer_by_name(&mut ctx, &Clock { unix_timestamp: 1000 }, 1, Some("m".repeat(200))),
        Err(SolclawError::MemoTooLong)
    );
}

#[test]
fn transfer_is_charged_against_the_senders_cap() {
    let mut ctx = alice_to_bob();
    ctx.sender_registry.daily_limit = 300;
    ctx.receiver_registry.daily_limit = 1;
    let now = Clock { unix_timestamp: 5 * 86400 + 1 };
    assert!(transfer_by_name(&mut ctx, &now, 200, None).is_ok());
    assert_eq!(ctx.sender_registry.daily_spent, 200);
    assert_eq!(ctx.sender_registry.last_spend_day, 5);
    // The receiver's cap plays no part.
    assert_eq!(ctx.receiver_registry.daily_spent, 0);
    let before = ctx.clone();
    assert_eq!(
        transfer_by_name(&mut ctx, &now, 101, None),
        Err(SolclawError::SpendingCapExceeded)
    );
    assert_eq!(ctx, before);
    assert!(transfer_by_name(&mut ctx, &now, 100, None).is_ok());
    assert_eq!(ctx.sender_registry.daily_spent, 300);
    assert_eq!(ctx.sender_registry.total_sent, 300);
    assert_eq!(ctx.receiver_registry.total_received, 300);
}

#[test]
fn lifetime_totals_clamp_at_the_maximum() {
    let mut ctx = alice_to_bob();
    ctx.sender_registry.total_sent = u64::MAX - 10;
    ctx.receiver_registry.total_received = u64::MAX;
    assert!(transfer_by_name(&mut ctx, &Clock { unix_timestamp: 0 }, 11, None).is_ok());
    assert_eq!(ctx.sender_registry.total_sent, u64::MAX);
    assert_eq!(ctx.receiver_registry.total_received, u64::MAX);
}
