use anchor_lang::prelude::Pubkey;
use solclaw::address::name_hash;
use solclaw::split::{split_amount, split_amounts, sum_shares};
use solclaw::{
    split_payment, Address, AgentRegistry, Clock, SolclawError, SplitPayment, SplitRecipient,
    VaultTransfer,
};

fn ident(n: u8) -> Address {
    Address { bytes: [n; 32] }
}

fn ledger() -> Address {
    ident(77)
}

fn place(namespace: &[u8], name: &str) -> Address {
    let (address, _) = Pubkey::find_program_address(
        &[namespace, name.as_bytes()],
        &Pubkey::new_from_array(ledger().bytes),
    );
    Address { bytes: address.to_bytes() }
}

fn payer() -> AgentRegistry {
    AgentRegistry {
        name_hash: name_hash("alice"),
        name: "alice".to_string(),
        authority: ident(1),
        vault: place(b"vault", "alice"),
        created_at: 0,
        total_sent: 0,
        total_received: 0,
        bump: 255,
        vault_bump: 255,
        daily_limit: 0,
        daily_spent: 0,
        last_spend_day: 0,
    }
}

fn shares(list: &[(&str, u16)]) -> Vec<SplitRecipient> {
    list.iter()
        .map(|(name, share_bps)| SplitRecipient { name: name.to_string(), share_bps: *share_bps })
        .collect()
}

fn split_among(list: &[(&str, u16)]) -> SplitPayment {
    let mut remaining_accounts = Vec::new();
    for (name, _) in list {
        remaining_accounts.push(place(b"agent", name));
        remaining_accounts.push(place(b"vault", name));
    }
    SplitPayment {
        sender_registry: payer(),
        sender_vault: place(b"vault", "alice"),
        authority: ident(1),
        program_id: ledger(),
        remaining_accounts,
    }
}

fn leg(to: &str, amount: u64) -> VaultTransfer {
    VaultTransfer {
        from: place(b"vault", "alice"),
        to: place(b"vault", to),
        authority: place(b"vault", "alice"),
        amount,
    }
}

#[test]
fn share_is_rounded_down() {
    assert_eq!(split_amount(1_000_000, 3333), 333_300);
    assert_eq!(split_amount(1_000_000, 6667), 666_700);
    assert_eq!(split_amount(10, 3333), 3);
    assert_eq!(split_amount(1, 9999), 0);
    assert_eq!(split_amount(0, 10000), 0);
    assert_eq!(split_amount(12345, 10000), 12345);
    assert_eq!(split_amount(12345, 0), 0);
}

#[test]
fn share_of_the_largest_total_does_not_overflow() {
    assert_eq!(split_amount(u64::MAX, 10000), u64::MAX);
    assert_eq!(split_amount(u64::MAX, 5000), u64::MAX / 2);
    assert_eq!(split_amount(u64::MAX, 1), 1_844_674_407_370_955);
}

#[test]
fn shares_are_summed() {
    assert_eq!(sum_shares(&shares(&[("b", 3333), ("c", 6667)])), 10000);
    assert_eq!(sum_shares(&shares(&[("b", 65535), ("c", 65535)])), 131070);
    assert_eq!(sum_shares(&Vec::new()), 0);
}

#[test]
fn last_recipient_takes_the_rest() {
    assert_eq!(
        split_amounts(1_000_000, &shares(&[("b", 3333), ("c", 6667)])),
        Ok(vec![333_300, 666_700])
    );
    assert_eq!(
        split_amounts(100, &shares(&[("b", 3333), ("c", 3333), ("d", 3334)])),
        Ok(vec![33, 33, 34])
    );
    assert_eq!(
        split_amounts(10, &shares(&[("b", 3333), ("c", 3333), ("d", 3334)])),
        Ok(vec![3, 3, 4])
    );
}

#[test]
fn legs_add_up_to_the_total() {
    let partitions: Vec<Vec<(&str, u16)>> = vec![
        vec![("b", 5000), ("c", 5000)],
        vec![("b", 1), ("c", 9999)],
        vec![("b", 9999), ("c", 1)],
        vec![("b", 3333), ("c", 3333), ("d", 3334)],
        vec![("b", 0), ("c", 10000)],
        vec![("b", 10000), ("c", 0)],
        vec![
            ("a", 1000), ("b", 1000), ("c", 1000), ("d", 1000), ("e", 1000),
            ("f", 1000), ("g", 1000), ("h", 1000), ("i", 1000), ("j", 1000),
        ],
        vec![("b", 1234), ("c", 4321), ("d", 4445)],
    ];
    let totals = [0u64, 1, 2, 3, 7, 9, 10, 99, 9_999, 10_000, 10_001, 1_000_000, u64::MAX - 1, u64::MAX];
    for partition in &partitions {
        for total in totals {
            let legs = split_amounts(total, &shares(partition)).unwrap();
            assert_eq!(legs.len(), partition.len());
            let sum: u128 = legs.iter().map(|l| *l as u128).sum();
            assert_eq!(sum, total as u128);
        }
    }
}

#[test]
fn legs_that_round_to_nothing() {
    assert_eq!(split_amounts(1, &shares(&[("b", 5000), ("c", 5000)])), Ok(vec![0, 1]));
    assert_eq!(
        split_amounts(2, &shares(&[("b", 3333), ("c", 3333), ("d", 3334)])),
        Ok(vec![0, 0, 2])
    );
    assert_eq!(split_amounts(5, &shares(&[("b", 10000), ("c", 0)])), Ok(vec![5, 0]));
    assert_eq!(split_amounts(0, &shares(&[("b", 5000), ("c", 5000)])), Ok(vec![0, 0]));
}

#[test]
fn shares_must_add_up_to_the_whole() {
    assert_eq!(
        split_amounts(100, &shares(&[("b", 5000), ("c", 4999)])),
        Err(SolclawError::InvalidSplitShares)
    );
    assert_eq!(
        split_amounts(100, &shares(&[("b", 5000), ("c", 5001)])),
        Err(SolclawError::InvalidSplitShares)
    );
    assert_eq!(split_amounts(100, &Vec::new()), Err(SolclawError::InvalidSplitShares));
    assert_eq!(split_amounts(100, &shares(&[("b", 10000)])), Ok(vec![100]));
}

#[test]
fn split_pays_each_recipient_its_share() {
    let list = [("bob", 3333u16), ("carol", 6667u16)];
    let mut ctx = split_among(&list);
    let (transfers, event) = split_payment(
        &mut ctx,
        &Clock { unix_timestamp: 500 },
        1_000_000,
        shares(&list),
        Some("bonus".to_string()),
    )
    .unwrap();
    assert_eq!(transfers, vec![leg("bob", 333_300), leg("carol", 666_700)]);
    assert_eq!(event.sender, "alice");
    assert_eq!(event.recipients, vec!["bob".to_string(), "carol".to_string()]);
    assert_eq!(event.amounts, vec![333_300, 666_700]);
    assert_eq!(event.total, 1_000_000);
    assert_eq!(event.memo, "bonus");
    assert_eq!(event.timestamp, 500);
    assert_eq!(ctx.sender_registry.total_sent, 1_000_000);
}

#[test]
fn split_skips_recipients_that_get_nothing() {
    // The supplied locations of a recipient that gets nothing are not looked at.
    let list = [("bob", 5000u16), ("carol", 5000u16)];
    let mut ctx = split_among(&list);
    ctx.remaining_accounts[0] = ident(200);
    ctx.remaining_accounts[1] = ident(201);
    let (transfers, event) =
        split_payment(&mut ctx, &Clock { unix_timestamp: 500 }, 1, shares(&list), None).unwrap();
    assert_eq!(transfers, vec![leg("carol", 1)]);
    assert_eq!(event.recipients, vec!["carol".to_string()]);
    assert_eq!(event.amounts, vec![1]);
    assert_eq!(event.total, 1);
    assert_eq!(event.memo, "");
    assert_eq!(ctx.sender_registry.total_sent, 1);
}

#[test]
fn split_of_nothing_moves_nothing() {
    let list = [("bob", 5000u16), ("carol", 5000u16)];
    let mut ctx = split_among(&list);
    let (transfers, event) =
        split_payment(&mut ctx, &Clock { unix_timestamp: 500 }, 0, shares(&list), None).unwrap();
    assert!(transfers.is_empty());
    assert!(event.recipients.is_empty());
    assert!(event.amounts.is_empty());
    assert_eq!(event.total, 0);
    assert_eq!(ctx.sender_registry.total_sent, 0);
}

#[test]
fn split_takes_2_to_10_recipients() {
    let one = [("bob", 10000u16)];
    let mut ctx = split_among(&one);
    let before = ctx.clone();
    assert_eq!(
        split_payment(&mut ctx, &Clock { unix_timestamp: 0 }, 100, shares(&one), None),
        Err(SolclawError::TooManySplitRecipients)
    );
    assert_eq!(ctx, before);

    let names = ["a", "b", "c", "d", "e", "f", "g", "h", "i", "j", "k"];
    let eleven: Vec<(&str, u16)> =
        names.iter().enumerate().map(|(i, n)| (*n, if i == 0 { 0 } else { 1000 })).collect();
    let mut ctx = split_among(&eleven);
    assert_eq!(
        split_payment(&mut ctx, &Clock { unix_timestamp: 0 }, 100, shares(&eleven), None),
        Err(SolclawError::TooManySplitRecipients)
    );

    let ten: Vec<(&str, u16)> = names[..10].iter().map(|n| (*n, 1000u16)).collect();
    let mut ctx = split_among(&ten);
    let (transfers, _) =
        split_payment(&mut ctx, &Clock { unix_timestamp: 0 }, 1005, shares(&ten), None).unwrap();
    assert_eq!(transfers.len(), 10);
    assert_eq!(transfers[0].amount, 100);
    assert_eq!(transfers[9].amount, 105);
}

#[test]
fn split_refuses_a_long_memo() {
    let list = [("bob", 5000u16), ("carol", 5000u16)];
    let mut ctx = split_among(&list);
    assert_eq!(
        split_payment(
            &mut ctx,
            &Clock { unix_timestamp: 0 },
            100,
            shares(&list),
            Some("x".repeat(129))
        ),
        Err(SolclawError::MemoTooLong)
    );
}

#[test]
fn split_refuses_shares_that_do_not_add_up() {
    let list = [("bob", 5000u16), ("carol", 4000u16)];
    let mut ctx = split_among(&list);
    let before = ctx.clone();
    assert_eq!(
        split_payment(&mut ctx, &Clock { unix_timestamp: 0 }, 100, shares(&list), None),
        Err(SolclawError::InvalidSplitShares)
    );
    assert_eq!(ctx, before);
}

#[test]
fn split_refuses_a_stranger_after_the_shares() {
    let list = [("bob", 5000u16), ("carol", 5000u16)];
    let mut ctx = split_among(&list);
    ctx.authority = ident(9);
    assert_eq!(
        split_payment(&mut ctx, &Clock { unix_timestamp: 0 }, 100, shares(&list), None),
        Err(SolclawError::Unauthorized)
    );
    let bad = [("bob", 5000u16), ("carol", 1u16)];
    assert_eq!(
        split_payment(&mut ctx, &Clock { unix_timestamp: 0 }, 100, shares(&bad), None),
        Err(SolclawError::InvalidSplitShares)
    );
}

#[test]
fn split_wants_two_locations_for_each_recipient() {
    let list = [("bob", 5000u16), ("carol", 5000u16)];
    let mut ctx = split_among(&list);
    ctx.remaining_accounts.pop();
    assert_eq!(
        split_payment(&mut ctx, &Clock { unix_timestamp: 0 }, 100, shares(&list), None),
        Err(SolclawError::InvalidRemainingAccounts)
    );
    let mut ctx = split_among(&list);
    ctx.remaining_accounts.push(ident(3));
    assert_eq!(
        split_payment(&mut ctx, &Clock { unix_timestamp: 0 }, 100, shares(&list), None),
        Err(SolclawError::InvalidRemainingAccounts)
    );
}

#[test]
fn split_charges_the_cap_once_with_the_total() {
    let list = [("bob", 5000u16), ("carol", 5000u16)];
    let mut ctx = split_among(&list);
    ctx.sender_registry.daily_limit = 100;
    let now = Clock { unix_timestamp: 2 * 86400 };
    assert!(split_payment(&mut ctx, &now, 100, shares(&list), None).is_ok());
    assert_eq!(ctx.sender_registry.daily_spent, 100);
    assert_eq!(ctx.sender_registry.last_spend_day, 2);
    let before = ctx.clone();
    assert_eq!(
        split_payment(&mut ctx, &now, 1, shares(&list), None),
        Err(SolclawError::SpendingCapExceeded)
    );
    assert_eq!(ctx, before);
}

#[test]
fn split_refuses_a_wrong_record_location() {
    let list = [("bob", 5000u16), ("carol", 5000u16)];
    let mut ctx = split_among(&list);
    ctx.remaining_accounts[2] = place(b"agent", "mallory");
    ctx.sender_registry.daily_limit = 1000;
    let before = ctx.clone();
    assert_eq!(
        split_payment(&mut ctx, &Clock { unix_timestamp: 0 }, 100, shares(&list), None),
        Err(SolclawError::NameMismatch)
    );
    // Nothing is charged for a split that is refused.
    assert_eq!(ctx, before);
}

#[test]
fn split_refuses_a_wrong_vault_location() {
    let list = [("bob", 5000u16), ("carol", 5000u16)];
    let mut ctx = split_among(&list);
    ctx.remaining_accounts[1] = place(b"vault", "mallory");
    let before = ctx.clone();
    assert_eq!(
        split_payment(&mut ctx, &Clock { unix_timestamp: 0 }, 100, shares(&list), None),
        Err(SolclawError::VaultMismatch)
    );
    assert_eq!(ctx, before);
}

#[test]
fn split_reports_the_first_recipient_that_does_not_match() {
    let list = [("bob", 5000u16), ("carol", 5000u16)];
    let mut ctx = split_among(&list);
    ctx.remaining_accounts[1] = ident(1);
    ctx.remaining_accounts[2] = ident(2);
    assert_eq!(
        split_payment(&mut ctx, &Clock { unix_timestamp: 0 }, 100, shares(&list), None),
        Err(SolclawError::VaultMismatch)
    );
}
