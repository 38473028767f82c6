use solclaw::address::name_hash;
use solclaw::{
    cancel_invoice, create_invoice, init_invoice_counter, pay_invoice, reject_invoice, Address,
    AgentRegistry, CancelInvoice, Clock, CreateInvoice, InitInvoiceCounter, Invoice,
    InvoiceCounter, PayInvoice, RejectInvoice, SolclawError, VaultTransfer,
};

fn a(n: u8) -> Address {
    Address { bytes: [n; 32] }
}

fn person(name: &str, authority: Address, vault: Address) -> AgentRegistry {
    AgentRegistry {
        name_hash: name_hash(name),
        name: name.to_string(),
        authority,
        vault,
        created_at: 0,
        total_sent: 0,
        total_received: 0,
        bump: 255,
        vault_bump: 255,
        daily_limit: 0,
        daily_spent: 0,
        last_spend_day: 0,
    }
}

fn blank_invoice() -> Invoice {
    Invoice {
        id: 0,
        requester: a(0),
        payer: a(0),
        requester_name: String::new(),
        payer_name: String::new(),
        amount: 0,
        memo: String::new(),
        status: Invoice::STATUS_PENDING,
        created_at: 0,
        expires_at: 0,
        paid_at: 0,
        authority: a(0),
        bump: 0,
    }
}

// requester: alice (controller 1, record 101, vault 11)
// payer: bob (controller 2, record 102, vault 12)
fn request(counter: InvoiceCounter) -> CreateInvoice {
    CreateInvoice {
        invoice: blank_invoice(),
        counter,
        requester_registry: person("alice", a(1), a(11)),
        requester_registry_key: a(101),
        payer_registry: person("bob", a(2), a(12)),
        payer_registry_key: a(102),
        authority: a(1),
        invoice_bump: 248,
    }
}

fn invoice_of(amount: u64, now: i64, expires_in: i64) -> Invoice {
    let mut ctx = request(InvoiceCounter { count: 5, bump: 1 });
    create_invoice(
        &mut ctx,
        &Clock { unix_timestamp: now },
        "bob".to_string(),
        amount,
        "work".to_string(),
        expires_in,
    )
    .unwrap();
    ctx.invoice
}

fn payment(invoice: Invoice) -> PayInvoice {
    PayInvoice {
        invoice,
        payer_registry: person("bob", a(2), a(12)),
        payer_registry_key: a(102),
        requester_registry: person("alice", a(1), a(11)),
        requester_registry_key: a(101),
        payer_vault: a(12),
        requester_vault: a(11),
        authority: a(2),
    }
}

fn rejection(invoice: Invoice) -> RejectInvoice {
    RejectInvoice {
        invoice,
        payer_registry: person("bob", a(2), a(12)),
        payer_registry_key: a(102),
        authority: a(2),
    }
}

fn cancellation(invoice: Invoice) -> CancelInvoice {
    CancelInvoice { invoice, authority: a(1) }
}

#[test]
fn counter_starts_at_zero() {
    let mut ctx = InitInvoiceCounter {
        counter: InvoiceCounter { count: 99, bump: 0 },
        counter_bump: 247,
    };
    assert_eq!(init_invoice_counter(&mut ctx), Ok(()));
    assert_eq!(ctx.counter, InvoiceCounter { count: 0, bump: 247 });
    assert_eq!(ctx.counter_bump, 247);
}

#[test]
fn create_fills_the_invoice_and_moves_the_counter() {
    let mut ctx = request(InvoiceCounter { count: 5, bump: 1 });
    let event = create_invoice(
        &mut ctx,
        &Clock { unix_timestamp: 1000 },
        "bob".to_string(),
        750,
        "work".to_string(),
        3600,
    )
    .unwrap();
    assert_eq!(
        ctx.invoice,
        Invoice {
            id: 5,
            requester: a(101),
            payer: a(102),
            requester_name: "alice".to_string(),
            payer_name: "bob".to_string(),
            amount: 750,
            memo: "work".to_string(),
            status: Invoice::STATUS_PENDING,
            created_at: 1000,
            expires_at: 4600,
            paid_at: 0,
            authority: a(1),
            bump: 248,
        }
    );
    assert_eq!(ctx.counter, InvoiceCounter { count: 6, bump: 1 });
    assert_eq!(event.invoice_id, 5);
    assert_eq!(event.requester, "alice");
    assert_eq!(event.payer, "bob");
    assert_eq!(event.amount, 750);
    assert_eq!(event.memo, "work");
    assert_eq!(event.expires_at, 4600);
    assert_eq!(event.timestamp, 1000);
}

#[test]
fn ids_are_sequential_and_never_reused() {
    let mut counter = InitInvoiceCounter {
        counter: InvoiceCounter { count: 0, bump: 0 },
        counter_bump: 1,
    };
    init_invoice_counter(&mut counter).unwrap();
    let mut ctx = request(counter.counter);
    let now = Clock { unix_timestamp: 1 };
    let first =
        create_invoice(&mut ctx, &now, "bob".to_string(), 1, String::new(), 0).unwrap();
    assert_eq!(first.invoice_id, 0);
    // The first invoice is cancelled; its id is not given again.
    let mut cancel = cancellation(ctx.invoice.clone());
    cancel_invoice(&mut cancel, &now).unwrap();
    let second =
        create_invoice(&mut ctx, &now, "bob".to_string(), 1, String::new(), 0).unwrap();
    assert_eq!(second.invoice_id, 1);
    // A refused request takes no id.
    assert!(create_invoice(&mut ctx, &now, "bob".to_string(), 0, String::new(), 0).is_err());
    let third =
        create_invoice(&mut ctx, &now, "bob".to_string(), 1, String::new(), 0).unwrap();
    assert_eq!(third.invoice_id, 2);
    assert_eq!(ctx.counter.count, 3);
}

#[test]
fn zero_expiry_means_never() {
    let invoice = invoice_of(10, 1000, 0);
    assert_eq!(invoice.expires_at, 0);
    let mut ctx = payment(invoice);
    assert!(pay_invoice(&mut ctx, &Clock { unix_timestamp: i64::MAX }).is_ok());
}

#[test]
fn create_invoice_refusals() {
    let now = Clock { unix_timestamp: 1000 };
    let mut ctx = request(InvoiceCounter { count: 5, bump: 1 });
    let before = ctx.clone();
    assert_eq!(
        create_invoice(&mut ctx, &now, "bob".to_string(), 0, String::new(), 0),
        Err(SolclawError::InvalidAmount)
    );
    assert_eq!(
        create_invoice(&mut ctx, &now, "bob".to_string(), 1, "x".repeat(129), 0),
        Err(SolclawError::MemoTooLong)
    );
    assert_eq!(
        create_invoice(&mut ctx, &now, "bob".to_string(), 1, String::new(), -1),
        Err(SolclawError::InvalidExpiry)
    );
    assert_eq!(
        create_invoice(&mut ctx, &now, "carol".to_string(), 1, String::new(), 0),
        Err(SolclawError::NameMismatch)
    );
    assert_eq!(
        create_invoice(&mut ctx, &now, "bob".to_string(), 1, String::new(), i64::MAX),
        Err(SolclawError::Overflow)
    );
    assert_eq!(ctx, before);

    let mut ctx = request(InvoiceCounter { count: 5, bump: 1 });
    ctx.authority = a(2);
    assert_eq!(
        create_invoice(&mut ctx, &now, "bob".to_string(), 1, String::new(), 0),
        Err(SolclawError::Unauthorized)
    );

    let mut ctx = request(InvoiceCounter { count: 5, bump: 1 });
    ctx.payer_registry = person("alice", a(1), a(11));
    ctx.payer_registry_key = a(101);
    assert_eq!(
        create_invoice(&mut ctx, &now, "alice".to_string(), 1, String::new(), 0),
        Err(SolclawError::CannotInvoiceSelf)
    );

    let mut ctx = request(InvoiceCounter { count: u64::MAX, bump: 1 });
    let before = ctx.clone();
    assert_eq!(
        create_invoice(&mut ctx, &now, "bob".to_string(), 1, String::new(), 0),
        Err(SolclawError::Overflow)
    );
    assert_eq!(ctx, before);
}

#[test]
fn create_accepts_a_memo_of_128_bytes() {
    let mut ctx = request(InvoiceCounter { count: 5, bump: 1 });
    assert!(create_invoice(
        &mut ctx,
        &Clock { unix_timestamp: 1000 },
        "bob".to_string(),
        1,
        "x".repeat(128),
        0
    )
    .is_ok());
}

#[test]
fn pay_moves_and_marks_paid() {
    let mut ctx = payment(invoice_of(750, 1000, 3600));
    let (movement, event) = pay_invoice(&mut ctx, &Clock { unix_timestamp: 2000 }).unwrap();
    assert_eq!(
        movement,
        VaultTransfer { from: a(12), to: a(11), authority: a(12), amount: 750 }
    );
    assert_eq!(ctx.invoice.status, Invoice::STATUS_PAID);
    assert_eq!(ctx.invoice.paid_at, 2000);
    assert_eq!(ctx.payer_registry.total_sent, 750);
    assert_eq!(ctx.requester_registry.total_received, 750);
    assert_eq!(event.invoice_id, 5);
    assert_eq!(event.requester, "alice");
    assert_eq!(event.payer, "bob");
    assert_eq!(event.amount, 750);
    assert_eq!(event.memo, "work");
    assert_eq!(event.timestamp, 2000);
}

#[test]
fn pay_at_the_expiry_time_and_after() {
    let mut ctx = payment(invoice_of(750, 1000, 3600));
    let before = ctx.clone();
    assert_eq!(
        pay_invoice(&mut ctx, &Clock { unix_timestamp: 4601 }),
        Err(SolclawError::InvoiceExpired)
    );
    // The refusal leaves the invoice pending.
    assert_eq!(ctx, before);
    assert_eq!(ctx.invoice.status, Invoice::STATUS_PENDING);
    assert!(pay_invoice(&mut ctx, &Clock { unix_timestamp: 4600 }).is_ok());
}

#[test]
fn an_expired_invoice_can_still_be_rejected_or_cancelled() {
    let invoice = invoice_of(750, 1000, 3600);
    let late = Clock { unix_timestamp: 9999 };
    let mut reject = rejection(invoice.clone());
    assert!(reject_invoice(&mut reject, &late).is_ok());
    let mut cancel = cancellation(invoice);
    assert!(cancel_invoice(&mut cancel, &late).is_ok());
}

#[test]
fn pay_refuses_a_stranger() {
    let mut ctx = payment(invoice_of(750, 1000, 3600));
    ctx.authority = a(1);
    let before = ctx.clone();
    assert_eq!(
        pay_invoice(&mut ctx, &Clock { unix_timestamp: 2000 }),
        Err(SolclawError::Unauthorized)
    );
    assert_eq!(ctx, before);
}

#[test]
fn pay_needs_the_records_of_the_invoice() {
    // Another agent pays in the payer's place.
    let mut ctx = payment(invoice_of(750, 1000, 3600));
    ctx.payer_registry = person("carol", a(3), a(13));
    ctx.payer_registry_key = a(103);
    ctx.payer_vault = a(13);
    ctx.authority = a(3);
    let before = ctx.clone();
    assert_eq!(
        pay_invoice(&mut ctx, &Clock { unix_timestamp: 2000 }),
        Err(SolclawError::InvoiceMismatch)
    );
    assert_eq!(ctx, before);

    // The payment would go to another agent than the requester.
    let mut ctx = payment(invoice_of(750, 1000, 3600));
    ctx.requester_registry = person("carol", a(3), a(13));
    ctx.requester_registry_key = a(103);
    ctx.requester_vault = a(13);
    assert_eq!(
        pay_invoice(&mut ctx, &Clock { unix_timestamp: 2000 }),
        Err(SolclawError::InvoiceMismatch)
    );
}

#[test]
fn pay_needs_the_vaults_of_the_records() {
    let mut ctx = payment(invoice_of(750, 1000, 3600));
    ctx.payer_vault = a(13);
    let before = ctx.clone();
    assert_eq!(
        pay_invoice(&mut ctx, &Clock { unix_timestamp: 2000 }),
        Err(SolclawError::VaultMismatch)
    );
    assert_eq!(ctx, before);

    let mut ctx = payment(invoice_of(750, 1000, 3600));
    ctx.requester_vault = a(13);
    assert_eq!(
        pay_invoice(&mut ctx, &Clock { unix_timestamp: 2000 }),
        Err(SolclawError::VaultMismatch)
    );
}

#[test]
fn pay_is_charged_against_the_payers_cap() {
    let mut ctx = payment(invoice_of(750, 1000, 3600));
    ctx.payer_registry.daily_limit = 749;
    let before = ctx.clone();
    assert_eq!(
        pay_invoice(&mut ctx, &Clock { unix_timestamp: 2000 }),
        Err(SolclawError::SpendingCapExceeded)
    );
    assert_eq!(ctx, before);
    ctx.payer_registry.daily_limit = 750;
    assert!(pay_invoice(&mut ctx, &Clock { unix_timestamp: 2000 }).is_ok());
    assert_eq!(ctx.payer_registry.daily_spent, 750);
}

#[test]
fn reject_marks_rejected() {
    let mut ctx = rejection(invoice_of(750, 1000, 3600));
    let event = reject_invoice(&mut ctx, &Clock { unix_timestamp: 2000 }).unwrap();
    assert_eq!(ctx.invoice.status, Invoice::STATUS_REJECTED);
    assert_eq!(ctx.invoice.paid_at, 0);
    assert_eq!(event.invoice_id, 5);
    assert_eq!(event.requester, "alice");
    assert_eq!(event.payer, "bob");
    assert_eq!(event.amount, 750);
    assert_eq!(event.timestamp, 2000);
}

#[test]
fn reject_refusals() {
    let mut ctx = rejection(invoice_of(750, 1000, 3600));
    ctx.authority = a(1);
    let before = ctx.clone();
    assert_eq!(
        reject_invoice(&mut ctx, &Clock { unix_timestamp: 2000 }),
        Err(SolclawError::Unauthorized)
    );
    assert_eq!(ctx, before);

    // Another agent's controller, with that agent's record.
    let mut ctx = rejection(invoice_of(750, 1000, 3600));
    ctx.payer_registry = person("carol", a(3), a(13));
    ctx.payer_registry_key = a(103);
    ctx.authority = a(3);
    let before = ctx.clone();
    assert_eq!(
        reject_invoice(&mut ctx, &Clock { unix_timestamp: 2000 }),
        Err(SolclawError::InvoiceMismatch)
    );
    assert_eq!(ctx, before);
}

#[test]
fn cancel_marks_cancelled() {
    let mut ctx = cancellation(invoice_of(750, 1000, 3600));
    let event = cancel_invoice(&mut ctx, &Clock { unix_timestamp: 2000 }).unwrap();
    assert_eq!(ctx.invoice.status, Invoice::STATUS_CANCELLED);
    assert_eq!(event.invoice_id, 5);
    assert_eq!(event.requester, "alice");
    assert_eq!(event.payer, "bob");
    assert_eq!(event.amount, 750);
    assert_eq!(event.timestamp, 2000);
}

#[test]
fn cancel_refuses_a_stranger() {
    let mut ctx = cancellation(invoice_of(750, 1000, 3600));
    ctx.authority = a(2);
    let before = ctx.clone();
    assert_eq!(
        cancel_invoice(&mut ctx, &Clock { unix_timestamp: 2000 }),
        Err(SolclawError::Unauthorized)
    );
    assert_eq!(ctx, before);
}

fn all_fail_not_pending(invoice: &Invoice) {
    let now = Clock { unix_timestamp: 2000 };
    let mut pay = payment(invoice.clone());
    assert_eq!(pay_invoice(&mut pay, &now), Err(SolclawError::InvoiceNotPending));
    assert_eq!(&pay.invoice, invoice);
    let mut reject = rejection(invoice.clone());
    assert_eq!(reject_invoice(&mut reject, &now), Err(SolclawError::InvoiceNotPending));
    assert_eq!(&reject.invoice, invoice);
    let mut cancel = cancellation(invoice.clone());
    assert_eq!(cancel_invoice(&mut cancel, &now), Err(SolclawError::InvoiceNotPending));
    assert_eq!(&cancel.invoice, invoice);
    // Also for a caller that would be refused anyway.
    let mut cancel = cancellation(invoice.clone());
    cancel.authority = a(9);
    assert_eq!(cancel_invoice(&mut cancel, &now), Err(SolclawError::InvoiceNotPending));
}

#[test]
fn after_payment_nothing_more_goes_through() {
    let mut ctx = payment(invoice_of(750, 1000, 3600));
    pay_invoice(&mut ctx, &Clock { unix_timestamp: 2000 }).unwrap();
    all_fail_not_pending(&ctx.invoice);
}

#[test]
fn after_rejection_nothing_more_goes_through() {
    let mut ctx = rejection(invoice_of(750, 1000, 3600));
    reject_invoice(&mut ctx, &Clock { unix_timestamp: 2000 }).unwrap();
    all_fail_not_pending(&ctx.invoice);
}

#[test]
fn after_cancellation_nothing_more_goes_through() {
    let mut ctx = cancellation(invoice_of(750, 1000, 3600));
    cancel_invoice(&mut ctx, &Clock { unix_timestamp: 2000 }).unwrap();
    all_fail_not_pending(&ctx.invoice);
}

#[test]
fn an_invoice_marked_expired_is_not_pending() {
    let mut invoice = invoice_of(750, 1000, 3600);
    invoice.status = Invoice::STATUS_EXPIRED;
    all_fail_not_pending(&invoice);
}

#[test]
fn status_values() {
    assert_eq!(Invoice::STATUS_PENDING, 0);
    assert_eq!(Invoice::STATUS_PAID, 1);
    assert_eq!(Invoice::STATUS_REJECTED, 2);
    assert_eq!(Invoice::STATUS_CANCELLED, 3);
    assert_eq!(Invoice::STATUS_EXPIRED, 4);
}
