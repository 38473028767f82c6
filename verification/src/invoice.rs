use crate::address::{name_matches, padded_name};
use crate::cap::{cap_applied, cap_error, check_and_update_spending_cap};
use crate::context::{CancelInvoice, CreateInvoice, InitInvoiceCounter, PayInvoice, RejectInvoice};
use crate::error::SolclawError;
use crate::events::{
    InvoiceCancelledEvent,
    InvoiceCreatedEvent,
    InvoicePaidEvent,
    InvoiceRejectedEvent,
};
use crate::memo::{byte_len, text_fits_memo};
use crate::state::{add_to_total, Clock, Invoice, InvoiceCounter, VaultTransfer};
use vstd::prelude::*;
use vstd::utf8::encode_utf8;

verus! {

impl Invoice {
    /// Whether the invoice still waits to be paid, rejected or cancelled.
    pub open spec fn is_pending(self) -> bool {
        self.status == Invoice::STATUS_PENDING
    }

    /// Whether the invoice can no longer be paid at `now`: it has an expiry
    /// time and `now` is past it.
    pub open spec fn is_expired_at(self, now: i64) -> bool {
        self.expires_at > 0 && now > self.expires_at
    }
}

// ---------------------------------------------------------------------
// The counter
// ---------------------------------------------------------------------

/// Sets up the ledger-wide source of invoice ids: the first invoice gets
/// the id 0.
pub fn init_invoice_counter(ctx: &mut InitInvoiceCounter) -> (r: Result<(), SolclawError>)
    ensures
        r is Ok,
        *final(ctx) == (InitInvoiceCounter {
            counter: InvoiceCounter { count: 0, bump: old(ctx).counter_bump },
            ..*old(ctx)
        }),
{
    ctx.counter.count = 0;
    ctx.counter.bump = ctx.counter_bump;
    Ok(())
}

// ---------------------------------------------------------------------
// Create
// ---------------------------------------------------------------------

/// Why an invoice is not created, if it is not. The checks, in order: an
/// amount above zero; a memo of at most 128 bytes; an expiry that is not
/// negative; a caller that is the requester's controller; a payer name that
/// is the name of the payer's record; a payer other than the requester; a
/// counter that can still count on; and an expiry time that still fits.
pub open spec fn create_invoice_error(
    ctx: CreateInvoice,
    now: i64,
    payer_name: Seq<char>,
    amount: u64,
    memo: Seq<char>,
    expires_in_seconds: i64,
) -> Option<SolclawError> {
    if amount == 0 {
        Some(SolclawError::InvalidAmount)
    } else if byte_len(memo) > 128 {
        Some(SolclawError::MemoTooLong)
    } else if expires_in_seconds < 0 {
        Some(SolclawError::InvalidExpiry)
    } else if ctx.authority != ctx.requester_registry.authority {
        Some(SolclawError::Unauthorized)
    } else if ctx.payer_registry.name_hash@ != padded_name(encode_utf8(payer_name)) {
        Some(SolclawError::NameMismatch)
    } else if ctx.requester_registry_key == ctx.payer_registry_key {
        Some(SolclawError::CannotInvoiceSelf)
    } else if ctx.counter.count + 1 > u64::MAX {
        Some(SolclawError::Overflow)
    } else if now + expires_in_seconds > i64::MAX {
        Some(SolclawError::Overflow)
    } else {
        None
    }
}

/// When an invoice created at `now` expires: `expires_in_seconds` later,
/// or never (0) where that is zero.
pub open spec fn expiry_time(now: i64, expires_in_seconds: i64) -> int {
    if expires_in_seconds > 0 {
        now + expires_in_seconds
    } else {
        0
    }
}

/// The invoice as it is created at `now`: pending, with the counter's
/// current value as its id.
pub open spec fn created_invoice(
    ctx: CreateInvoice,
    now: i64,
    payer_name: String,
    amount: u64,
    memo: String,
    expires_in_seconds: i64,
) -> Invoice {
    Invoice {
        id: ctx.counter.count,
        requester: ctx.requester_registry_key,
        payer: ctx.payer_registry_key,
        requester_name: ctx.requester_registry.name,
        payer_name,
        amount,
        memo,
        status: Invoice::STATUS_PENDING,
        created_at: now,
        expires_at: expiry_time(now, expires_in_seconds) as i64,
        paid_at: 0,
        authority: ctx.authority,
        bump: ctx.invoice_bump,
    }
}

/// Creates a request that the payer pay the requester `amount`. The caller
/// must be the requester's controller. The invoice takes the counter's
/// value as its id and the counter moves on by one, so that no id is given
/// twice.
pub fn create_invoice(
    ctx: &mut CreateInvoice,
    clock: &Clock,
    payer_name: String,
    amount: u64,
    memo: String,
    expires_in_seconds: i64,
) -> (r: Result<InvoiceCreatedEvent, SolclawError>)
    ensures
        match r {
            Ok(event) => {
                &&& create_invoice_error(
                    *old(ctx),
                    clock.unix_timestamp,
                    payer_name@,
                    amount,
                    memo@,
                    expires_in_seconds,
                ) is None
                &&& *final(ctx) == (CreateInvoice {
                    invoice: created_invoice(
                        *old(ctx),
                        clock.unix_timestamp,
                        payer_name,
                        amount,
                        memo,
                        expires_in_seconds,
                    ),
                    counter: InvoiceCounter {
                        count: (old(ctx).counter.count + 1) as u64,
                        ..old(ctx).counter
                    },
                    ..*old(ctx)
                })
                &&& event.invoice_id == old(ctx).counter.count
                &&& event.requester@ == old(ctx).requester_registry.name@
                &&& event.payer@ == payer_name@
                &&& event.amount == amount
                &&& event.memo@ == memo@
                &&& event.expires_at == expiry_time(clock.unix_timestamp, expires_in_seconds)
                &&& event.timestamp == clock.unix_timestamp
            },
            Err(e) => {
                &&& create_invoice_error(
                    *old(ctx),
                    clock.unix_timestamp,
                    payer_name@,
                    amount,
                    memo@,
                    expires_in_seconds,
                ) == Some(e)
                &&& *final(ctx) == *old(ctx)
            },
        },
{
    if amount == 0 {
        return Err(SolclawError::InvalidAmount);
    }
    if !text_fits_memo(&memo) {
        return Err(SolclawError::MemoTooLong);
    }
    if expires_in_seconds < 0 {
        return Err(SolclawError::InvalidExpiry);
    }
    if ctx.authority != ctx.requester_registry.authority {
        return Err(SolclawError::Unauthorized);
    }
    if !name_matches(&ctx.payer_registry.name_hash, payer_name.as_str()) {
        return Err(SolclawError::NameMismatch);
    }
    if ctx.requester_registry_key == ctx.payer_registry_key {
        return Err(SolclawError::CannotInvoiceSelf);
    }
    let invoice_id = ctx.counter.count;
    let next_count = match invoice_id.checked_add(1) {
        Some(count) => count,
        None => {
            return Err(SolclawError::Overflow);
        },
    };
    let now = clock.unix_timestamp;
    let expires_at: i64 = if expires_in_seconds > 0 {
        match now.checked_add(expires_in_seconds) {
            Some(time) => time,
            None => {
                return Err(SolclawError::Overflow);
            },
        }
    } else {
        0
    };
    let event = InvoiceCreatedEvent {
        invoice_id,
        requester: ctx.requester_registry.name.clone(),
        payer: payer_name.clone(),
        amount,
        memo: memo.clone(),
        expires_at,
        timestamp: now,
    };
    ctx.counter.count = next_count;
    ctx.invoice = Invoice {
        id: invoice_id,
        requester: ctx.requester_registry_key,
        payer: ctx.payer_registry_key,
        requester_name: ctx.requester_registry.name.clone(),
        payer_name,
        amount,
        memo,
        status: Invoice::STATUS_PENDING,
        created_at: now,
        expires_at,
        paid_at: 0,
        authority: ctx.authority,
        bump: ctx.invoice_bump,
    };
    Ok(event)
}

// ---------------------------------------------------------------------
// Pay
// ---------------------------------------------------------------------

/// Why the payment of an invoice is refused at `now`, if it is. The checks,
/// in order: a pending invoice; a caller that is the payer's controller;
/// payer and requester records that are the ones of the invoice; vaults
/// that are the ones bound to those records; an invoice that has not
/// expired; and the payer's daily cap.
pub open spec fn pay_invoice_error(ctx: PayInvoice, now: i64) -> Option<SolclawError> {
    if !ctx.invoice.is_pending() {
        Some(SolclawError::InvoiceNotPending)
    } else if ctx.authority != ctx.payer_registry.authority {
        Some(SolclawError::Unauthorized)
    } else if ctx.invoice.payer != ctx.payer_registry_key || ctx.invoice.requester
        != ctx.requester_registry_key {
        Some(SolclawError::InvoiceMismatch)
    } else if ctx.payer_vault != ctx.payer_registry.vault || ctx.requester_vault
        != ctx.requester_registry.vault {
        Some(SolclawError::VaultMismatch)
    } else if ctx.invoice.is_expired_at(now) {
        Some(SolclawError::InvoiceExpired)
    } else {
        cap_error(ctx.payer_registry, ctx.invoice.amount, now)
    }
}

/// The records after the payment of an invoice at `now`: the invoice is
/// paid, at `now`; the payer is charged against its cap and has sent the
/// amount; the requester has received it.
pub open spec fn pay_invoice_applied(ctx: PayInvoice, now: i64) -> PayInvoice {
    PayInvoice {
        invoice: Invoice { status: Invoice::STATUS_PAID, paid_at: now, ..ctx.invoice },
        payer_registry: cap_applied(ctx.payer_registry, ctx.invoice.amount, now).with_sent(
            ctx.invoice.amount,
        ),
        requester_registry: ctx.requester_registry.with_received(ctx.invoice.amount),
        ..ctx
    }
}

/// Pays a pending invoice. The caller must be the payer's controller. An
/// invoice past its expiry time is refused and stays pending. Returns the
/// movement for the host to carry out, out of the payer's vault and signed
/// for by that vault, and the record of the payment.
pub fn pay_invoice(ctx: &mut PayInvoice, clock: &Clock) -> (r: Result<
    (VaultTransfer, InvoicePaidEvent),
    SolclawError,
>)
    ensures
        match r {
            Ok((movement, event)) => {
                &&& pay_invoice_error(*old(ctx), clock.unix_timestamp) is None
                &&& *final(ctx) == pay_invoice_applied(*old(ctx), clock.unix_timestamp)
                &&& movement == (VaultTransfer {
                    from: old(ctx).payer_vault,
                    to: old(ctx).requester_vault,
                    authority: old(ctx).payer_vault,
                    amount: old(ctx).invoice.amount,
                })
                &&& event.invoice_id == old(ctx).invoice.id
                &&& event.requester@ == old(ctx).invoice.requester_name@
                &&& event.payer@ == old(ctx).invoice.payer_name@
                &&& event.amount == old(ctx).invoice.amount
                &&& event.memo@ == old(ctx).invoice.memo@
                &&& event.timestamp == clock.unix_timestamp
            },
            Err(e) => {
                &&& pay_invoice_error(*old(ctx), clock.unix_timestamp) == Some(e)
                &&& *final(ctx) == *old(ctx)
            },
        },
{
    if ctx.invoice.status != Invoice::STATUS_PENDING {
        return Err(SolclawError::InvoiceNotPending);
    }
    if ctx.authority != ctx.payer_registry.authority {
        return Err(SolclawError::Unauthorized);
    }
    if ctx.invoice.payer != ctx.payer_registry_key {
        return Err(SolclawError::InvoiceMismatch);
    }
    if ctx.invoice.requester != ctx.requester_registry_key {
        return Err(SolclawError::InvoiceMismatch);
    }
    if ctx.payer_vault != ctx.payer_registry.vault {
        return Err(SolclawError::VaultMismatch);
    }
    if ctx.requester_vault != ctx.requester_registry.vault {
        return Err(SolclawError::VaultMismatch);
    }
    let now = clock.unix_timestamp;
    if ctx.invoice.expires_at > 0 && now > ctx.invoice.expires_at {
        return Err(SolclawError::InvoiceExpired);
    }
    let amount = ctx.invoice.amount;
    check_and_update_spending_cap(&mut ctx.payer_registry, amount, clock)?;

    ctx.invoice.status = Invoice::STATUS_PAID;
    ctx.invoice.paid_at = now;
    ctx.payer_registry.total_sent = add_to_total(ctx.payer_registry.total_sent, amount);
    ctx.requester_registry.total_received = add_to_total(
        ctx.requester_registry.total_received,
        amount,
    );

    let movement = VaultTransfer {
        from: ctx.payer_vault,
        to: ctx.requester_vault,
        authority: ctx.payer_vault,
        amount,
    };
    let event = InvoicePaidEvent {
        invoice_id: ctx.invoice.id,
        requester: ctx.invoice.requester_name.clone(),
        payer: ctx.invoice.payer_name.clone(),
        amount,
        memo: ctx.invoice.memo.clone(),
        timestamp: now,
    };
    Ok((movement, event))
}

// ---------------------------------------------------------------------
// Reject and cancel
// ---------------------------------------------------------------------

/// Why the rejection of an invoice is refused, if it is: the first of an
/// invoice that is not pending, a caller that is not the payer's
/// controller, and a payer record that is not the invoice's payer.
pub open spec fn reject_invoice_error(ctx: RejectInvoice) -> Option<SolclawError> {
    if !ctx.invoice.is_pending() {
        Some(SolclawError::InvoiceNotPending)
    } else if ctx.authority != ctx.payer_registry.authority {
        Some(SolclawError::Unauthorized)
    } else if ctx.invoice.payer != ctx.payer_registry_key {
        Some(SolclawError::InvoiceMismatch)
    } else {
        None
    }
}

/// Rejects a pending invoice. The caller must be the controller of the
/// invoice's payer.
pub fn reject_invoice(ctx: &mut RejectInvoice, clock: &Clock) -> (r: Result<
    InvoiceRejectedEvent,
    SolclawError,
>)
    ensures
        match r {
            Ok(event) => {
                &&& reject_invoice_error(*old(ctx)) is None
                &&& *final(ctx) == (RejectInvoice {
                    invoice: Invoice { status: Invoice::STATUS_REJECTED, ..old(ctx).invoice },
                    ..*old(ctx)
                })
                &&& event.invoice_id == old(ctx).invoice.id
                &&& event.requester@ == old(ctx).invoice.requester_name@
                &&& event.payer@ == old(ctx).invoice.payer_name@
                &&& event.amount == old(ctx).invoice.amount
                &&& event.timestamp == clock.unix_timestamp
            },
            Err(e) => {
                &&& reject_invoice_error(*old(ctx)) == Some(e)
                &&& *final(ctx) == *old(ctx)
            },
        },
{
    if ctx.invoice.status != Invoice::STATUS_PENDING {
        return Err(SolclawError::InvoiceNotPending);
    }
    if ctx.authority != ctx.payer_registry.authority {
        return Err(SolclawError::Unauthorized);
    }
    if ctx.invoice.payer != ctx.payer_registry_key {
        return Err(SolclawError::InvoiceMismatch);
    }
    ctx.invoice.status = Invoice::STATUS_REJECTED;
    Ok(
        InvoiceRejectedEvent {
            invoice_id: ctx.invoice.id,
            requester: ctx.invoice.requester_name.clone(),
            payer: ctx.invoice.payer_name.clone(),
            amount: ctx.invoice.amount,
            timestamp: clock.unix_timestamp,
        },
    )
}

/// Why the cancellation of an invoice is refused, if it is: the first of
/// an invoice that is not pending and a caller that is not the invoice's
/// controlling identity.
pub open spec fn cancel_invoice_error(ctx: CancelInvoice) -> Option<SolclawError> {
    if !ctx.invoice.is_pending() {
        Some(SolclawError::InvoiceNotPending)
    } else if ctx.authority != ctx.invoice.authority {
        Some(SolclawError::Unauthorized)
    } else {
        None
    }
}

/// Cancels a pending invoice. The caller must be the invoice's controlling
/// identity, the requester's controller.
pub fn cancel_invoice(ctx: &mut CancelInvoice, clock: &Clock) -> (r: Result<
    InvoiceCancelledEvent,
    SolclawError,
>)
    ensures
        match r {
            Ok(event) => {
                &&& cancel_invoice_error(*old(ctx)) is None
                &&& *final(ctx) == (CancelInvoice {
                    invoice: Invoice { status: Invoice::STATUS_CANCELLED, ..old(ctx).invoice },
                    ..*old(ctx)
                })
                &&& event.invoice_id == old(ctx).invoice.id
                &&& event.requester@ == old(ctx).invoice.requester_name@
                &&& event.payer@ == old(ctx).invoice.payer_name@
                &&& event.amount == old(ctx).invoice.amount
                &&& event.timestamp == clock.unix_timestamp
            },
            Err(e) => {
                &&& cancel_invoice_error(*old(ctx)) == Some(e)
                &&& *final(ctx) == *old(ctx)
            },
        },
{
    if ctx.invoice.status != Invoice::STATUS_PENDING {
        return Err(SolclawError::InvoiceNotPending);
    }
    if ctx.authority != ctx.invoice.authority {
        return Err(SolclawError::Unauthorized);
    }
    ctx.invoice.status = Invoice::STATUS_CANCELLED;
    Ok(
        InvoiceCancelledEvent {
            invoice_id: ctx.invoice.id,
            requester: ctx.invoice.requester_name.clone(),
            payer: ctx.invoice.payer_name.clone(),
            amount: ctx.invoice.amount,
            timestamp: clock.unix_timestamp,
        },
    )
}

// ---------------------------------------------------------------------
// Laws
// ---------------------------------------------------------------------

/// Invoice ids are given in sequence and never twice: an invoice takes the
/// counter's value, the counter moves on by one, and so the next invoice
/// created from the counter gets the next id, whatever became of this one.
pub proof fn lemma_invoice_ids_are_sequential(
    first: CreateInvoice,
    first_now: i64,
    first_payer: String,
    first_amount: u64,
    first_memo: String,
    first_expiry: i64,
    second: CreateInvoice,
    second_now: i64,
    second_payer: String,
    second_amount: u64,
    second_memo: String,
    second_expiry: i64,
)
    requires
        create_invoice_error(
            first,
            first_now,
            first_payer@,
            first_amount,
            first_memo@,
            first_expiry,
        ) is None,
        second.counter.count == first.counter.count + 1,
    ensures
        created_invoice(first, first_now, first_payer, first_amount, first_memo, first_expiry).id
            == first.counter.count,
        created_invoice(
            second,
            second_now,
            second_payer,
            second_amount,
            second_memo,
            second_expiry,
        ).id == created_invoice(
            first,
            first_now,
            first_payer,
            first_amount,
            first_memo,
            first_expiry,
        ).id + 1,
        created_invoice(first, first_now, first_payer, first_amount, first_memo, first_expiry)
            .is_pending(),
{
}

/// An invoice that is not pending stays as it is: whoever calls, whenever
/// and with whatever records beside it, paying, rejecting and cancelling it
/// all fail, as not pending.
pub proof fn lemma_resolved_invoice_is_final(
    invoice: Invoice,
    pay: PayInvoice,
    now: i64,
    reject: RejectInvoice,
    cancel: CancelInvoice,
)
    requires
        !invoice.is_pending(),
        pay.invoice == invoice,
        reject.invoice == invoice,
        cancel.invoice == invoice,
    ensures
        pay_invoice_error(pay, now) == Some(SolclawError::InvoiceNotPending),
        reject_invoice_error(reject) == Some(SolclawError::InvoiceNotPending),
        cancel_invoice_error(cancel) == Some(SolclawError::InvoiceNotPending),
{
}

/// Paying, rejecting or cancelling goes through on a pending invoice only,
/// and leaves the invoice paid, rejected or cancelled: no longer pending.
/// Together with the law above: of all the calls on one invoice, at most
/// one goes through.
pub proof fn lemma_invoice_resolves_once(
    pay: PayInvoice,
    now: i64,
    reject: RejectInvoice,
    cancel: CancelInvoice,
)
    ensures
        pay_invoice_error(pay, now) is None ==> pay.invoice.is_pending() && pay_invoice_applied(
            pay,
            now,
        ).invoice == (Invoice { status: Invoice::STATUS_PAID, paid_at: now, ..pay.invoice })
            && !pay_invoice_applied(pay, now).invoice.is_pending(),
        reject_invoice_error(reject) is None ==> reject.invoice.is_pending() && !(Invoice {
            status: Invoice::STATUS_REJECTED,
            ..reject.invoice
        }).is_pending(),
        cancel_invoice_error(cancel) is None ==> cancel.invoice.is_pending() && !(Invoice {
            status: Invoice::STATUS_CANCELLED,
            ..cancel.invoice
        }).is_pending(),
{
}

/// An invoice past its expiry time cannot be paid; one without an expiry
/// time never expires.
pub proof fn lemma_expired_invoice_is_refused(ctx: PayInvoice, now: i64)
    ensures
        ctx.invoice.is_pending() && ctx.invoice.is_expired_at(now) ==> pay_invoice_error(
            ctx,
            now,
        ) is Some,
        ctx.invoice.is_pending() && ctx.authority == ctx.payer_registry.authority
            && ctx.invoice.payer == ctx.payer_registry_key && ctx.invoice.requester
            == ctx.requester_registry_key && ctx.payer_vault == ctx.payer_registry.vault
            && ctx.requester_vault == ctx.requester_registry.vault && ctx.invoice.is_expired_at(
            now,
        ) ==> pay_invoice_error(ctx, now) == Some(SolclawError::InvoiceExpired),
        ctx.invoice.expires_at == 0 ==> !ctx.invoice.is_expired_at(now),
{
}

} // verus!
