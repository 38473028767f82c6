use crate::allowance::transfer_from_error;
use crate::context::{
    BatchPayment, ExecuteSubscription, PayInvoice, SplitPayment, TransferByName, TransferFrom,
};
use crate::invoice::pay_invoice_error;
use crate::payments::{batch_error, split_error};
use crate::state::{BatchPaymentEntry, SplitRecipient};
use crate::subscription::execute_error;
use crate::transfer::transfer_error;
use vstd::prelude::*;

verus! {

/// A transfer, a batch and a split go through only for the controller of
/// the agent whose vault they debit.
pub proof fn lemma_payments_need_the_controller(
    transfer: TransferByName,
    batch: BatchPayment,
    split: SplitPayment,
    now: i64,
    amount: u64,
    memo: Option<String>,
    payments: Seq<BatchPaymentEntry>,
    recipients: Seq<SplitRecipient>,
)
    ensures
        transfer_error(transfer, now, amount, memo) is None ==> transfer.authority
            == transfer.sender_registry.authority,
        batch_error(batch, now, payments) is None ==> batch.authority
            == batch.sender_registry.authority,
        split_error(split, now, amount, recipients, memo) is None ==> split.authority
            == split.sender_registry.authority,
{
}

/// A pull goes through only for the spender's controller, under an active
/// allowance of exactly this owner to exactly this spender, and within what
/// the owner has left to it.
pub proof fn lemma_pull_needs_the_allowance(
    ctx: TransferFrom,
    now: i64,
    amount: u64,
    memo: Option<String>,
)
    requires
        transfer_from_error(ctx, now, amount, memo) is None,
    ensures
        ctx.spender_authority == ctx.spender_registry.authority,
        ctx.allowance.is_active,
        ctx.allowance.owner == ctx.owner_registry_key,
        ctx.allowance.spender == ctx.spender_registry_key,
        0 < amount <= ctx.allowance.amount,
{
}

/// A subscription is executed by anyone, but only against the sender and
/// the receiver that it names, only while it is active and only once it is
/// due.
pub proof fn lemma_execution_needs_the_subscription(ctx: ExecuteSubscription, now: i64)
    requires
        execute_error(ctx, now) is None,
    ensures
        ctx.subscription.sender == ctx.sender_registry_key,
        ctx.subscription.receiver == ctx.receiver_registry_key,
        ctx.subscription.is_active,
        now >= ctx.subscription.next_due,
{
}

/// An invoice is paid only by the controller of the payer that it names,
/// out of the vault bound to that payer and into the vault bound to the
/// requester that it names, while it is pending and has not expired.
pub proof fn lemma_payment_needs_the_payer(ctx: PayInvoice, now: i64)
    requires
        pay_invoice_error(ctx, now) is None,
    ensures
        ctx.authority == ctx.payer_registry.authority,
        ctx.invoice.payer == ctx.payer_registry_key,
        ctx.invoice.requester == ctx.requester_registry_key,
        ctx.payer_vault == ctx.payer_registry.vault,
        ctx.requester_vault == ctx.requester_registry.vault,
        ctx.invoice.is_pending(),
        !ctx.invoice.is_expired_at(now),
{
}

} // verus!
