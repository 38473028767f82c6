use crate::address::Address;
use crate::state::{AgentRegistry, Allowance, Invoice, InvoiceCounter, Subscription};
use vstd::prelude::*;

verus! {

/// What `register_agent` works on: the record to fill, the vault bound to it
/// and the registering identity.
#[derive(Clone, Debug, PartialEq, Eq)]
pub struct RegisterAgent {
    pub agent_registry: AgentRegistry,
    pub vault: Address,
    pub authority: Address,
    /// Bump seed of the record's location.
    pub agent_registry_bump: u8,
    /// Bump seed of the vault's location.
    pub vault_bump: u8,
}

/// What `deposit` works on.
#[derive(Clone, Debug, PartialEq, Eq)]
pub struct Deposit {
    pub agent_registry: AgentRegistry,
    pub vault: Address,
    /// The outside account that the deposit comes from.
    pub user_token_account: Address,
    /// The identity that signs for the outside account.
    pub authority: Address,
}

/// What `transfer_by_name` works on.
#[derive(Clone, Debug, PartialEq, Eq)]
pub struct TransferByName {
    pub sender_registry: AgentRegistry,
    pub sender_vault: Address,
    pub receiver_registry: AgentRegistry,
    pub receiver_vault: Address,
    /// The caller.
    pub authority: Address,
}

/// What `withdraw` works on.
#[derive(Clone, Debug, PartialEq, Eq)]
pub struct Withdraw {
    pub agent_registry: AgentRegistry,
    pub vault: Address,
    /// The outside account that the withdrawal goes to.
    pub destination: Address,
    /// The caller.
    pub authority: Address,
}

/// What `batch_payment` works on. `remaining_accounts` holds, for each
/// payment in order, the location of the recipient's record and then that of
/// its vault, as the caller supplied them.
#[derive(Clone, Debug, PartialEq, Eq)]
pub struct BatchPayment {
    pub sender_registry: AgentRegistry,
    pub sender_vault: Address,
    /// The caller.
    pub authority: Address,
    /// The program that record and vault locations are derived for.
    pub program_id: Address,
    pub remaining_accounts: Vec<Address>,
}

/// What `split_payment` works on. `remaining_accounts` holds, for each
/// recipient in order, the location of its record and then that of its
/// vault, as the caller supplied them.
#[derive(Clone, Debug, PartialEq, Eq)]
pub struct SplitPayment {
    pub sender_registry: AgentRegistry,
    pub sender_vault: Address,
    /// The caller.
    pub authority: Address,
    /// The program that record and vault locations are derived for.
    pub program_id: Address,
    pub remaining_accounts: Vec<Address>,
}

/// What `create_subscription` works on.
#[derive(Clone, Debug, PartialEq, Eq)]
pub struct CreateSubscription {
    /// The record to fill.
    pub subscription: Subscription,
    pub sender_registry: AgentRegistry,
    /// Location of the sender's record.
    pub sender_registry_key: Address,
    pub receiver_registry: AgentRegistry,
    /// Location of the receiver's record.
    pub receiver_registry_key: Address,
    /// The caller.
    pub authority: Address,
    /// Bump seed of the subscription's location.
    pub subscription_bump: u8,
}

/// What `execute_subscription` works on. Any caller may execute.
#[derive(Clone, Debug, PartialEq, Eq)]
pub struct ExecuteSubscription {
    pub subscription: Subscription,
    pub sender_registry: AgentRegistry,
    /// Location of the sender's record.
    pub sender_registry_key: Address,
    pub receiver_registry: AgentRegistry,
    /// Location of the receiver's record.
    pub receiver_registry_key: Address,
    pub sender_vault: Address,
    pub receiver_vault: Address,
}

/// What `cancel_subscription` works on.
#[derive(Clone, Debug, PartialEq, Eq)]
pub struct CancelSubscription {
    pub subscription: Subscription,
    /// The caller.
    pub authority: Address,
}

/// What `set_daily_limit` works on.
#[derive(Clone, Debug, PartialEq, Eq)]
pub struct SetDailyLimit {
    pub registry: AgentRegistry,
    /// The caller.
    pub authority: Address,
}

/// What `approve` works on.
#[derive(Clone, Debug, PartialEq, Eq)]
pub struct Approve {
    /// The record to fill or replace.
    pub allowance: Allowance,
    pub owner_registry: AgentRegistry,
    /// Location of the owner's record.
    pub owner_registry_key: Address,
    pub spender_registry: AgentRegistry,
    /// Location of the spender's record.
    pub spender_registry_key: Address,
    /// The caller.
    pub authority: Address,
    /// Bump seed of the allowance's location.
    pub allowance_bump: u8,
}

/// What `transfer_from` works on.
#[derive(Clone, Debug, PartialEq, Eq)]
pub struct TransferFrom {
    pub allowance: Allowance,
    pub owner_registry: AgentRegistry,
    /// Location of the owner's record.
    pub owner_registry_key: Address,
    pub spender_registry: AgentRegistry,
    /// Location of the spender's record.
    pub spender_registry_key: Address,
    pub owner_vault: Address,
    pub spender_vault: Address,
    /// The caller.
    pub spender_authority: Address,
}

/// What `revoke_allowance` works on.
#[derive(Clone, Debug, PartialEq, Eq)]
pub struct RevokeAllowance {
    pub allowance: Allowance,
    /// The caller.
    pub authority: Address,
}

/// What `increase_allowance` works on.
#[derive(Clone, Debug, PartialEq, Eq)]
pub struct ModifyAllowance {
    pub allowance: Allowance,
    /// The caller.
    pub authority: Address,
}

/// What `init_invoice_counter` works on.
#[derive(Clone, Copy, Debug, PartialEq, Eq)]
pub struct InitInvoiceCounter {
    /// The record to fill.
    pub counter: InvoiceCounter,
    /// Bump seed of the counter's location.
    pub counter_bump: u8,
}

/// What `create_invoice` works on.
#[derive(Clone, Debug, PartialEq, Eq)]
pub struct CreateInvoice {
    /// The record to fill.
    pub invoice: Invoice,
    pub counter: InvoiceCounter,
    pub requester_registry: AgentRegistry,
    /// Location of the requester's record.
    pub requester_registry_key: Address,
    pub payer_registry: AgentRegistry,
    /// Location of the payer's record.
    pub payer_registry_key: Address,
    /// The caller.
    pub authority: Address,
    /// Bump seed of the invoice's location.
    pub invoice_bump: u8,
}

/// What `pay_invoice` works on.
#[derive(Clone, Debug, PartialEq, Eq)]
pub struct PayInvoice {
    pub invoice: Invoice,
    pub payer_registry: AgentRegistry,
    /// Location of the payer's record.
    pub payer_registry_key: Address,
    pub requester_registry: AgentRegistry,
    /// Location of the requester's record.
    pub requester_registry_key: Address,
    pub payer_vault: Address,
    pub requester_vault: Address,
    /// The caller.
    pub authority: Address,
}

/// What `reject_invoice` works on.
#[derive(Clone, Debug, PartialEq, Eq)]
pub struct RejectInvoice {
    pub invoice: Invoice,
    pub payer_registry: AgentRegistry,
    /// Location of the payer's record.
    pub payer_registry_key: Address,
    /// The caller.
    pub authority: Address,
}

/// What `cancel_invoice` works on.
#[derive(Clone, Debug, PartialEq, Eq)]
pub struct CancelInvoice {
    pub invoice: Invoice,
    /// The caller.
    pub authority: Address,
}

} // verus!
