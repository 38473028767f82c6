use vstd::prelude::*;

verus! {

/// A direct transfer was made.
#[derive(Clone, Debug, PartialEq, Eq)]
pub struct TransferEvent {
    pub sender: String,
    pub receiver: String,
    pub amount: u64,
    pub memo: String,
    pub timestamp: i64,
}

/// A batch of payments was made.
#[derive(Clone, Debug, PartialEq, Eq)]
pub struct BatchPaymentEvent {
    pub sender: String,
    pub recipients: Vec<String>,
    pub amounts: Vec<u64>,
    pub memos: Vec<String>,
    pub total: u64,
    pub timestamp: i64,
}

/// A total was split among recipients. Only the recipients that were paid
/// something are listed.
#[derive(Clone, Debug, PartialEq, Eq)]
pub struct SplitPaymentEvent {
    pub sender: String,
    pub recipients: Vec<String>,
    pub amounts: Vec<u64>,
    pub total: u64,
    pub memo: String,
    pub timestamp: i64,
}

/// A payment of a subscription was made.
#[derive(Clone, Debug, PartialEq, Eq)]
pub struct SubscriptionExecutedEvent {
    pub sender: String,
    pub receiver: String,
    pub amount: u64,
    pub memo: String,
    pub execution_count: u64,
    pub timestamp: i64,
}

/// An agent's daily limit was set or cleared.
#[derive(Clone, Debug, PartialEq, Eq)]
pub struct DailyLimitSetEvent {
    pub agent: String,
    pub limit_usdc: u64,
    pub timestamp: i64,
}

/// An allowance was approved.
#[derive(Clone, Debug, PartialEq, Eq)]
pub struct AllowanceApprovedEvent {
    pub owner: String,
    pub spender: String,
    pub amount: u64,
    pub timestamp: i64,
}

/// A spender pulled value under an allowance.
#[derive(Clone, Debug, PartialEq, Eq)]
pub struct TransferFromEvent {
    pub owner: String,
    pub spender: String,
    pub amount: u64,
    pub memo: String,
    pub remaining_allowance: u64,
    pub pull_number: u64,
    pub timestamp: i64,
}

/// An allowance was revoked.
#[derive(Clone, Debug, PartialEq, Eq)]
pub struct AllowanceRevokedEvent {
    pub owner: String,
    pub spender: String,
    pub total_pulled: u64,
    pub pull_count: u64,
    pub timestamp: i64,
}

/// An allowance was changed.
#[derive(Clone, Debug, PartialEq, Eq)]
pub struct AllowanceModifiedEvent {
    pub owner: String,
    pub spender: String,
    pub new_amount: u64,
    pub action: String,
    pub timestamp: i64,
}

/// An invoice was created.
#[derive(Clone, Debug, PartialEq, Eq)]
pub struct InvoiceCreatedEvent {
    pub invoice_id: u64,
    pub requester: String,
    pub payer: String,
    pub amount: u64,
    pub memo: String,
    pub expires_at: i64,
    pub timestamp: i64,
}

/// An invoice was paid.
#[derive(Clone, Debug, PartialEq, Eq)]
pub struct InvoicePaidEvent {
    pub invoice_id: u64,
    pub requester: String,
    pub payer: String,
    pub amount: u64,
    pub memo: String,
    pub timestamp: i64,
}

/// An invoice was rejected by its payer.
#[derive(Clone, Debug, PartialEq, Eq)]
pub struct InvoiceRejectedEvent {
    pub invoice_id: u64,
    pub requester: String,
    pub payer: String,
    pub amount: u64,
    pub timestamp: i64,
}

/// An invoice was cancelled by its requester.
#[derive(Clone, Debug, PartialEq, Eq)]
pub struct InvoiceCancelledEvent {
    pub invoice_id: u64,
    pub requester: String,
    pub payer: String,
    pub amount: u64,
    pub timestamp: i64,
}

} // verus!
