use vstd::prelude::*;

verus! {

/// Why an operation was refused.
#[derive(Clone, Copy, Debug, PartialEq, Eq, Structural)]
pub enum SolclawError {
    InvalidNameLength,
    InvalidAmount,
    InvalidMint,
    Unauthorized,
    InvalidBatchSize,
    InvalidRemainingAccounts,
    NameMismatch,
    VaultMismatch,
    Overflow,
    InvalidSplitShares,
    TooManySplitRecipients,
    InvalidInterval,
    SubscriptionNotDue,
    SubscriptionNotActive,
    InvalidSubscription,
    MemoTooLong,
    SpendingCapExceeded,
    CannotApproveSelf,
    AllowanceNotActive,
    AllowanceMismatch,
    AllowanceExceeded,
    CannotInvoiceSelf,
    InvoiceNotPending,
    InvoiceMismatch,
    InvoiceExpired,
    InvalidExpiry,
}

impl SolclawError {
    /// The human-readable text of the error.
    pub open spec fn message_text(self) -> Seq<char> {
        match self {
            SolclawError::InvalidNameLength => "Name must be between 1 and 32 characters"@,
            SolclawError::InvalidAmount => "Amount must be greater than 0"@,
            SolclawError::InvalidMint => "Invalid USDC mint address"@,
            SolclawError::Unauthorized => "Unauthorized: you don't control this vault"@,
            SolclawError::InvalidBatchSize => "Batch must contain 1-10 payments"@,
            SolclawError::InvalidRemainingAccounts => "Wrong number of remaining accounts for batch/split"@,
            SolclawError::NameMismatch => "Recipient name does not match registry"@,
            SolclawError::VaultMismatch => "Vault does not match agent registry"@,
            SolclawError::Overflow => "Arithmetic overflow"@,
            SolclawError::InvalidSplitShares => "Split shares must add up to 10000 basis points"@,
            SolclawError::TooManySplitRecipients => "Maximum 10 split recipients allowed"@,
            SolclawError::InvalidInterval => "Subscription interval must be at least 60 seconds"@,
            SolclawError::SubscriptionNotDue => "Subscription is not yet due"@,
            SolclawError::SubscriptionNotActive => "Subscription is not active"@,
            SolclawError::InvalidSubscription => "Invalid subscription: sender/receiver mismatch"@,
            SolclawError::MemoTooLong => "Memo exceeds 128 bytes"@,
            SolclawError::SpendingCapExceeded => "Transfer would exceed daily spending limit"@,
            SolclawError::CannotApproveSelf => "Cannot approve yourself"@,
            SolclawError::AllowanceNotActive => "Allowance is not active"@,
            SolclawError::AllowanceMismatch => "Allowance does not match owner/spender"@,
            SolclawError::AllowanceExceeded => "Transfer amount exceeds remaining allowance"@,
            SolclawError::CannotInvoiceSelf => "Cannot invoice yourself"@,
            SolclawError::InvoiceNotPending => "Invoice is not in pending status"@,
            SolclawError::InvoiceMismatch => "Invoice does not match payer/requester"@,
            SolclawError::InvoiceExpired => "Invoice has expired"@,
            SolclawError::InvalidExpiry => "Invalid expiry value"@,
        }
    }

    /// Returns the human-readable text of the error.
    pub fn message(&self) -> (text: &'static str)
        ensures
            text@ == self.message_text(),
    {
        match self {
            SolclawError::InvalidNameLength => "Name must be between 1 and 32 characters",
            SolclawError::InvalidAmount => "Amount must be greater than 0",
            SolclawError::InvalidMint => "Invalid USDC mint address",
            SolclawError::Unauthorized => "Unauthorized: you don't control this vault",
            SolclawError::InvalidBatchSize => "Batch must contain 1-10 payments",
            SolclawError::InvalidRemainingAccounts => "Wrong number of remaining accounts for batch/split",
            SolclawError::NameMismatch => "Recipient name does not match registry",
            SolclawError::VaultMismatch => "Vault does not match agent registry",
            SolclawError::Overflow => "Arithmetic overflow",
            SolclawError::InvalidSplitShares => "Split shares must add up to 10000 basis points",
            SolclawError::TooManySplitRecipients => "Maximum 10 split recipients allowed",
            SolclawError::InvalidInterval => "Subscription interval must be at least 60 seconds",
            SolclawError::SubscriptionNotDue => "Subscription is not yet due",
            SolclawError::SubscriptionNotActive => "Subscription is not active",
            SolclawError::InvalidSubscription => "Invalid subscription: sender/receiver mismatch",
            SolclawError::MemoTooLong => "Memo exceeds 128 bytes",
            SolclawError::SpendingCapExceeded => "Transfer would exceed daily spending limit",
            SolclawError::CannotApproveSelf => "Cannot approve yourself",
            SolclawError::AllowanceNotActive => "Allowance is not active",
            SolclawError::AllowanceMismatch => "Allowance does not match owner/spender",
            SolclawError::AllowanceExceeded => "Transfer amount exceeds remaining allowance",
            SolclawError::CannotInvoiceSelf => "Cannot invoice yourself",
            SolclawError::InvoiceNotPending => "Invoice is not in pending status",
            SolclawError::InvoiceMismatch => "Invoice does not match payer/requester",
            SolclawError::InvoiceExpired => "Invoice has expired",
            SolclawError::InvalidExpiry => "Invalid expiry value",
        }
    }
}

} // verus!
