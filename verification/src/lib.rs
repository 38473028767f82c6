//! A named-agent payment ledger: the authorization and accounting rules of
//! agent registration, transfers, batch and split payments, subscriptions,
//! allowances, daily spending caps and invoices.
//!
//! Every operation is a function from the records it touches, the caller's
//! identity and the current time to the updated records, the value movements
//! the host has to carry out, and the event record to publish. An operation
//! that fails leaves every record as it was.

pub mod address;
pub mod allowance;
pub mod authorization;
pub mod cap;
pub mod conservation;
pub mod context;
pub mod error;
pub mod events;
pub mod invoice;
pub mod memo;
pub mod payments;
pub mod registry;
pub mod split;
pub mod state;
pub mod subscription;
pub mod transfer;

pub use crate::address::Address;
pub use crate::allowance::{approve, increase_allowance, revoke_allowance, transfer_from};
pub use crate::cap::check_and_update_spending_cap;
pub use crate::context::{
    Approve, BatchPayment, CancelInvoice, CancelSubscription, CreateInvoice, CreateSubscription,
    Deposit, ExecuteSubscription, InitInvoiceCounter, ModifyAllowance, PayInvoice, RegisterAgent,
    RejectInvoice, RevokeAllowance, SetDailyLimit, SplitPayment, TransferByName, TransferFrom,
    Withdraw,
};
pub use crate::error::SolclawError;
pub use crate::events::{
    AllowanceApprovedEvent, AllowanceModifiedEvent, AllowanceRevokedEvent, BatchPaymentEvent,
    DailyLimitSetEvent, InvoiceCancelledEvent, InvoiceCreatedEvent, InvoicePaidEvent,
    InvoiceRejectedEvent, SplitPaymentEvent, SubscriptionExecutedEvent, TransferEvent,
    TransferFromEvent,
};
pub use crate::invoice::{
    cancel_invoice, create_invoice, init_invoice_counter, pay_invoice, reject_invoice,
};
pub use crate::payments::{batch_payment, split_payment};
pub use crate::registry::{deposit, register_agent, set_daily_limit, withdraw};
pub use crate::state::{
    AgentRegistry, Allowance, BatchPaymentEntry, Clock, Invoice, InvoiceCounter, SplitRecipient,
    Subscription, VaultTransfer,
};
pub use crate::subscription::{cancel_subscription, create_subscription, execute_subscription};
pub use crate::transfer::transfer_by_name;
