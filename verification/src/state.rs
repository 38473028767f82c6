use crate::address::{padded_name, Address};
use vstd::prelude::*;
use vstd::utf8::encode_utf8;

verus! {

/// The time of the current request, as the host reports it.
#[derive(Clone, Copy, Debug, PartialEq, Eq)]
pub struct Clock {
    /// Seconds since the Unix epoch.
    pub unix_timestamp: i64,
}

/// A registered agent: a named identity with a bound vault.
#[derive(Clone, Debug, PartialEq, Eq)]
pub struct AgentRegistry {
    /// The name, cut to 32 bytes and padded with zeros.
    pub name_hash: [u8; 32],
    /// Human-readable name, 1 to 32 bytes.
    pub name: String,
    /// The identity that may act for this agent.
    pub authority: Address,
    /// The vault that holds this agent's balance.
    pub vault: Address,
    /// When the agent was registered.
    pub created_at: i64,
    /// Lifetime total sent; clamps at the maximum.
    pub total_sent: u64,
    /// Lifetime total received; clamps at the maximum.
    pub total_received: u64,
    /// Bump seed of the record's location.
    pub bump: u8,
    /// Bump seed of the vault's location.
    pub vault_bump: u8,
    /// Daily spending limit; 0 means unlimited.
    pub daily_limit: u64,
    /// Amount spent in the day-window `last_spend_day`.
    pub daily_spent: u64,
    /// The last day-window in which the agent spent under a limit.
    pub last_spend_day: i64,
}

impl AgentRegistry {
    /// The name is 1 to 32 bytes long and `name_hash` is its index key.
    pub open spec fn wf(self) -> bool {
        &&& 1 <= encode_utf8(self.name@).len() <= 32
        &&& self.name_hash@ == padded_name(encode_utf8(self.name@))
    }

    /// Whether `other` is a record of the same agent: the same name and
    /// index key, the same controller, the same vault, the same creation
    /// time and the same bump seeds.
    pub open spec fn same_agent(self, other: AgentRegistry) -> bool {
        &&& self.name == other.name
        &&& self.name_hash == other.name_hash
        &&& self.authority == other.authority
        &&& self.vault == other.vault
        &&& self.created_at == other.created_at
        &&& self.bump == other.bump
        &&& self.vault_bump == other.vault_bump
    }

    /// The seeds under which the host signs for the agent's vault: the
    /// word `vault`, the agent's name and the bump seed of the vault's
    /// location. They are made from the agent's own record and from nothing
    /// that a caller hands in.
    pub open spec fn vault_seeds(self) -> Seq<Seq<u8>> {
        seq![encode_utf8("vault"@), encode_utf8(self.name@), seq![self.vault_bump]]
    }

    /// The agent after sending `amount`.
    pub open spec fn with_sent(self, amount: u64) -> AgentRegistry {
        AgentRegistry { total_sent: total_after(self.total_sent, amount), ..self }
    }

    /// The agent after receiving `amount`.
    pub open spec fn with_received(self, amount: u64) -> AgentRegistry {
        AgentRegistry { total_received: total_after(self.total_received, amount), ..self }
    }
}

/// A recurring payment from one agent to another.
#[derive(Clone, Debug, PartialEq, Eq)]
pub struct Subscription {
    /// Location of the sender's agent record.
    pub sender: Address,
    /// Location of the receiver's agent record.
    pub receiver: Address,
    pub sender_name: String,
    pub receiver_name: String,
    /// Amount of each payment.
    pub amount: u64,
    /// Seconds between payments, at least 60.
    pub interval_seconds: i64,
    /// Time of the last payment, or of creation.
    pub last_executed: i64,
    /// Earliest time of the next payment.
    pub next_due: i64,
    pub is_active: bool,
    /// The identity that may cancel: the sender's controller.
    pub authority: Address,
    /// Total paid so far.
    pub total_paid: u64,
    /// Number of payments made.
    pub execution_count: u64,
    pub bump: u8,
}

/// Shortest interval of a subscription, in seconds.
pub const MIN_INTERVAL_SECONDS: i64 = 60;

impl Subscription {
    /// The interval is at least the minimum.
    pub open spec fn wf(self) -> bool {
        self.interval_seconds >= MIN_INTERVAL_SECONDS
    }
}

/// The right of one agent (the spender) to pull value from the vault of
/// another (the owner).
#[derive(Clone, Debug, PartialEq, Eq)]
pub struct Allowance {
    /// Location of the owner's agent record.
    pub owner: Address,
    /// Location of the spender's agent record.
    pub spender: Address,
    pub owner_name: String,
    pub spender_name: String,
    /// What may still be pulled.
    pub amount: u64,
    /// Total pulled so far.
    pub total_pulled: u64,
    /// Number of pulls so far.
    pub pull_count: u64,
    pub is_active: bool,
    /// The identity that may change or revoke: the owner's controller.
    pub authority: Address,
    pub bump: u8,
}

/// The ledger-wide source of invoice ids.
#[derive(Clone, Copy, Debug, PartialEq, Eq)]
pub struct InvoiceCounter {
    /// The id that the next invoice gets.
    pub count: u64,
    pub bump: u8,
}

/// A request by one agent (the requester) that another (the payer) pay it.
#[derive(Clone, Debug, PartialEq, Eq)]
pub struct Invoice {
    pub id: u64,
    /// Location of the requester's agent record.
    pub requester: Address,
    /// Location of the payer's agent record.
    pub payer: Address,
    pub requester_name: String,
    pub payer_name: String,
    pub amount: u64,
    /// Free text, at most 128 bytes.
    pub memo: String,
    /// One of the `STATUS_` values.
    pub status: u8,
    pub created_at: i64,
    /// Time after which the invoice can no longer be paid; 0 means never.
    pub expires_at: i64,
    /// Time of payment; 0 while unpaid.
    pub paid_at: i64,
    /// The identity that may cancel: the requester's controller.
    pub authority: Address,
    pub bump: u8,
}

impl Invoice {
    pub const STATUS_PENDING: u8 = 0;

    pub const STATUS_PAID: u8 = 1;

    pub const STATUS_REJECTED: u8 = 2;

    pub const STATUS_CANCELLED: u8 = 3;

    pub const STATUS_EXPIRED: u8 = 4;
}

/// One payment of a batch.
#[derive(Clone, Debug, PartialEq, Eq)]
pub struct BatchPaymentEntry {
    pub recipient_name: String,
    pub amount: u64,
    /// Optional text, at most 128 bytes.
    pub memo: Option<String>,
}

/// One recipient of a split, with its share in basis points.
#[derive(Clone, Debug, PartialEq, Eq)]
pub struct SplitRecipient {
    pub name: String,
    /// Share of the total; 10000 is the whole.
    pub share_bps: u16,
}

/// An order to the host to move `amount` from the vault `from` to the vault
/// `to`, signed for by `authority`. The host carries it out whole or not at
/// all.
#[derive(Clone, Copy, Debug, PartialEq, Eq)]
pub struct VaultTransfer {
    pub from: Address,
    pub to: Address,
    pub authority: Address,
    pub amount: u64,
}

/// Longest memo, in bytes.
pub const MAX_MEMO_LEN: usize = 128;

/// Length of an accounting day-window, in seconds.
pub const SECONDS_PER_DAY: i64 = 86400;

/// The whole of a split, in basis points.
pub const FULL_SHARE_BPS: u64 = 10000;

/// A lifetime total after `amount` more: the sum, clamped at the maximum.
pub open spec fn total_after(total: u64, amount: u64) -> u64 {
    if total + amount > u64::MAX {
        u64::MAX
    } else {
        (total + amount) as u64
    }
}

/// Adds `amount` to a lifetime total, clamping at the maximum.
pub fn add_to_total(total: u64, amount: u64) -> (sum: u64)
    ensures
        sum == total_after(total, amount),
{
    match total.checked_add(amount) {
        Some(sum) => sum,
        None => u64::MAX,
    }
}

/// Copies the bytes of a text.
pub fn bytes_of(text: &str) -> (bytes: Vec<u8>)
    ensures
        bytes@ == encode_utf8(text@),
{
    let source = text.as_bytes();
    let mut bytes: Vec<u8> = Vec::new();
    let mut i: usize = 0;
    while i < source.len()
        invariant
            i <= source@.len(),
            source@ == encode_utf8(text@),
            bytes@ == source@.take(i as int),
        decreases source@.len() - i,
    {
        bytes.push(source[i]);
        assert(source@.take(i as int + 1) =~= source@.take(i as int).push(source@[i as int]));
        i += 1;
    }
    assert(source@.take(source@.len() as int) =~= source@);
    bytes
}

/// Makes the seeds under which the host signs for the vault of `agent`.
pub fn vault_signer_seeds(agent: &AgentRegistry) -> (seeds: Vec<Vec<u8>>)
    ensures
        seeds@.len() == 3,
        forall|i: int| 0 <= i < 3 ==> (#[trigger] seeds@[i])@ == agent.vault_seeds()[i],
{
    let mut bump: Vec<u8> = Vec::new();
    bump.push(agent.vault_bump);
    let mut seeds: Vec<Vec<u8>> = Vec::new();
    seeds.push(bytes_of("vault"));
    seeds.push(bytes_of(agent.name.as_str()));
    seeds.push(bump);
    assert(seeds@[2]@ =~= seq![agent.vault_bump]);
    seeds
}

} // verus!
