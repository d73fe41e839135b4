//! Persisted account records and the labels stored with them.
use crate::address::Address;
use crate::text::{owned, same_text};
use vstd::prelude::*;

verus! {

/// On-chain lifecycle of a recorded account.
#[derive(Clone, Copy, Debug, PartialEq, Eq, Structural)]
pub enum AccountStatus {
    Active,
    Closed,
    Reclaimed,
}

/// What the operator can do to recover an account's deposit.
#[derive(Clone, Copy, Debug, PartialEq, Eq, Structural)]
pub enum ReclaimStrategy {
    /// The operator holds the close authority.
    ActiveReclaim,
    /// The user controls the account; watch the treasury for its return.
    PassiveMonitoring,
    /// Permanently out of the operator's reach (system accounts).
    Unrecoverable,
    /// Not yet determined.
    Unknown,
}

impl AccountStatus {
    /// The stored name of the status.
    pub fn as_text(&self) -> (r: String)
        ensures
            r@ == match self {
                AccountStatus::Active => "Active"@,
                AccountStatus::Closed => "Closed"@,
                AccountStatus::Reclaimed => "Reclaimed"@,
            },
    {
        match self {
            AccountStatus::Active => owned("Active"),
            AccountStatus::Closed => owned("Closed"),
            AccountStatus::Reclaimed => owned("Reclaimed"),
        }
    }
}

impl ReclaimStrategy {
    /// The stored name of the strategy.
    pub fn as_text(&self) -> (r: String)
        ensures
            r@ == strategy_name(*self),
    {
        match self {
            ReclaimStrategy::ActiveReclaim => owned("ActiveReclaim"),
            ReclaimStrategy::PassiveMonitoring => owned("PassiveMonitoring"),
            ReclaimStrategy::Unrecoverable => owned("Unrecoverable"),
            ReclaimStrategy::Unknown => owned("Unknown"),
        }
    }

    /// Reads a stored strategy name; any unrecognised text reads as `Unknown`.
    pub fn from_text(s: &str) -> (r: ReclaimStrategy)
        ensures
            r == strategy_from_name(s@),
    {
        if same_text(s, "ActiveReclaim") {
            ReclaimStrategy::ActiveReclaim
        } else if same_text(s, "PassiveMonitoring") {
            ReclaimStrategy::PassiveMonitoring
        } else if same_text(s, "Unrecoverable") {
            ReclaimStrategy::Unrecoverable
        } else {
            ReclaimStrategy::Unknown
        }
    }
}

pub open spec fn strategy_name(s: ReclaimStrategy) -> Seq<char> {
    match s {
        ReclaimStrategy::ActiveReclaim => "ActiveReclaim"@,
        ReclaimStrategy::PassiveMonitoring => "PassiveMonitoring"@,
        ReclaimStrategy::Unrecoverable => "Unrecoverable"@,
        ReclaimStrategy::Unknown => "Unknown"@,
    }
}

pub open spec fn strategy_from_name(s: Seq<char>) -> ReclaimStrategy {
    if s == "ActiveReclaim"@ {
        ReclaimStrategy::ActiveReclaim
    } else if s == "PassiveMonitoring"@ {
        ReclaimStrategy::PassiveMonitoring
    } else if s == "Unrecoverable"@ {
        ReclaimStrategy::Unrecoverable
    } else {
        ReclaimStrategy::Unknown
    }
}

/// Reading back a stored strategy name gives the strategy that was stored.
pub proof fn lemma_strategy_name_round_trip(s: ReclaimStrategy)
    ensures
        strategy_from_name(strategy_name(s)) == s,
{
    reveal_strlit("ActiveReclaim");
    reveal_strlit("PassiveMonitoring");
    reveal_strlit("Unrecoverable");
    reveal_strlit("Unknown");
    assert("ActiveReclaim"@[0] != "PassiveMonitoring"@[0]);
    assert("ActiveReclaim"@[0] != "Unrecoverable"@[0]);
    assert("PassiveMonitoring"@[0] != "Unrecoverable"@[0]);
    assert("Unknown"@.len() != "ActiveReclaim"@.len());
    assert("Unknown"@.len() != "PassiveMonitoring"@.len());
    assert("Unknown"@.len() != "Unrecoverable"@.len());
}

/// A persisted record of a sponsored account. Times are seconds since the
/// Unix epoch.
#[derive(Clone, Debug)]
pub struct SponsoredAccount {
    pub pubkey: String,
    pub created_at: i64,
    pub closed_at: Option<i64>,
    pub rent_lamports: u64,
    pub data_size: u64,
    pub status: AccountStatus,
    pub creation_signature: Option<String>,
    pub creation_slot: Option<u64>,
    pub close_authority: Option<String>,
    pub reclaim_strategy: Option<ReclaimStrategy>,
}

impl SponsoredAccount {
    /// A new active record, created at `now`.
    pub fn new(pubkey: &Address, rent_lamports: u64, data_size: u64, now: i64) -> (r: SponsoredAccount)
        ensures
            r.pubkey@ == crate::address::address_text(pubkey@),
            r.created_at == now,
            r.closed_at is None,
            r.rent_lamports == rent_lamports,
            r.data_size == data_size,
            r.status == AccountStatus::Active,
            r.creation_signature is None,
            r.creation_slot is None,
            r.close_authority is None,
            r.reclaim_strategy is None,
    {
        SponsoredAccount {
            pubkey: pubkey.to_text(),
            created_at: now,
            closed_at: None,
            rent_lamports,
            data_size,
            status: AccountStatus::Active,
            creation_signature: None,
            creation_slot: None,
            close_authority: None,
            reclaim_strategy: None,
        }
    }

    /// Marks the record closed at `now`.
    pub fn mark_closed(&mut self, now: i64)
        ensures
            final(self).status == AccountStatus::Closed,
            final(self).closed_at == Some(now),
            final(self).pubkey == old(self).pubkey,
            final(self).created_at == old(self).created_at,
            final(self).rent_lamports == old(self).rent_lamports,
            final(self).data_size == old(self).data_size,
            final(self).creation_signature == old(self).creation_signature,
            final(self).creation_slot == old(self).creation_slot,
            final(self).close_authority == old(self).close_authority,
            final(self).reclaim_strategy == old(self).reclaim_strategy,
    {
        self.status = AccountStatus::Closed;
        self.closed_at = Some(now);
    }

    /// Marks the record reclaimed.
    pub fn mark_reclaimed(&mut self)
        ensures
            final(self).status == AccountStatus::Reclaimed,
            final(self).closed_at == old(self).closed_at,
            final(self).pubkey == old(self).pubkey,
            final(self).created_at == old(self).created_at,
            final(self).rent_lamports == old(self).rent_lamports,
            final(self).data_size == old(self).data_size,
            final(self).creation_signature == old(self).creation_signature,
            final(self).creation_slot == old(self).creation_slot,
            final(self).close_authority == old(self).close_authority,
            final(self).reclaim_strategy == old(self).reclaim_strategy,
    {
        self.status = AccountStatus::Reclaimed;
    }
}

/// A reclaim that the operator performed.
#[derive(Clone, Debug)]
pub struct ReclaimOperation {
    pub id: i64,
    pub account_pubkey: String,
    pub reclaimed_amount: u64,
    pub tx_signature: String,
    pub timestamp: i64,
    pub reason: String,
}

/// A stored observation of deposits that returned to the treasury on their own.
#[derive(Clone, Debug)]
pub struct PassiveReclaimRecord {
    pub id: i64,
    pub amount: u64,
    pub attributed_accounts: Vec<String>,
    pub confidence: String,
    pub timestamp: i64,
}

/// Totals over the store.
#[derive(Clone, Copy, Debug)]
pub struct DatabaseStats {
    pub total_accounts: usize,
    pub active_accounts: usize,
    pub closed_accounts: usize,
    pub reclaimed_accounts: usize,
    pub total_operations: usize,
    pub total_reclaimed: u64,
}

/// The rent recorded for the still-active accounts among `s`.
pub open spec fn active_rent(s: Seq<SponsoredAccount>) -> nat
    decreases s.len(),
{
    if s.len() == 0 {
        0
    } else {
        active_rent(s.drop_last()) + if s.last().status == AccountStatus::Active {
            s.last().rent_lamports as nat
        } else {
            0nat
        }
    }
}

/// The rent still locked in the active accounts among `records`, saturating
/// at the largest `u64`.
pub fn active_rent_total(records: &Vec<SponsoredAccount>) -> (r: u64)
    ensures
        r == if active_rent(records@) <= u64::MAX {
            active_rent(records@)
        } else {
            u64::MAX as nat
        },
{
    let mut total: u64 = 0;
    let mut i: usize = 0;
    while i < records.len()
        invariant
            0 <= i <= records@.len(),
            total == if active_rent(records@.subrange(0, i as int)) <= u64::MAX {
                active_rent(records@.subrange(0, i as int))
            } else {
                u64::MAX as nat
            },
        decreases records@.len() - i,
    {
        assert(records@.subrange(0, i + 1).drop_last() =~= records@.subrange(0, i as int));
        if records[i].status == AccountStatus::Active {
            total = total.saturating_add(records[i].rent_lamports);
        }
        i = i + 1;
    }
    assert(records@.subrange(0, records@.len() as int) =~= records@);
    total
}

} // verus!
