//! Deciding from an account's live state whether the operator can and should
//! reclaim its deposit, and which recovery strategy to record for it.
use crate::address::{address_text, system_program_bytes, token_program_bytes, Address};
use crate::discovery::{AccountKind, AccountType};
use crate::models::ReclaimStrategy;
use crate::rent::{is_empty_spec, AccountSnapshot, RentCalculator};
use crate::text::{decimal, decimal_text, joined, owned, same_text};
use vstd::prelude::*;

verus! {

/// Size in bytes of a token account's fixed layout.
pub const TOKEN_ACCOUNT_LEN: usize = 165;

/// Offset of the owner key in a token account.
pub const OWNER_OFFSET: usize = 32;

/// Offset of the one-byte flag that says whether a close authority is set.
pub const CLOSE_AUTHORITY_FLAG_OFFSET: usize = 129;

/// Offset of the close authority key in a token account.
pub const CLOSE_AUTHORITY_OFFSET: usize = 130;

/// Seconds in one day.
pub const SECONDS_PER_DAY: u64 = 86_400;

// ---------------------------------------------------------------------------
// Token account layout
// ---------------------------------------------------------------------------

/// The key that may close a token account: the close authority when its flag
/// is set, otherwise the owner; `None` when the data is shorter than the layout.
pub open spec fn close_authority_spec(data: Seq<u8>) -> Option<Seq<u8>> {
    if data.len() < TOKEN_ACCOUNT_LEN {
        None
    } else if data[CLOSE_AUTHORITY_FLAG_OFFSET as int] == 1u8 {
        Some(data.subrange(CLOSE_AUTHORITY_OFFSET as int, CLOSE_AUTHORITY_OFFSET + 32))
    } else {
        Some(data.subrange(OWNER_OFFSET as int, OWNER_OFFSET + 32))
    }
}

/// Whether `operator` may close a token account with these bytes.
pub open spec fn operator_can_close(data: Seq<u8>, operator: Seq<u8>) -> bool {
    close_authority_spec(data) == Some(operator)
}

/// The 32-byte key stored at `offset`.
pub fn key_at(data: &Vec<u8>, offset: usize) -> (r: Address)
    requires
        offset + 32 <= data@.len(),
    ensures
        r@ == data@.subrange(offset as int, offset + 32),
{
    let mut bytes = [0u8; 32];
    let n = data.len();
    let mut i: usize = 0;
    while i < 32
        invariant
            0 <= i <= 32,
            n == data@.len(),
            offset + 32 <= data@.len(),
            forall|k: int| 0 <= k < i ==> bytes@[k] == data@[offset + k],
        decreases 32 - i,
    {
        bytes[i] = data[offset + i];
        i = i + 1;
    }
    assert(bytes@ =~= data@.subrange(offset as int, offset + 32));
    Address::from_bytes(bytes)
}

/// The key that may close a token account with these bytes.
pub fn get_token_close_authority(data: &Vec<u8>) -> (r: Option<Address>)
    ensures
        match r {
            Some(a) => close_authority_spec(data@) == Some(a@),
            None => close_authority_spec(data@) is None,
        },
{
    if data.len() < TOKEN_ACCOUNT_LEN {
        None
    } else if data[CLOSE_AUTHORITY_FLAG_OFFSET] == 1 {
        Some(key_at(data, CLOSE_AUTHORITY_OFFSET))
    } else {
        Some(key_at(data, OWNER_OFFSET))
    }
}

/// Whether `operator` may close a token account with these bytes.
pub fn has_close_authority(data: &Vec<u8>, operator: &Address) -> (r: bool)
    ensures
        r == operator_can_close(data@, operator@),
{
    match get_token_close_authority(data) {
        Some(a) => a == *operator,
        None => false,
    }
}

// ---------------------------------------------------------------------------
// Account types
// ---------------------------------------------------------------------------

/// The type of a live account: a token account when the token program owns
/// it and it has the token layout's size, a system account when the system
/// program owns it, and otherwise an account of its owning program.
pub open spec fn account_type_spec(owner: Address, data_len: nat) -> AccountType {
    if owner@ == token_program_bytes() && data_len == TOKEN_ACCOUNT_LEN {
        AccountType::SplToken
    } else if owner@ == system_program_bytes() {
        AccountType::System
    } else {
        AccountType::Other(owner)
    }
}

/// The type of a live account, from its owner and size.
pub fn determine_account_type(account: &AccountSnapshot) -> (r: AccountType)
    ensures
        r == account_type_spec(account.owner, account.data@.len()),
{
    if account.owner == Address::token_program() && account.data.len() == TOKEN_ACCOUNT_LEN {
        AccountType::SplToken
    } else if account.owner == Address::system_program() {
        AccountType::System
    } else {
        AccountType::Other(account.owner)
    }
}

/// Whether accounts of this kind can be reclaimed at all: only token accounts can.
pub open spec fn reclaimable_kind(k: AccountKind) -> bool {
    k is SplToken
}

pub fn is_reclaimable_type(t: &AccountType) -> (r: bool)
    ensures
        r == reclaimable_kind(t@),
{
    match t {
        AccountType::System => false,
        AccountType::SplToken => true,
        AccountType::Other(_) => false,
    }
}

// ---------------------------------------------------------------------------
// Eligibility
// ---------------------------------------------------------------------------

/// What a look at an account's most recent transaction found.
#[derive(Clone, Copy, Debug)]
pub enum ActivityProbe {
    /// The lookup failed; the account is treated as recently active.
    Failed,
    /// The account has no transaction history.
    NoHistory,
    /// Time of the most recent transaction, in seconds since the epoch.
    LastActive(i64),
}

/// The outcome of an eligibility check, in the order the checks are made.
#[derive(Clone, Copy, Debug)]
pub enum EligibilityVerdict {
    Whitelisted,
    Blacklisted,
    /// The account does not exist on chain.
    Missing,
    ZeroBalance,
    TypeNotReclaimable(AccountType),
    NotCloseAuthority,
    TooRecent { days_remaining: u128 },
    RecentActivity,
    /// Eligible: the account holds nothing beyond its deposit.
    EmptyAccount { lamports: u64 },
    /// Eligible: the balance is at most twice the rent-exempt minimum.
    MinimalBalance { lamports: u64 },
    SignificantBalance { lamports: u64, data_len: usize },
}

impl EligibilityVerdict {
    pub open spec fn eligible(self) -> bool {
        self is EmptyAccount || self is MinimalBalance
    }

    /// Whether the verdict found the account gone from the chain.
    pub fn account_missing(&self) -> (r: bool)
        ensures
            r == (self is Missing),
    {
        match self {
            EligibilityVerdict::Missing => true,
            _ => false,
        }
    }

    /// Whether the verdict allows a reclaim.
    pub fn is_eligible(&self) -> (r: bool)
        ensures
            r == self.eligible(),
    {
        match self {
            EligibilityVerdict::EmptyAccount { .. } => true,
            EligibilityVerdict::MinimalBalance { .. } => true,
            _ => false,
        }
    }
}

/// Whether `text` is one of `list`.
pub open spec fn listed(list: Seq<String>, text: Seq<char>) -> bool {
    exists|i: int| 0 <= i < list.len() && #[trigger] list[i]@ == text
}

/// The rules of eligibility: the operator, the allow- and deny-lists of
/// addresses (never reclaimed), and the minimum inactivity window in days.
#[derive(Clone, Debug)]
pub struct EligibilityChecker {
    pub operator: Address,
    pub min_inactive_days: u64,
    pub whitelist: Vec<String>,
    pub blacklist: Vec<String>,
}

/// The checks that need no look at activity or at the rent-exempt minimum,
/// in order: listed addresses, existence, balance, type, close authority and
/// age (which must exceed the inactivity window). `None` when all of them pass.
pub open spec fn early_verdict_spec(
    c: EligibilityChecker,
    address: Seq<u8>,
    account: Option<AccountSnapshot>,
    created_at: i64,
    now: i64,
) -> Option<EligibilityVerdict> {
    let window = c.min_inactive_days * SECONDS_PER_DAY;
    if listed(c.whitelist@, address_text(address)) {
        Some(EligibilityVerdict::Whitelisted)
    } else if listed(c.blacklist@, address_text(address)) {
        Some(EligibilityVerdict::Blacklisted)
    } else if account is None {
        Some(EligibilityVerdict::Missing)
    } else if account->0.lamports == 0 {
        Some(EligibilityVerdict::ZeroBalance)
    } else if !reclaimable_kind(account_type_spec(account->0.owner, account->0.data@.len())@) {
        Some(
            EligibilityVerdict::TypeNotReclaimable(
                account_type_spec(account->0.owner, account->0.data@.len()),
            ),
        )
    } else if !operator_can_close(account->0.data@, c.operator@) {
        Some(EligibilityVerdict::NotCloseAuthority)
    } else if now - created_at <= window {
        Some(
            EligibilityVerdict::TooRecent {
                days_remaining: ((window - (now - created_at)) / SECONDS_PER_DAY as int) as u128,
            },
        )
    } else {
        None
    }
}

/// Whether the last activity precedes the window (no history counts as
/// inactive; a failed lookup does not).
pub open spec fn inactive_spec(c: EligibilityChecker, probe: ActivityProbe, now: i64) -> bool {
    match probe {
        ActivityProbe::Failed => false,
        ActivityProbe::NoHistory => true,
        ActivityProbe::LastActive(t) => now - t > c.min_inactive_days * SECONDS_PER_DAY,
    }
}

/// The full outcome of an eligibility check.
pub open spec fn verdict_spec(
    c: EligibilityChecker,
    address: Seq<u8>,
    account: Option<AccountSnapshot>,
    created_at: i64,
    now: i64,
    probe: ActivityProbe,
    min_balance: u64,
) -> EligibilityVerdict {
    match early_verdict_spec(c, address, account, created_at, now) {
        Some(v) => v,
        None => {
            let a = account->0;
            if !inactive_spec(c, probe, now) {
                EligibilityVerdict::RecentActivity
            } else if is_empty_spec(a.lamports, a.data@, min_balance) {
                EligibilityVerdict::EmptyAccount { lamports: a.lamports }
            } else if a.lamports <= 2 * min_balance {
                EligibilityVerdict::MinimalBalance { lamports: a.lamports }
            } else {
                EligibilityVerdict::SignificantBalance {
                    lamports: a.lamports,
                    data_len: a.data@.len() as usize,
                }
            }
        },
    }
}

fn is_listed(list: &Vec<String>, text: &String) -> (r: bool)
    ensures
        r == listed(list@, text@),
{
    let mut i: usize = 0;
    while i < list.len()
        invariant
            0 <= i <= list@.len(),
            forall|k: int| 0 <= k < i ==> list@[k]@ != text@,
        decreases list@.len() - i,
    {
        if same_text(list[i].as_str(), text.as_str()) {
            return true;
        }
        i = i + 1;
    }
    false
}

impl EligibilityChecker {
    pub fn new(
        operator: Address,
        min_inactive_days: u64,
        whitelist: Vec<String>,
        blacklist: Vec<String>,
    ) -> (r: EligibilityChecker)
        ensures
            r.operator == operator,
            r.min_inactive_days == min_inactive_days,
            r.whitelist@ == whitelist@,
            r.blacklist@ == blacklist@,
    {
        EligibilityChecker { operator, min_inactive_days, whitelist, blacklist }
    }

    /// Whether the address is on the allow-list (protected from reclaim).
    pub fn is_whitelisted(&self, address: &Address) -> (r: bool)
        ensures
            r == listed(self.whitelist@, address_text(address@)),
    {
        is_listed(&self.whitelist, &address.to_text())
    }

    /// Whether the address is on the deny-list (excluded from reclaim).
    pub fn is_blacklisted(&self, address: &Address) -> (r: bool)
        ensures
            r == listed(self.blacklist@, address_text(address@)),
    {
        is_listed(&self.blacklist, &address.to_text())
    }

    /// The checks that need neither the account's activity nor the
    /// rent-exempt minimum; `None` when the caller must look at both and call
    /// `verdict`.
    pub fn early_verdict(
        &self,
        address: &Address,
        account: &Option<AccountSnapshot>,
        created_at: i64,
        now: i64,
    ) -> (r: Option<EligibilityVerdict>)
        ensures
            r == early_verdict_spec(*self, address@, *account, created_at, now),
    {
        if self.is_whitelisted(address) {
            return Some(EligibilityVerdict::Whitelisted);
        }
        if self.is_blacklisted(address) {
            return Some(EligibilityVerdict::Blacklisted);
        }
        let a = match account {
            None => {
                return Some(EligibilityVerdict::Missing);
            },
            Some(a) => a,
        };
        if a.lamports == 0 {
            return Some(EligibilityVerdict::ZeroBalance);
        }
        let account_type = determine_account_type(a);
        if !is_reclaimable_type(&account_type) {
            return Some(EligibilityVerdict::TypeNotReclaimable(account_type));
        }
        if !has_close_authority(&a.data, &self.operator) {
            return Some(EligibilityVerdict::NotCloseAuthority);
        }
        let window: i128 = self.min_inactive_days as i128 * SECONDS_PER_DAY as i128;
        let age: i128 = now as i128 - created_at as i128;
        if age <= window {
            let days: i128 = (window - age) / SECONDS_PER_DAY as i128;
            assert(days <= u128::MAX) by (nonlinear_arith)
                requires
                    days == (window - age) / 86400,
                    window - age <= 0xFFFF_FFFF_FFFF_FFFF * 86400 + 0x1_0000_0000_0000_0000,
            ;
            return Some(EligibilityVerdict::TooRecent { days_remaining: days as u128 });
        }
        None
    }

    /// The outcome of every check for an account: `account` is what a fetch
    /// returned, `probe` what a look at its latest transaction found, and
    /// `min_balance` its rent-exempt minimum.
    pub fn verdict(
        &self,
        address: &Address,
        account: &Option<AccountSnapshot>,
        created_at: i64,
        now: i64,
        probe: ActivityProbe,
        min_balance: u64,
    ) -> (r: EligibilityVerdict)
        ensures
            r == verdict_spec(*self, address@, *account, created_at, now, probe, min_balance),
    {
        if let Some(v) = self.early_verdict(address, account, created_at, now) {
            return v;
        }
        let a = match account {
            Some(a) => a,
            None => {
                return EligibilityVerdict::Missing;
            },
        };
        if !self.check_inactivity(probe, now) {
            return EligibilityVerdict::RecentActivity;
        }
        if RentCalculator::is_empty_account(a, min_balance) {
            return EligibilityVerdict::EmptyAccount { lamports: a.lamports };
        }
        if a.lamports as u128 <= 2 * min_balance as u128 {
            return EligibilityVerdict::MinimalBalance { lamports: a.lamports };
        }
        EligibilityVerdict::SignificantBalance { lamports: a.lamports, data_len: a.data.len() }
    }

    /// Whether the most recent activity precedes the inactivity window; no
    /// history counts as inactive, a failed lookup as active.
    pub fn check_inactivity(&self, probe: ActivityProbe, now: i64) -> (r: bool)
        ensures
            r == inactive_spec(*self, probe, now),
    {
        let window: i128 = self.min_inactive_days as i128 * SECONDS_PER_DAY as i128;
        match probe {
            ActivityProbe::Failed => false,
            ActivityProbe::NoHistory => true,
            ActivityProbe::LastActive(t) => now as i128 - t as i128 > window,
        }
    }

    /// Whether the account is eligible for reclaim.
    pub fn is_eligible(
        &self,
        address: &Address,
        account: &Option<AccountSnapshot>,
        created_at: i64,
        now: i64,
        probe: ActivityProbe,
        min_balance: u64,
    ) -> (r: bool)
        ensures
            r == verdict_spec(
                *self,
                address@,
                *account,
                created_at,
                now,
                probe,
                min_balance,
            ).eligible(),
    {
        self.verdict(address, account, created_at, now, probe, min_balance).is_eligible()
    }
}

/// Shrinking the inactivity window never turns an eligible account
/// ineligible: every check either ignores the window or passes more easily
/// with a shorter one.
pub proof fn lemma_eligibility_monotone(
    c: EligibilityChecker,
    shorter_days: u64,
    address: Seq<u8>,
    account: Option<AccountSnapshot>,
    created_at: i64,
    now: i64,
    probe: ActivityProbe,
    min_balance: u64,
)
    requires
        shorter_days <= c.min_inactive_days,
        verdict_spec(c, address, account, created_at, now, probe, min_balance).eligible(),
    ensures
        verdict_spec(
            EligibilityChecker { min_inactive_days: shorter_days, ..c },
            address,
            account,
            created_at,
            now,
            probe,
            min_balance,
        ).eligible(),
{
    let d = EligibilityChecker { min_inactive_days: shorter_days, ..c };
    assert(shorter_days * SECONDS_PER_DAY <= c.min_inactive_days * SECONDS_PER_DAY) by (nonlinear_arith)
        requires
            shorter_days <= c.min_inactive_days,
    ;
    assert(d.whitelist == c.whitelist);
}

// ---------------------------------------------------------------------------
// Reasons and strategies
// ---------------------------------------------------------------------------

/// The name of an account type, as in `System`, `SplToken` or `Other(<address>)`.
pub open spec fn kind_label(t: AccountType) -> Seq<char> {
    match t {
        AccountType::System => "System"@,
        AccountType::SplToken => "SplToken"@,
        AccountType::Other(p) => "Other("@ + address_text(p@) + ")"@,
    }
}

/// The explanation given for each verdict.
pub open spec fn reason_spec(v: EligibilityVerdict) -> Seq<char> {
    match v {
        EligibilityVerdict::Whitelisted => "Account is whitelisted (protected)"@,
        EligibilityVerdict::Blacklisted => "Account is blacklisted (excluded)"@,
        EligibilityVerdict::Missing => "Account is closed (nothing to reclaim)"@,
        EligibilityVerdict::ZeroBalance => "Account has zero balance (nothing to reclaim)"@,
        EligibilityVerdict::TypeNotReclaimable(t) => "account type "@ + kind_label(t)
            + " cannot be reclaimed"@,
        EligibilityVerdict::NotCloseAuthority =>
            "Operator is not the close authority for this SPL Token account"@,
        EligibilityVerdict::TooRecent { days_remaining } => "Account needs "@ + decimal_text(
            days_remaining as nat,
        ) + " more days of inactivity"@,
        EligibilityVerdict::RecentActivity => "Account has recent activity"@,
        EligibilityVerdict::EmptyAccount { lamports } => "Eligible for reclaim: empty account with "@
            + decimal_text(lamports as nat) + " lamports"@,
        EligibilityVerdict::MinimalBalance { lamports } => "Eligible for reclaim: minimal balance ("@
            + decimal_text(lamports as nat) + " lamports)"@,
        EligibilityVerdict::SignificantBalance { lamports, data_len } =>
            "Not eligible: account has significant data/balance ("@ + decimal_text(lamports as nat)
            + " lamports, "@ + decimal_text(data_len as nat) + " bytes data)"@,
    }
}

impl AccountType {
    /// The name of the type, as in `System`, `SplToken` or `Other(<address>)`.
    pub fn name(&self) -> (r: String)
        ensures
            r@ == kind_label(*self),
    {
        match self {
            AccountType::System => owned("System"),
            AccountType::SplToken => owned("SplToken"),
            AccountType::Other(p) => {
                let s = joined(owned("Other("), p.to_text().as_str());
                joined(s, ")")
            },
        }
    }
}

impl EligibilityVerdict {
    /// The explanation of the verdict.
    pub fn reason(&self) -> (r: String)
        ensures
            r@ == reason_spec(*self),
    {
        match self {
            EligibilityVerdict::Whitelisted => owned("Account is whitelisted (protected)"),
            EligibilityVerdict::Blacklisted => owned("Account is blacklisted (excluded)"),
            EligibilityVerdict::Missing => owned("Account is closed (nothing to reclaim)"),
            EligibilityVerdict::ZeroBalance => owned("Account has zero balance (nothing to reclaim)"),
            EligibilityVerdict::TypeNotReclaimable(t) => {
                let s = joined(owned("account type "), t.name().as_str());
                joined(s, " cannot be reclaimed")
            },
            EligibilityVerdict::NotCloseAuthority => owned(
                "Operator is not the close authority for this SPL Token account",
            ),
            EligibilityVerdict::TooRecent { days_remaining } => {
                let s = joined(owned("Account needs "), decimal(*days_remaining).as_str());
                joined(s, " more days of inactivity")
            },
            EligibilityVerdict::RecentActivity => owned("Account has recent activity"),
            EligibilityVerdict::EmptyAccount { lamports } => {
                let s = joined(
                    owned("Eligible for reclaim: empty account with "),
                    decimal(*lamports as u128).as_str(),
                );
                joined(s, " lamports")
            },
            EligibilityVerdict::MinimalBalance { lamports } => {
                let s = joined(
                    owned("Eligible for reclaim: minimal balance ("),
                    decimal(*lamports as u128).as_str(),
                );
                joined(s, " lamports)")
            },
            EligibilityVerdict::SignificantBalance { lamports, data_len } => {
                let s = joined(
                    owned("Not eligible: account has significant data/balance ("),
                    decimal(*lamports as u128).as_str(),
                );
                let s = joined(s, " lamports, ");
                let s = joined(s, decimal(*data_len as u128).as_str());
                joined(s, " bytes data)")
            },
        }
    }
}

/// The strategy recorded for an account and the key that controls it:
/// `Unknown` for a missing account or one of another program, `Unrecoverable`
/// for a system account, and for a token account `ActiveReclaim` with the
/// operator when the operator may close it, else `PassiveMonitoring` with
/// the key that may.
pub open spec fn strategy_spec(account: Option<AccountSnapshot>, operator: Address) -> (
    ReclaimStrategy,
    Option<Seq<u8>>,
) {
    match account {
        None => (ReclaimStrategy::Unknown, None),
        Some(a) => match account_type_spec(a.owner, a.data@.len()) {
            AccountType::System => (ReclaimStrategy::Unrecoverable, None),
            AccountType::SplToken => if operator_can_close(a.data@, operator@) {
                (ReclaimStrategy::ActiveReclaim, Some(operator@))
            } else {
                (ReclaimStrategy::PassiveMonitoring, close_authority_spec(a.data@))
            },
            AccountType::Other(_) => (ReclaimStrategy::Unknown, None),
        },
    }
}

pub open spec fn key_view(k: Option<Address>) -> Option<Seq<u8>> {
    match k {
        Some(a) => Some(a@),
        None => None,
    }
}

impl EligibilityChecker {
    /// The eligibility verdict explained in words.
    pub fn get_eligibility_reason(
        &self,
        address: &Address,
        account: &Option<AccountSnapshot>,
        created_at: i64,
        now: i64,
        probe: ActivityProbe,
        min_balance: u64,
    ) -> (r: String)
        ensures
            r@ == reason_spec(
                verdict_spec(*self, address@, *account, created_at, now, probe, min_balance),
            ),
    {
        self.verdict(address, account, created_at, now, probe, min_balance).reason()
    }

    /// The reclaim strategy to record for an account, from its live state.
    pub fn determine_reclaim_strategy(&self, account: &Option<AccountSnapshot>) -> (r: (
        ReclaimStrategy,
        Option<Address>,
    ))
        ensures
            (r.0, key_view(r.1)) == strategy_spec(*account, self.operator),
    {
        match account {
            None => (ReclaimStrategy::Unknown, None),
            Some(a) => match determine_account_type(a) {
                AccountType::System => (ReclaimStrategy::Unrecoverable, None),
                AccountType::SplToken => {
                    if has_close_authority(&a.data, &self.operator) {
                        (ReclaimStrategy::ActiveReclaim, Some(self.operator))
                    } else {
                        (ReclaimStrategy::PassiveMonitoring, get_token_close_authority(&a.data))
                    }
                },
                AccountType::Other(_) => (ReclaimStrategy::Unknown, None),
            },
        }
    }
}

} // verus!
