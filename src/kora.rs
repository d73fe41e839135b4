//! Questions about the operator's sponsorship: whether an account was
//! created by one of its transactions, and how much rent its accounts lock.
use crate::address::{decoded_address, Address};
use crate::discovery::{AccountType, PageRequest, SignatureEntry, SponsoredAccountInfo as Discovered};
use vstd::prelude::*;

verus! {

/// Signatures asked for per page while looking for an account's first transaction.
pub const SEARCH_PAGE_SIZE: usize = 1000;

/// Pages looked at before giving up the search for the first transaction.
pub const MAX_SEARCH_PAGES: usize = 10;

/// Accounts asked for in one multi-account fetch.
pub const MAX_ACCOUNTS_PER_FETCH: usize = 100;

/// A sponsored account with what is known of its activity.
#[derive(Clone, Debug)]
pub struct SponsoredAccountInfo {
    pub pubkey: Address,
    pub created_at: i64,
    pub rent_lamports: u64,
    pub data_size: u64,
    pub account_type: AccountType,
    /// Time of the most recent transaction, when known.
    pub last_activity: Option<i64>,
    pub creation_signature: String,
    pub creation_slot: u64,
}

impl SponsoredAccountInfo {
    /// The record for a discovered account; an unstated initial balance
    /// counts as no rent.
    pub fn from_discovered(info: &Discovered, last_activity: Option<i64>) -> (r: SponsoredAccountInfo)
        ensures
            r.pubkey == info.address,
            r.created_at == info.creation_time,
            r.rent_lamports == match info.initial_balance {
                Some(b) => b,
                None => 0,
            },
            r.data_size == info.data_size,
            r.account_type == info.account_type,
            r.last_activity == last_activity,
            r.creation_signature@ == info.creation_signature@,
            r.creation_slot == info.creation_slot,
    {
        SponsoredAccountInfo {
            pubkey: info.address,
            created_at: info.creation_time,
            rent_lamports: match info.initial_balance {
                Some(b) => b,
                None => 0,
            },
            data_size: info.data_size,
            account_type: info.account_type,
            last_activity,
            creation_signature: info.creation_signature.clone(),
            creation_slot: info.creation_slot,
        }
    }
}

/// The search, page by page backward, for the oldest signature of an account.
pub struct OldestSignatureSearch {
    pub pages_seen: usize,
    pub oldest: Option<String>,
    pub finished: bool,
}

impl OldestSignatureSearch {
    pub fn new() -> (r: OldestSignatureSearch)
        ensures
            r.pages_seen == 0,
            r.oldest is None,
            !r.finished,
    {
        OldestSignatureSearch { pages_seen: 0, oldest: None, finished: false }
    }

    /// The next page to ask for, or `None` once the search is over (a short
    /// or empty page was seen, or `MAX_SEARCH_PAGES` pages were read).
    pub fn next_page(&self) -> (r: Option<PageRequest>)
        ensures
            r is None <==> (self.finished || self.pages_seen >= MAX_SEARCH_PAGES),
            r matches Some(p) ==> p.limit == SEARCH_PAGE_SIZE && p.until is None && match (
                p.before,
                self.oldest,
            ) {
                (Some(b), Some(o)) => b@ == o@,
                (None, None) => true,
                _ => false,
            },
    {
        if self.finished || self.pages_seen >= MAX_SEARCH_PAGES {
            return None;
        }
        let before = match &self.oldest {
            Some(o) => Some(o.clone()),
            None => None,
        };
        Some(PageRequest { before, until: None, limit: SEARCH_PAGE_SIZE })
    }

    /// Takes in a page: its last (oldest) signature becomes the oldest seen,
    /// and an empty or short page ends the search.
    pub fn absorb_page(&mut self, page: &Vec<SignatureEntry>)
        requires
            old(self).pages_seen < MAX_SEARCH_PAGES,
        ensures
            final(self).pages_seen == old(self).pages_seen + 1,
            final(self).finished == (old(self).finished || page@.len() < SEARCH_PAGE_SIZE),
            page@.len() == 0 ==> final(self).oldest == old(self).oldest,
            page@.len() > 0 ==> (final(self).oldest matches Some(o) && o@ == page@.last().signature@),
    {
        let n = page.len();
        if n > 0 {
            self.oldest = Some(page[n - 1].signature.clone());
        }
        if n < SEARCH_PAGE_SIZE {
            self.finished = true;
        }
        self.pages_seen = self.pages_seen + 1;
    }
}

/// Whether the operator sponsored an account, judged from the transaction
/// with its oldest signature: it must have succeeded, have been delivered in
/// the JSON encoding, and have the operator as its fee payer (its first
/// account key).
pub open spec fn sponsored_spec(
    failed: bool,
    json_encoded: bool,
    first_key: Option<Seq<char>>,
    operator: Seq<u8>,
) -> bool {
    !failed && json_encoded && first_key is Some && decoded_address(first_key->0) == Some(operator)
}

/// Decides sponsorship from the oldest transaction of an account.
pub fn is_kora_sponsored(
    failed: bool,
    json_encoded: bool,
    first_key: &Option<String>,
    operator: &Address,
) -> (r: bool)
    ensures
        r == sponsored_spec(
            failed,
            json_encoded,
            match first_key {
                Some(k) => Some(k@),
                None => None,
            },
            operator@,
        ),
{
    if failed || !json_encoded {
        return false;
    }
    match first_key {
        None => false,
        Some(k) => match Address::parse(k.as_str()) {
            Some(payer) => payer == *operator,
            None => false,
        },
    }
}

/// The lamports that fetched accounts hold, summed; absent accounts add nothing.
pub open spec fn locked_spec(balances: Seq<Option<u64>>) -> nat
    decreases balances.len(),
{
    if balances.len() == 0 {
        0
    } else {
        locked_spec(balances.drop_last()) + match balances.last() {
            Some(l) => l as nat,
            None => 0nat,
        }
    }
}

/// Adds the balances of a fetched chunk to a running total, saturating at
/// the largest `u64`.
pub fn add_locked_rent(total: u64, balances: &Vec<Option<u64>>) -> (r: u64)
    ensures
        r == if total + locked_spec(balances@) <= u64::MAX {
            total + locked_spec(balances@)
        } else {
            u64::MAX as int
        },
{
    let mut sum = total;
    let mut i: usize = 0;
    while i < balances.len()
        invariant
            0 <= i <= balances@.len(),
            sum == if total + locked_spec(balances@.subrange(0, i as int)) <= u64::MAX {
                total + locked_spec(balances@.subrange(0, i as int))
            } else {
                u64::MAX as int
            },
        decreases balances@.len() - i,
    {
        assert(balances@.subrange(0, i + 1).drop_last() =~= balances@.subrange(0, i as int));
        if let Some(l) = balances[i] {
            sum = sum.saturating_add(l);
        }
        i = i + 1;
    }
    assert(balances@.subrange(0, balances@.len() as int) =~= balances@);
    sum
}

} // verus!
