//! Attributing unexpected treasury deposits to accounts whose owners closed
//! them, with a graded confidence.
use crate::address::{decoded_address, Address};
use crate::models::{AccountStatus, SponsoredAccount};
use vstd::prelude::*;

verus! {

/// Lamports by which a deposit may differ from the rent it is matched to (fees).
pub const TOLERANCE: u64 = 5000;

/// Accounts closed within this many hours are candidates for attribution.
pub const RECENT_CLOSE_HOURS: i64 = 24;

/// Most accounts named by a low-confidence attribution.
pub const MAX_GUESSED_ACCOUNTS: usize = 5;

/// How certain an attribution is.
#[derive(Clone, Copy, Debug, PartialEq, Eq, Structural)]
pub enum ConfidenceLevel {
    /// One account's rent matches the deposit.
    High,
    /// Two or three accounts' rents sum to the deposit.
    Medium,
    /// No match; recently closed accounts are named as a guess.
    Low,
    /// No match and no recently closed account.
    Unknown,
}

impl ConfidenceLevel {
    /// The stored name of the level.
    pub fn as_text(&self) -> (r: String)
        ensures
            r@ == match self {
                ConfidenceLevel::High => "High"@,
                ConfidenceLevel::Medium => "Medium"@,
                ConfidenceLevel::Low => "Low"@,
                ConfidenceLevel::Unknown => "Unknown"@,
            },
    {
        match self {
            ConfidenceLevel::High => crate::text::owned("High"),
            ConfidenceLevel::Medium => crate::text::owned("Medium"),
            ConfidenceLevel::Low => crate::text::owned("Low"),
            ConfidenceLevel::Unknown => crate::text::owned("Unknown"),
        }
    }
}

/// A deposit to the treasury and the accounts it is attributed to.
#[derive(Clone, Debug)]
pub struct PassiveReclaim {
    /// The observed balance increase.
    pub amount: u64,
    /// When it was observed, in seconds since the epoch.
    pub timestamp: i64,
    pub attributed_accounts: Vec<Address>,
    pub confidence: ConfidenceLevel,
}

/// Whether `a` is within the tolerance of `b`.
pub open spec fn within_tolerance(a: int, b: int) -> bool {
    -(TOLERANCE as int) <= a - b <= TOLERANCE as int
}

pub open spec fn single_fits(accts: Seq<SponsoredAccount>, target: u64, a: int) -> bool {
    within_tolerance(accts[a].rent_lamports as int, target as int)
}

pub open spec fn pair_fits(accts: Seq<SponsoredAccount>, target: u64, a: int, b: int) -> bool {
    within_tolerance(accts[a].rent_lamports + accts[b].rent_lamports, target as int)
}

pub open spec fn triple_fits(accts: Seq<SponsoredAccount>, target: u64, a: int, b: int, c: int) -> bool {
    within_tolerance(
        accts[a].rent_lamports + accts[b].rent_lamports + accts[c].rent_lamports,
        target as int,
    )
}

pub open spec fn some_single_fits(accts: Seq<SponsoredAccount>, target: u64) -> bool {
    exists|a: int| 0 <= a < accts.len() && #[trigger] single_fits(accts, target, a)
}

pub open spec fn some_pair_fits(accts: Seq<SponsoredAccount>, target: u64) -> bool {
    exists|a: int, b: int| 0 <= a < b < accts.len() && #[trigger] pair_fits(accts, target, a, b)
}

pub open spec fn some_triple_fits(accts: Seq<SponsoredAccount>, target: u64) -> bool {
    exists|a: int, b: int, c: int|
        0 <= a < b < c < accts.len() && #[trigger] triple_fits(accts, target, a, b, c)
}

fn within(a: u128, b: u128) -> (r: bool)
    ensures
        r == within_tolerance(a as int, b as int),
{
    if a > b {
        a - b <= TOLERANCE as u128
    } else {
        b - a <= TOLERANCE as u128
    }
}

/// The first account whose rent matches `target`.
fn find_single(target: u64, accts: &Vec<SponsoredAccount>) -> (r: Option<usize>)
    ensures
        match r {
            Some(a) => a < accts@.len() && single_fits(accts@, target, a as int) && forall|x: int|
                0 <= x < a ==> !#[trigger] single_fits(accts@, target, x),
            None => !some_single_fits(accts@, target),
        },
{
    let mut i: usize = 0;
    while i < accts.len()
        invariant
            0 <= i <= accts@.len(),
            forall|x: int| 0 <= x < i ==> !#[trigger] single_fits(accts@, target, x),
        decreases accts@.len() - i,
    {
        if within(accts[i].rent_lamports as u128, target as u128) {
            return Some(i);
        }
        i = i + 1;
    }
    None
}

/// The first pair (in lexicographic order of positions) whose rents sum to `target`.
fn find_pair(target: u64, accts: &Vec<SponsoredAccount>) -> (r: Option<(usize, usize)>)
    ensures
        match r {
            Some((a, b)) => a < b < accts@.len() && pair_fits(accts@, target, a as int, b as int)
                && forall|x: int, y: int|
                0 <= x < y < accts@.len() && (x < a || (x == a && y < b)) ==> !#[trigger] pair_fits(
                    accts@,
                    target,
                    x,
                    y,
                ),
            None => !some_pair_fits(accts@, target),
        },
{
    let n = accts.len();
    let mut i: usize = 0;
    while i < n
        invariant
            n == accts@.len(),
            0 <= i <= n,
            forall|x: int, y: int| 0 <= x < i && x < y < n ==> !#[trigger] pair_fits(accts@, target, x, y),
        decreases n - i,
    {
        let mut j: usize = i + 1;
        while j < n
            invariant
                n == accts@.len(),
                i < n,
                i + 1 <= j <= n,
                forall|x: int, y: int|
                    0 <= x < i && x < y < n ==> !#[trigger] pair_fits(accts@, target, x, y),
                forall|y: int| i < y < j ==> !#[trigger] pair_fits(accts@, target, i as int, y),
            decreases n - j,
        {
            let sum: u128 = accts[i].rent_lamports as u128 + accts[j].rent_lamports as u128;
            if within(sum, target as u128) {
                return Some((i, j));
            }
            j = j + 1;
        }
        i = i + 1;
    }
    None
}

/// Whether triple `(x, y, z)` comes before `(a, b, c)` in lexicographic order.
pub open spec fn triple_before(x: int, y: int, z: int, a: int, b: int, c: int) -> bool {
    x < a || (x == a && (y < b || (y == b && z < c)))
}

/// The first triple (in lexicographic order of positions) whose rents sum to `target`.
fn find_triple(target: u64, accts: &Vec<SponsoredAccount>) -> (r: Option<(usize, usize, usize)>)
    ensures
        match r {
            Some((a, b, c)) => a < b < c < accts@.len() && triple_fits(
                accts@,
                target,
                a as int,
                b as int,
                c as int,
            ) && forall|x: int, y: int, z: int|
                0 <= x < y < z < accts@.len() && triple_before(x, y, z, a as int, b as int, c as int)
                    ==> !#[trigger] triple_fits(accts@, target, x, y, z),
            None => !some_triple_fits(accts@, target),
        },
{
    let n = accts.len();
    let mut i: usize = 0;
    while i < n
        invariant
            n == accts@.len(),
            0 <= i <= n,
            forall|x: int, y: int, z: int|
                0 <= x < i && x < y < z < n ==> !#[trigger] triple_fits(accts@, target, x, y, z),
        decreases n - i,
    {
        let mut j: usize = i + 1;
        while j < n
            invariant
                n == accts@.len(),
                i < n,
                i + 1 <= j <= n,
                forall|x: int, y: int, z: int|
                    0 <= x < i && x < y < z < n ==> !#[trigger] triple_fits(accts@, target, x, y, z),
                forall|y: int, z: int|
                    i < y < j && y < z < n ==> !#[trigger] triple_fits(accts@, target, i as int, y, z),
            decreases n - j,
        {
            let mut k: usize = j + 1;
            while k < n
                invariant
                    n == accts@.len(),
                    i < j < n,
                    j + 1 <= k <= n,
                    forall|x: int, y: int, z: int|
                        0 <= x < i && x < y < z < n ==> !#[trigger] triple_fits(
                            accts@,
                            target,
                            x,
                            y,
                            z,
                        ),
                    forall|y: int, z: int|
                        i < y < j && y < z < n ==> !#[trigger] triple_fits(
                            accts@,
                            target,
                            i as int,
                            y,
                            z,
                        ),
                    forall|z: int|
                        j < z < k ==> !#[trigger] triple_fits(accts@, target, i as int, j as int, z),
                decreases n - k,
            {
                let sum: u128 = accts[i].rent_lamports as u128 + accts[j].rent_lamports as u128
                    + accts[k].rent_lamports as u128;
                if within(sum, target as u128) {
                    return Some((i, j, k));
                }
                k = k + 1;
            }
            j = j + 1;
        }
        i = i + 1;
    }
    None
}

/// The all-zero address, which stands for a record whose key does not decode.
pub open spec fn default_key() -> Seq<u8> {
    Seq::new(32, |i: int| 0u8)
}

/// The address a record's key decodes to, or the all-zero address.
pub open spec fn key_or_default(a: SponsoredAccount) -> Seq<u8> {
    match decoded_address(a.pubkey@) {
        Some(b) => b,
        None => default_key(),
    }
}

pub open spec fn key_decodes(a: SponsoredAccount) -> bool {
    decoded_address(a.pubkey@) is Some
}

/// `a` is the first position whose rent matches `target`.
pub open spec fn first_single(accts: Seq<SponsoredAccount>, target: u64, a: int) -> bool {
    &&& 0 <= a < accts.len()
    &&& single_fits(accts, target, a)
    &&& forall|x: int| 0 <= x < a ==> !#[trigger] single_fits(accts, target, x)
}

/// `(a, b)` is the first pair, in lexicographic order, whose rents sum to `target`.
pub open spec fn first_pair(accts: Seq<SponsoredAccount>, target: u64, a: int, b: int) -> bool {
    &&& 0 <= a < b < accts.len()
    &&& pair_fits(accts, target, a, b)
    &&& forall|x: int, y: int|
        0 <= x < y < accts.len() && (x < a || (x == a && y < b)) ==> !#[trigger] pair_fits(
            accts,
            target,
            x,
            y,
        )
}

/// `(a, b, c)` is the first triple, in lexicographic order, whose rents sum to `target`.
pub open spec fn first_triple(accts: Seq<SponsoredAccount>, target: u64, a: int, b: int, c: int) -> bool {
    &&& 0 <= a < b < c < accts.len()
    &&& triple_fits(accts, target, a, b, c)
    &&& forall|x: int, y: int, z: int|
        0 <= x < y < z < accts.len() && triple_before(x, y, z, a, b, c) ==> !#[trigger] triple_fits(
            accts,
            target,
            x,
            y,
            z,
        )
}

proof fn lemma_first_single_unique(accts: Seq<SponsoredAccount>, t: u64, a: int, b: int)
    requires
        first_single(accts, t, a),
        first_single(accts, t, b),
    ensures
        a == b,
{
    if a < b {
        assert(!single_fits(accts, t, a));
    } else if b < a {
        assert(!single_fits(accts, t, b));
    }
}

proof fn lemma_first_pair_unique(accts: Seq<SponsoredAccount>, t: u64, a: int, b: int, c: int, d: int)
    requires
        first_pair(accts, t, a, b),
        first_pair(accts, t, c, d),
    ensures
        a == c && b == d,
{
    if a < c || (a == c && b < d) {
        assert(!pair_fits(accts, t, a, b));
    } else if c < a || (a == c && d < b) {
        assert(!pair_fits(accts, t, c, d));
    }
}

proof fn lemma_first_triple_unique(
    accts: Seq<SponsoredAccount>,
    t: u64,
    a: int,
    b: int,
    c: int,
    d: int,
    e: int,
    f: int,
)
    requires
        first_triple(accts, t, a, b, c),
        first_triple(accts, t, d, e, f),
    ensures
        a == d && b == e && c == f,
{
    if triple_before(a, b, c, d, e, f) {
        assert(!triple_fits(accts, t, a, b, c));
    } else if triple_before(d, e, f, a, b, c) {
        assert(!triple_fits(accts, t, d, e, f));
    }
}

/// The decoded keys of the records of `s` whose keys decode, in order.
pub open spec fn decoded_keys(s: Seq<SponsoredAccount>) -> Seq<Seq<u8>>
    decreases s.len(),
{
    if s.len() == 0 {
        Seq::empty()
    } else if key_decodes(s.last()) {
        decoded_keys(s.drop_last()).push(key_or_default(s.last()))
    } else {
        decoded_keys(s.drop_last())
    }
}

/// The fallback when nothing matches: the decoded keys of the first few
/// closed accounts (Low), or nothing when there are none (Unknown).
pub open spec fn guess_spec(accts: Seq<SponsoredAccount>) -> (ConfidenceLevel, Seq<Seq<u8>>) {
    if accts.len() == 0 {
        (ConfidenceLevel::Unknown, Seq::empty())
    } else {
        (
            ConfidenceLevel::Low,
            decoded_keys(
                accts.subrange(
                    0,
                    if accts.len() <= MAX_GUESSED_ACCOUNTS {
                        accts.len() as int
                    } else {
                        MAX_GUESSED_ACCOUNTS as int
                    },
                ),
            ),
        )
    }
}

/// The attribution of an increase of `t` lamports, in order of decreasing
/// confidence: the first account whose rent matches (High; a key that does
/// not decode is attributed as the all-zero address); else the first pair,
/// or when no pair matches the first triple, whose rents sum to a match
/// (Medium, provided all its keys decode; otherwise the fallback); else the
/// fallback of `guess_spec`.
pub open spec fn attribution_spec(accts: Seq<SponsoredAccount>, t: u64) -> (ConfidenceLevel, Seq<
    Seq<u8>,
>) {
    if some_single_fits(accts, t) {
        let a = choose|a: int| first_single(accts, t, a);
        (ConfidenceLevel::High, seq![key_or_default(accts[a])])
    } else if some_pair_fits(accts, t) {
        let (a, b) = choose|a: int, b: int| first_pair(accts, t, a, b);
        if key_decodes(accts[a]) && key_decodes(accts[b]) {
            (ConfidenceLevel::Medium, seq![key_or_default(accts[a]), key_or_default(accts[b])])
        } else {
            guess_spec(accts)
        }
    } else if some_triple_fits(accts, t) {
        let (a, b, c) = choose|a: int, b: int, c: int| first_triple(accts, t, a, b, c);
        if key_decodes(accts[a]) && key_decodes(accts[b]) && key_decodes(accts[c]) {
            (
                ConfidenceLevel::Medium,
                seq![key_or_default(accts[a]), key_or_default(accts[b]), key_or_default(accts[c])],
            )
        } else {
            guess_spec(accts)
        }
    } else {
        guess_spec(accts)
    }
}

/// Whether `k` is the key of some record of `accts`.
pub open spec fn known_key(accts: Seq<SponsoredAccount>, k: Seq<u8>) -> bool {
    exists|i: int| 0 <= i < accts.len() && #[trigger] key_or_default(accts[i]) == k
}

proof fn lemma_decoded_keys_known(s: Seq<SponsoredAccount>)
    ensures
        forall|k: int| 0 <= k < decoded_keys(s).len() ==> known_key(s, #[trigger] decoded_keys(s)[k]),
    decreases s.len(),
{
    if s.len() > 0 {
        let prev = s.drop_last();
        lemma_decoded_keys_known(prev);
        assert forall|k: int| 0 <= k < decoded_keys(s).len() implies known_key(
            s,
            #[trigger] decoded_keys(s)[k],
        ) by {
            if k < decoded_keys(prev).len() {
                assert(decoded_keys(s)[k] == decoded_keys(prev)[k]);
                let i = choose|i: int| 0 <= i < prev.len() && #[trigger] key_or_default(prev[i]) == decoded_keys(prev)[k];
                assert(s[i] == prev[i]);
            } else {
                assert(key_or_default(s[s.len() - 1]) == decoded_keys(s)[k]);
            }
        }
    }
}

pub open spec fn address_views(v: Seq<Address>) -> Seq<Seq<u8>> {
    v.map_values(|a: Address| a@)
}

/// The address a record's key decodes to, or the all-zero address.
fn key_or_default_of(a: &SponsoredAccount) -> (r: Address)
    ensures
        r@ == key_or_default(*a),
{
    match Address::parse(a.pubkey.as_str()) {
        Some(k) => k,
        None => {
            let z = Address::from_bytes([0u8; 32]);
            assert(z@ =~= default_key());
            z
        },
    }
}

/// The decoded keys among the first `count` records.
fn leading_keys(accts: &Vec<SponsoredAccount>, count: usize) -> (r: Vec<Address>)
    requires
        count <= accts@.len(),
    ensures
        address_views(r@) == decoded_keys(accts@.subrange(0, count as int)),
{
    let mut out: Vec<Address> = Vec::new();
    let mut i: usize = 0;
    while i < count
        invariant
            count <= accts@.len(),
            0 <= i <= count,
            address_views(out@) == decoded_keys(accts@.subrange(0, i as int)),
        decreases count - i,
    {
        assert(accts@.subrange(0, i + 1).drop_last() =~= accts@.subrange(0, i as int));
        if let Some(k) = Address::parse(accts[i].pubkey.as_str()) {
            out.push(k);
            assert(address_views(out@) =~= decoded_keys(accts@.subrange(0, i as int)).push(k@));
        }
        i = i + 1;
    }
    out
}

fn guess(increase: u64, closed_accounts: &Vec<SponsoredAccount>, now: i64) -> (r: PassiveReclaim)
    ensures
        r.amount == increase,
        r.timestamp == now,
        (r.confidence, address_views(r.attributed_accounts@)) == guess_spec(closed_accounts@),
        forall|k: int|
            0 <= k < r.attributed_accounts@.len() ==> known_key(
                closed_accounts@,
                #[trigger] r.attributed_accounts@[k]@,
            ),
{
    let count = if closed_accounts.len() <= MAX_GUESSED_ACCOUNTS {
        closed_accounts.len()
    } else {
        MAX_GUESSED_ACCOUNTS
    };
    let keys = leading_keys(closed_accounts, count);
    proof {
        let prefix = closed_accounts@.subrange(0, count as int);
        lemma_decoded_keys_known(prefix);
        assert forall|k: int| 0 <= k < keys@.len() implies known_key(
            closed_accounts@,
            #[trigger] keys@[k]@,
        ) by {
            assert(address_views(keys@)[k] == keys@[k]@);
            let i = choose|i: int|
                0 <= i < prefix.len() && #[trigger] key_or_default(prefix[i]) == decoded_keys(prefix)[k];
            assert(prefix[i] == closed_accounts@[i]);
        }
    }
    if closed_accounts.len() == 0 {
        assert(address_views(keys@) =~= Seq::<Seq<u8>>::empty());
    }
    let confidence = if closed_accounts.len() == 0 {
        ConfidenceLevel::Unknown
    } else {
        ConfidenceLevel::Low
    };
    PassiveReclaim { amount: increase, timestamp: now, attributed_accounts: keys, confidence }
}

pub struct TreasuryReconciliation;

impl TreasuryReconciliation {
    /// Attributes a treasury increase of `increase` lamports to recently
    /// closed accounts, as `attribution_spec` says. The record's amount is
    /// always the observed increase, and a high-confidence attribution names
    /// one account whose recorded rent is within the tolerance of it.
    pub fn match_amount_to_accounts(increase: u64, closed_accounts: &Vec<SponsoredAccount>, now: i64) -> (r:
        Vec<PassiveReclaim>)
        ensures
            r@.len() == 1,
            r@[0].amount == increase,
            r@[0].timestamp == now,
            (r@[0].confidence, address_views(r@[0].attributed_accounts@)) == attribution_spec(
                closed_accounts@,
                increase,
            ),
            r@[0].confidence == ConfidenceLevel::High ==> r@[0].attributed_accounts@.len() == 1
                && exists|a: int|
                #![trigger closed_accounts@[a]]
                0 <= a < closed_accounts@.len() && within_tolerance(
                    closed_accounts@[a].rent_lamports as int,
                    increase as int,
                ) && r@[0].attributed_accounts@[0]@ == key_or_default(closed_accounts@[a]),
            forall|k: int|
                0 <= k < r@[0].attributed_accounts@.len() ==> known_key(
                    closed_accounts@,
                    #[trigger] r@[0].attributed_accounts@[k]@,
                ),
    {
        let ghost accts = closed_accounts@;
        let mut out: Vec<PassiveReclaim> = Vec::new();
        if let Some(a) = find_single(increase, closed_accounts) {
            proof {
                assert(first_single(accts, increase, a as int));
                let c = choose|c: int| first_single(accts, increase, c);
                lemma_first_single_unique(accts, increase, a as int, c);
            }
            let keys = vec![key_or_default_of(&closed_accounts[a])];
            out.push(
                PassiveReclaim {
                    amount: increase,
                    timestamp: now,
                    attributed_accounts: keys,
                    confidence: ConfidenceLevel::High,
                },
            );
            assert(address_views(out@[0].attributed_accounts@) =~= seq![key_or_default(accts[a as int])]);
            assert(closed_accounts@[a as int] == accts[a as int]);
            assert(out@[0].attributed_accounts@[0]@ == key_or_default(accts[a as int]));
            assert(known_key(accts, key_or_default(accts[a as int])));
            return out;
        }
        if closed_accounts.len() >= 2 {
            if let Some((a, b)) = find_pair(increase, closed_accounts) {
                proof {
                    assert(first_pair(accts, increase, a as int, b as int));
                    let (c, d) = choose|c: int, d: int| first_pair(accts, increase, c, d);
                    lemma_first_pair_unique(accts, increase, a as int, b as int, c, d);
                }
                let ka = Address::parse(closed_accounts[a].pubkey.as_str());
                let kb = Address::parse(closed_accounts[b].pubkey.as_str());
                if let (Some(ka), Some(kb)) = (ka, kb) {
                    out.push(
                        PassiveReclaim {
                            amount: increase,
                            timestamp: now,
                            attributed_accounts: vec![ka, kb],
                            confidence: ConfidenceLevel::Medium,
                        },
                    );
                    assert(address_views(out@[0].attributed_accounts@) =~= seq![
                        key_or_default(accts[a as int]),
                        key_or_default(accts[b as int]),
                    ]);
                    assert(known_key(accts, key_or_default(accts[a as int])));
                    assert(known_key(accts, key_or_default(accts[b as int])));
                    assert(out@[0].attributed_accounts@[0]@ == key_or_default(accts[a as int]));
                    assert(out@[0].attributed_accounts@[1]@ == key_or_default(accts[b as int]));
                    return out;
                }
                out.push(guess(increase, closed_accounts, now));
                return out;
            }
            if let Some((a, b, c)) = find_triple(increase, closed_accounts) {
                proof {
                    assert(first_triple(accts, increase, a as int, b as int, c as int));
                    let (d, e, f) = choose|d: int, e: int, f: int| first_triple(accts, increase, d, e, f);
                    lemma_first_triple_unique(accts, increase, a as int, b as int, c as int, d, e, f);
                }
                let ka = Address::parse(closed_accounts[a].pubkey.as_str());
                let kb = Address::parse(closed_accounts[b].pubkey.as_str());
                let kc = Address::parse(closed_accounts[c].pubkey.as_str());
                if let (Some(ka), Some(kb), Some(kc)) = (ka, kb, kc) {
                    out.push(
                        PassiveReclaim {
                            amount: increase,
                            timestamp: now,
                            attributed_accounts: vec![ka, kb, kc],
                            confidence: ConfidenceLevel::Medium,
                        },
                    );
                    assert(address_views(out@[0].attributed_accounts@) =~= seq![
                        key_or_default(accts[a as int]),
                        key_or_default(accts[b as int]),
                        key_or_default(accts[c as int]),
                    ]);
                    assert(known_key(accts, key_or_default(accts[a as int])));
                    assert(known_key(accts, key_or_default(accts[b as int])));
                    assert(known_key(accts, key_or_default(accts[c as int])));
                    assert(out@[0].attributed_accounts@[0]@ == key_or_default(accts[a as int]));
                    assert(out@[0].attributed_accounts@[1]@ == key_or_default(accts[b as int]));
                    assert(out@[0].attributed_accounts@[2]@ == key_or_default(accts[c as int]));
                    return out;
                }
                out.push(guess(increase, closed_accounts, now));
                return out;
            }
        } else {
            proof {
                assert(!some_pair_fits(closed_accounts@, increase));
                assert(!some_triple_fits(closed_accounts@, increase));
            }
        }
        out.push(guess(increase, closed_accounts, now));
        out
    }
}

// ---------------------------------------------------------------------------
// Watching the treasury
// ---------------------------------------------------------------------------

/// The rise of the treasury balance since the last recorded value; `None`
/// when it is unchanged or fell (spending is normal).
pub fn balance_increase(last: u64, current: u64) -> (r: Option<u64>)
    ensures
        r == if current > last {
            Some((current - last) as u64)
        } else {
            None::<u64>
        },
{
    if current > last {
        Some(current - last)
    } else {
        None
    }
}

/// Whether any attribution already has high confidence; if none has, still
/// active accounts with matching rent are probed on chain.
pub fn has_high_confidence(matches: &Vec<PassiveReclaim>) -> (r: bool)
    ensures
        r == exists|k: int|
            0 <= k < matches@.len() && #[trigger] matches@[k].confidence == ConfidenceLevel::High,
{
    let mut i: usize = 0;
    while i < matches.len()
        invariant
            0 <= i <= matches@.len(),
            forall|k: int| 0 <= k < i ==> #[trigger] matches@[k].confidence != ConfidenceLevel::High,
        decreases matches@.len() - i,
    {
        if matches[i].confidence == ConfidenceLevel::High {
            return true;
        }
        i = i + 1;
    }
    false
}

impl SponsoredAccount {
    /// A copy of the record.
    pub fn clone_record(&self) -> (r: SponsoredAccount)
        ensures
            r == *self,
    {
        SponsoredAccount {
            pubkey: self.pubkey.clone(),
            created_at: self.created_at,
            closed_at: self.closed_at,
            rent_lamports: self.rent_lamports,
            data_size: self.data_size,
            status: self.status,
            creation_signature: match &self.creation_signature {
                Some(s) => Some(s.clone()),
                None => None,
            },
            creation_slot: self.creation_slot,
            close_authority: match &self.close_authority {
                Some(s) => Some(s.clone()),
                None => None,
            },
            reclaim_strategy: self.reclaim_strategy,
        }
    }
}

/// Whether a record is worth probing for an increase: still active, with a
/// recorded rent within the tolerance of the increase.
pub open spec fn probe_candidate(a: SponsoredAccount, increase: u64) -> bool {
    a.status == AccountStatus::Active && within_tolerance(a.rent_lamports as int, increase as int)
}

/// The candidates among `s`, in order.
pub open spec fn candidates_in(s: Seq<SponsoredAccount>, increase: u64) -> Seq<SponsoredAccount>
    decreases s.len(),
{
    if s.len() == 0 {
        Seq::empty()
    } else if probe_candidate(s.last(), increase) {
        candidates_in(s.drop_last(), increase).push(s.last())
    } else {
        candidates_in(s.drop_last(), increase)
    }
}

/// The active accounts whose recorded rent matches the increase.
pub fn select_probe_candidates(increase: u64, accounts: &Vec<SponsoredAccount>) -> (r: Vec<
    SponsoredAccount,
>)
    ensures
        r@ == candidates_in(accounts@, increase),
{
    let mut out: Vec<SponsoredAccount> = Vec::new();
    let mut i: usize = 0;
    while i < accounts.len()
        invariant
            0 <= i <= accounts@.len(),
            out@ == candidates_in(accounts@.subrange(0, i as int), increase),
        decreases accounts@.len() - i,
    {
        assert(accounts@.subrange(0, i + 1).drop_last() =~= accounts@.subrange(0, i as int));
        let a = &accounts[i];
        if a.status == AccountStatus::Active && within(a.rent_lamports as u128, increase as u128) {
            out.push(a.clone_record());
        }
        i = i + 1;
    }
    assert(accounts@.subrange(0, accounts@.len() as int) =~= accounts@);
    out
}

/// Whether a probe shows an account gone: absent, or holding no lamports.
pub open spec fn probe_shows_closed(lamports: Option<u64>) -> bool {
    lamports is None || lamports == Some(0u64)
}

/// The record as it is stored once found closed: status `Closed` at `now`,
/// no close authority, and passive monitoring as its strategy.
pub open spec fn marked_closed(a: SponsoredAccount, now: i64) -> SponsoredAccount {
    SponsoredAccount {
        status: AccountStatus::Closed,
        closed_at: Some(now),
        close_authority: None,
        reclaim_strategy: Some(crate::models::ReclaimStrategy::PassiveMonitoring),
        ..a
    }
}

/// The records found closed by the probes, in order, marked closed.
pub open spec fn found_closed(probes: Seq<(SponsoredAccount, Option<u64>)>, now: i64) -> Seq<
    SponsoredAccount,
>
    decreases probes.len(),
{
    if probes.len() == 0 {
        Seq::empty()
    } else if probe_shows_closed(probes.last().1) {
        found_closed(probes.drop_last(), now).push(marked_closed(probes.last().0, now))
    } else {
        found_closed(probes.drop_last(), now)
    }
}

/// Adds to `closed` each probed candidate that turned out to be closed on
/// chain (marked closed at `now`), and says whether there was any; when
/// there was, the increase is matched again against the longer list.
pub fn absorb_probes(
    closed: &mut Vec<SponsoredAccount>,
    probes: &Vec<(SponsoredAccount, Option<u64>)>,
    now: i64,
) -> (r: bool)
    ensures
        final(closed)@ == old(closed)@ + found_closed(probes@, now),
        r == (found_closed(probes@, now).len() > 0),
{
    let ghost start = closed@;
    let mut i: usize = 0;
    let mut any = false;
    while i < probes.len()
        invariant
            0 <= i <= probes@.len(),
            closed@ == start + found_closed(probes@.subrange(0, i as int), now),
            any == (found_closed(probes@.subrange(0, i as int), now).len() > 0),
        decreases probes@.len() - i,
    {
        assert(probes@.subrange(0, i + 1).drop_last() =~= probes@.subrange(0, i as int));
        let shows_closed = match probes[i].1 {
            None => true,
            Some(l) => l == 0,
        };
        if shows_closed {
            let mut a = probes[i].0.clone_record();
            a.status = AccountStatus::Closed;
            a.closed_at = Some(now);
            a.close_authority = None;
            a.reclaim_strategy = Some(crate::models::ReclaimStrategy::PassiveMonitoring);
            closed.push(a);
            any = true;
            assert(closed@ =~= start + found_closed(probes@.subrange(0, i + 1), now));
        }
        i = i + 1;
    }
    assert(probes@.subrange(0, probes@.len() as int) =~= probes@);
    any
}

} // verus!
