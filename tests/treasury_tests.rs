use kora_reclaim::address::Address;
use kora_reclaim::models::{active_rent_total, AccountStatus, SponsoredAccount};
use kora_reclaim::reconciliation::{
    absorb_probes, balance_increase, has_high_confidence, select_probe_candidates, ConfidenceLevel,
    TreasuryReconciliation, TOLERANCE,
};

fn key() -> String {
    solana_sdk::pubkey::Pubkey::new_unique().to_string()
}

fn addr(text: &str) -> Address {
    Address::parse(text).expect("a valid key")
}

fn record(name: &str, rent: u64, status: AccountStatus) -> SponsoredAccount {
    SponsoredAccount {
        pubkey: name.to_string(),
        created_at: 1_700_000_000,
        closed_at: None,
        rent_lamports: rent,
        data_size: 165,
        status,
        creation_signature: None,
        creation_slot: None,
        close_authority: None,
        reclaim_strategy: None,
    }
}

#[test]
fn single_account_rent_matches_with_high_confidence() {
    let (a, b) = (key(), key());
    let closed = vec![
        record(&a, 1_000_000, AccountStatus::Closed),
        record(&b, 2_039_280, AccountStatus::Closed),
    ];
    let r = TreasuryReconciliation::match_amount_to_accounts(2_039_280 + 4_000, &closed, 42);
    assert_eq!(r.len(), 1);
    assert_eq!(r[0].confidence, ConfidenceLevel::High);
    assert_eq!(r[0].attributed_accounts.len(), 1);
    assert!(r[0].attributed_accounts[0] == addr(&b));
    assert_eq!(r[0].amount, 2_043_280);
    assert_eq!(r[0].timestamp, 42);
    let attributed = closed.iter().find(|x| x.pubkey == r[0].attributed_accounts[0].to_text()).unwrap();
    assert!(attributed.rent_lamports.abs_diff(r[0].amount) <= TOLERANCE);
    assert!(has_high_confidence(&r));
}

#[test]
fn pairs_and_triples_match_with_medium_confidence() {
    let (a, b, c) = (key(), key(), key());
    let closed = vec![
        record(&a, 100_000, AccountStatus::Closed),
        record(&b, 200_000, AccountStatus::Closed),
        record(&c, 400_000, AccountStatus::Closed),
    ];
    let pair = TreasuryReconciliation::match_amount_to_accounts(600_000, &closed, 0);
    assert_eq!(pair[0].confidence, ConfidenceLevel::Medium);
    assert_eq!(pair[0].attributed_accounts.len(), 2);
    assert!(pair[0].attributed_accounts[0] == addr(&b) && pair[0].attributed_accounts[1] == addr(&c));
    let triple = TreasuryReconciliation::match_amount_to_accounts(700_000, &closed, 0);
    assert_eq!(triple[0].confidence, ConfidenceLevel::Medium);
    assert_eq!(triple[0].attributed_accounts.len(), 3);
    assert!(!has_high_confidence(&triple));
}

#[test]
fn unmatched_increase_is_a_low_or_unknown_guess() {
    let closed: Vec<SponsoredAccount> =
        (0..7).map(|i| record(&key(), 10_000_000 * (i + 1), AccountStatus::Closed)).collect();
    let low = TreasuryReconciliation::match_amount_to_accounts(1, &closed, 0);
    assert_eq!(low[0].confidence, ConfidenceLevel::Low);
    assert_eq!(low[0].attributed_accounts.len(), 5);
    assert!(low[0].attributed_accounts[0] == addr(&closed[0].pubkey));
    let none = TreasuryReconciliation::match_amount_to_accounts(1, &vec![], 0);
    assert_eq!(none[0].confidence, ConfidenceLevel::Unknown);
    assert!(none[0].attributed_accounts.is_empty());
    assert_eq!(none[0].confidence.as_text(), "Unknown");
}

#[test]
fn balance_changes_and_probes() {
    assert_eq!(balance_increase(100, 150), Some(50));
    assert_eq!(balance_increase(150, 100), None);
    assert_eq!(balance_increase(150, 150), None);
    let active = vec![
        record("near", 2_040_000, AccountStatus::Active),
        record("far", 9_000_000, AccountStatus::Active),
        record("done", 2_039_280, AccountStatus::Closed),
    ];
    let candidates = select_probe_candidates(2_039_280, &active);
    assert_eq!(candidates.len(), 1);
    assert_eq!(candidates[0].pubkey, "near");
    let mut closed = Vec::new();
    let probes = vec![(candidates[0].clone(), None), (record("alive", 2_039_280, AccountStatus::Active), Some(5))];
    assert!(absorb_probes(&mut closed, &probes, 77));
    assert_eq!(closed.len(), 1);
    assert_eq!(closed[0].status, AccountStatus::Closed);
    assert_eq!(closed[0].closed_at, Some(77));
    let r = TreasuryReconciliation::match_amount_to_accounts(2_039_280, &closed, 78);
    assert_eq!(r[0].confidence, ConfidenceLevel::High);
    let mut none = Vec::new();
    assert!(!absorb_probes(&mut none, &vec![(record("x", 1, AccountStatus::Active), Some(1))], 0));
}

#[test]
fn records_change_status() {
    let mut a = SponsoredAccount::new(&kora_reclaim::address::Address::system_program(), 10, 0, 5);
    assert_eq!(a.pubkey, "11111111111111111111111111111111");
    assert_eq!(a.status, AccountStatus::Active);
    a.mark_closed(9);
    assert_eq!(a.status, AccountStatus::Closed);
    assert_eq!(a.closed_at, Some(9));
    a.mark_reclaimed();
    assert_eq!(a.status, AccountStatus::Reclaimed);
    assert_eq!(a.status.as_text(), "Reclaimed");
}

#[test]
fn only_active_accounts_lock_rent() {
    let records = vec![
        record("a", 100, AccountStatus::Active),
        record("b", 50, AccountStatus::Closed),
        record("c", 7, AccountStatus::Active),
    ];
    assert_eq!(active_rent_total(&records), 107);
    assert_eq!(active_rent_total(&vec![record("x", u64::MAX, AccountStatus::Active), record("y", 1, AccountStatus::Active)]), u64::MAX);
}

#[test]
fn keys_that_do_not_decode() {
    let single = vec![record("not a key", 5_000_000, AccountStatus::Closed)];
    let r = TreasuryReconciliation::match_amount_to_accounts(5_000_000, &single, 0);
    assert_eq!(r[0].confidence, ConfidenceLevel::High);
    assert_eq!(r[0].attributed_accounts[0].bytes, [0u8; 32]);
    let good = key();
    let pair = vec![
        record("bad", 100_000, AccountStatus::Closed),
        record(&good, 200_000, AccountStatus::Closed),
    ];
    let r = TreasuryReconciliation::match_amount_to_accounts(300_000, &pair, 0);
    assert_eq!(r[0].confidence, ConfidenceLevel::Low);
    assert_eq!(r[0].attributed_accounts.len(), 1);
    assert!(r[0].attributed_accounts[0] == addr(&good));
}
