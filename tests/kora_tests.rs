use kora_reclaim::address::Address;
use kora_reclaim::discovery::{AccountType, SignatureEntry, SponsoredAccountInfo as Discovered};
use kora_reclaim::kora::{add_locked_rent, is_kora_sponsored, OldestSignatureSearch, SponsoredAccountInfo};
use kora_reclaim::navigation::{next_item, previous_item, Screen};
use solana_sdk::pubkey::Pubkey;

#[test]
fn sponsorship_is_judged_by_the_fee_payer() {
    let op = Pubkey::new_unique();
    let operator = Address::from_bytes(op.to_bytes());
    let payer = Some(op.to_string());
    assert!(is_kora_sponsored(false, true, &payer, &operator));
    assert!(!is_kora_sponsored(true, true, &payer, &operator));
    assert!(!is_kora_sponsored(false, false, &payer, &operator));
    assert!(!is_kora_sponsored(false, true, &Some(Pubkey::new_unique().to_string()), &operator));
    assert!(!is_kora_sponsored(false, true, &None, &operator));
    assert!(!is_kora_sponsored(false, true, &Some("junk".to_string()), &operator));
}

#[test]
fn oldest_signature_search_stops() {
    let mut search = OldestSignatureSearch::new();
    let first = search.next_page().expect("a first page");
    assert_eq!(first.limit, 1000);
    assert!(first.before.is_none());
    let full: Vec<SignatureEntry> =
        (0..1000).map(|i| SignatureEntry { signature: format!("s{}", i), failed: false }).collect();
    search.absorb_page(&full);
    assert_eq!(search.next_page().unwrap().before.as_deref(), Some("s999"));
    search.absorb_page(&vec![SignatureEntry { signature: "first".to_string(), failed: false }]);
    assert_eq!(search.oldest.as_deref(), Some("first"));
    assert!(search.next_page().is_none());
}

#[test]
fn locked_rent_saturates() {
    assert_eq!(add_locked_rent(5, &vec![Some(10), None, Some(20)]), 35);
    assert_eq!(add_locked_rent(u64::MAX - 1, &vec![Some(10)]), u64::MAX);
}

#[test]
fn discovered_accounts_become_records() {
    let info = Discovered {
        address: Address::system_program(),
        creation_signature: "sig".to_string(),
        creation_slot: 9,
        creation_time: 100,
        initial_balance: None,
        data_size: 165,
        account_type: AccountType::SplToken,
    };
    let r = SponsoredAccountInfo::from_discovered(&info, Some(200));
    assert_eq!(r.rent_lamports, 0);
    assert_eq!(r.created_at, 100);
    assert_eq!(r.last_activity, Some(200));
    assert_eq!(r.creation_signature, "sig");
}

#[test]
fn screens_and_rows_wrap_around() {
    assert_eq!(Screen::Settings.next_screen(), Screen::Dashboard);
    assert_eq!(Screen::Dashboard.previous_screen(), Screen::Settings);
    assert_eq!(Screen::Accounts.next_screen(), Screen::Operations);
    assert_eq!(next_item(2, 3), 0);
    assert_eq!(next_item(0, 3), 1);
    assert_eq!(next_item(4, 0), 4);
    assert_eq!(previous_item(0, 3), 2);
    assert_eq!(previous_item(2, 3), 1);
}
