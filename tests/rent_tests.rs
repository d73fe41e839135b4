use kora_reclaim::address::Address;
use kora_reclaim::display::{format_pubkey, format_pubkey_tg, format_sol_tg, truncate, truncate_address, truncate_pubkey};
use kora_reclaim::rent::{AccountSnapshot, RentCalculator, LAMPORTS_PER_SOL};

fn system_account(lamports: u64, data: Vec<u8>) -> AccountSnapshot {
    AccountSnapshot { lamports, owner: Address::system_program(), data }
}

#[test]
fn test_calculate_rent() {
    let account = system_account(1_000_000, vec![0; 100]);
    assert_eq!(RentCalculator::calculate_rent(&account), 1_000_000);
}

#[test]
fn test_is_empty_account() {
    let empty = system_account(1000, vec![]);
    assert!(RentCalculator::is_empty_account(&empty, 1000));

    let non_empty = system_account(1000, vec![1, 2, 3]);
    assert!(!RentCalculator::is_empty_account(&non_empty, 1000));
}

#[test]
fn zeroed_data_at_minimum_is_empty() {
    let zeroed = system_account(1000, vec![0; 16]);
    assert!(RentCalculator::is_empty_account(&zeroed, 1000));
    let above = system_account(1001, vec![0; 16]);
    assert!(!RentCalculator::is_empty_account(&above, 1000));
}

#[test]
fn total_rent_and_exemption() {
    let accounts = vec![
        (system_account(10, vec![]), "a".to_string()),
        (system_account(32, vec![1]), "b".to_string()),
    ];
    assert_eq!(RentCalculator::calculate_total_rent(&accounts), 42);
    assert_eq!(RentCalculator::get_data_size(&accounts[1].0), 1);
    assert!(RentCalculator::is_rent_exempt(&accounts[1].0, 32));
    assert!(!RentCalculator::is_rent_exempt(&accounts[0].0, 11));
}

#[test]
fn sol_amounts_have_nine_decimals() {
    assert_eq!(RentCalculator::format_sol(2_039_280), "0.002039280 SOL");
    assert_eq!(RentCalculator::format_sol(LAMPORTS_PER_SOL), "1.000000000 SOL");
    assert_eq!(RentCalculator::format_sol(0), "0.000000000 SOL");
    assert_eq!(format_sol_tg(12_345_678_901), "12.345678901 SOL");
}

#[test]
fn addresses_are_shortened_for_display() {
    let key = "TokenkegQfeZyiNwAJbNbGKPFXCWuBvf9Ss623VQ5DA";
    assert_eq!(format_pubkey(key), "Tokenk...3VQ5DA");
    assert_eq!(format_pubkey("short"), "short");
    assert_eq!(format_pubkey_tg(key), "`Tokenkeg...623VQ5DA`");
    assert_eq!(format_pubkey_tg("abc"), "`abc`");
    assert_eq!(truncate_pubkey(key), "Tokenkeg...623VQ5DA");
    assert_eq!(truncate_address(key), "Tokenk...3VQ5DA");
    assert_eq!(truncate("x".repeat(41).as_str()), format!("{}...{}", "x".repeat(16), "x".repeat(16)));
    assert_eq!(truncate("short"), "short");
}
