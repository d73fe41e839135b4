use kora_reclaim::address::Address;
use kora_reclaim::discovery::{
    creation_time, estimate_time_from_slot, parse_instruction_for_creation,
    parse_transaction_for_creations, AccountType, DiscoveryScan, FieldValue, InstructionInfo,
    InstructionRecord, ParsedInstruction, SignatureEntry, TransactionRecord, ATA_RENT_EXEMPTION,
};
use solana_sdk::pubkey::Pubkey;

fn info(account: FieldValue, new_account: FieldValue) -> InstructionInfo {
    InstructionInfo {
        account,
        new_account,
        address: FieldValue::Missing,
        lamports: FieldValue::Missing,
        space: FieldValue::Missing,
    }
}

fn text(s: &str) -> FieldValue {
    FieldValue::Text(s.to_string())
}

fn ata_create(account: &str) -> ParsedInstruction {
    ParsedInstruction {
        program: "spl-associated-token-account".to_string(),
        kind: Some("create".to_string()),
        info: Some(info(text(account), FieldValue::Missing)),
    }
}

fn system_create(new_account: &str, lamports: u64, space: u64) -> ParsedInstruction {
    ParsedInstruction {
        program: "system".to_string(),
        kind: Some("createAccount".to_string()),
        info: Some(InstructionInfo {
            account: FieldValue::Missing,
            new_account: text(new_account),
            address: FieldValue::Missing,
            lamports: FieldValue::Number(lamports),
            space: FieldValue::Number(space),
        }),
    }
}

fn address_of(p: &Pubkey) -> Address {
    Address::from_bytes(p.to_bytes())
}

#[test]
fn ata_create_names_the_new_account() {
    let x = Pubkey::new_unique();
    let sig = "sig1".to_string();
    let found = parse_instruction_for_creation(&ata_create(&x.to_string()), &sig, 77, 1_700_000_000)
        .expect("an associated token account creation");
    assert!(found.address == address_of(&x));
    assert!(matches!(found.account_type, AccountType::SplToken));
    assert_eq!(found.data_size, 165);
    assert_eq!(found.initial_balance, Some(2_039_280));
    assert_eq!(found.initial_balance, Some(ATA_RENT_EXEMPTION));
    assert_eq!(found.creation_signature, "sig1");
    assert_eq!(found.creation_slot, 77);
    assert_eq!(found.creation_time, 1_700_000_000);
}

#[test]
fn create_idempotent_is_also_recognised() {
    let x = Pubkey::new_unique();
    let mut ix = ata_create(&x.to_string());
    ix.kind = Some("createIdempotent".to_string());
    assert!(parse_instruction_for_creation(&ix, &"s".to_string(), 1, 1).is_some());
    ix.kind = Some("transfer".to_string());
    assert!(parse_instruction_for_creation(&ix, &"s".to_string(), 1, 1).is_none());
}

#[test]
fn system_create_takes_lamports_and_space() {
    let x = Pubkey::new_unique();
    let found = parse_instruction_for_creation(&system_create(&x.to_string(), 890_880, 0), &"s".to_string(), 5, 9)
        .expect("a system creation");
    assert!(matches!(found.account_type, AccountType::System));
    assert_eq!(found.initial_balance, Some(890_880));
    assert_eq!(found.data_size, 0);
}

#[test]
fn token_initialize_leaves_balance_unset() {
    let x = Pubkey::new_unique();
    let ix = ParsedInstruction {
        program: "spl-token".to_string(),
        kind: Some("initializeAccount".to_string()),
        info: Some(info(text(&x.to_string()), FieldValue::Missing)),
    };
    let found = parse_instruction_for_creation(&ix, &"s".to_string(), 5, 9).expect("a token initialisation");
    assert!(matches!(found.account_type, AccountType::SplToken));
    assert_eq!(found.initial_balance, None);
    assert_eq!(found.data_size, 165);
}

#[test]
fn other_program_creation_is_a_fallback() {
    let program = Pubkey::new_unique();
    let x = Pubkey::new_unique();
    let ix = ParsedInstruction {
        program: program.to_string(),
        kind: Some("initMarket".to_string()),
        info: Some(info(FieldValue::Missing, text(&x.to_string()))),
    };
    let found = parse_instruction_for_creation(&ix, &"s".to_string(), 5, 9).expect("a fallback creation");
    assert!(found.address == address_of(&x));
    match found.account_type {
        AccountType::Other(p) => assert!(p == address_of(&program)),
        _ => panic!("expected another program's account"),
    }
    // the first present key decides, even when it is not a string
    let ix2 = ParsedInstruction {
        program: program.to_string(),
        kind: Some("initMarket".to_string()),
        info: Some(info(FieldValue::Number(3), text(&x.to_string()))),
    };
    assert!(parse_instruction_for_creation(&ix2, &"s".to_string(), 5, 9).is_none());
}

#[test]
fn malformed_addresses_are_skipped() {
    let ix = ata_create("not-a-key!");
    assert!(parse_instruction_for_creation(&ix, &"s".to_string(), 1, 1).is_none());
}

#[test]
fn missing_block_time_is_estimated_from_slot() {
    let slot: u64 = 250_000_000;
    let expected: i64 = 1_600_000_000 + 100_000_000;
    assert_eq!(creation_time(slot, None), expected);
    assert_eq!(creation_time(slot, Some(0)), expected);
    assert_eq!(creation_time(slot, None), creation_time(slot, None));
    assert_eq!(estimate_time_from_slot(slot), expected);
    let now = std::time::SystemTime::now()
        .duration_since(std::time::UNIX_EPOCH)
        .unwrap()
        .as_secs() as i64;
    assert_ne!(creation_time(slot, None), now);
    assert_eq!(creation_time(slot, Some(1_650_000_000)), 1_650_000_000);
}

#[test]
fn unrepresentable_times_fall_back() {
    // far beyond any representable date: the estimate itself is out of range
    assert_eq!(estimate_time_from_slot(u64::MAX), 0);
    assert_eq!(creation_time(10, Some(i64::MAX)), 1_600_000_004);
}

fn tx(slot: u64, ixs: Vec<InstructionRecord>) -> TransactionRecord {
    TransactionRecord { slot, block_time: Some(1_700_000_000), instructions: Some(ixs) }
}

#[test]
fn transaction_yields_creations_in_order() {
    let a = Pubkey::new_unique();
    let b = Pubkey::new_unique();
    let t = tx(
        3,
        vec![
            InstructionRecord::Parsed(system_create(&a.to_string(), 1, 2)),
            InstructionRecord::Undecoded,
            InstructionRecord::Parsed(ata_create(&b.to_string())),
        ],
    );
    let found = parse_transaction_for_creations(&t, &"s".to_string());
    assert_eq!(found.len(), 2);
    assert!(found[0].address == address_of(&a));
    assert!(found[1].address == address_of(&b));
    let raw = TransactionRecord { slot: 3, block_time: None, instructions: None };
    assert!(parse_transaction_for_creations(&raw, &"s".to_string()).is_empty());
}

#[test]
fn rescanning_yields_the_same_addresses() {
    let a = Pubkey::new_unique();
    let b = Pubkey::new_unique();
    let t1 = tx(3, vec![InstructionRecord::Parsed(ata_create(&a.to_string()))]);
    let t2 = tx(4, vec![
        InstructionRecord::Parsed(ata_create(&b.to_string())),
        InstructionRecord::Parsed(ata_create(&a.to_string())),
    ]);
    let mut scan = DiscoveryScan::from_signatures(100);
    scan.record_transaction(&"s1".to_string(), &t1);
    scan.record_transaction(&"s2".to_string(), &t2);
    assert_eq!(scan.found.len(), 2);
    scan.record_transaction(&"s1".to_string(), &t1);
    scan.record_transaction(&"s2".to_string(), &t2);
    assert_eq!(scan.found.len(), 2);
    assert!(scan.found[0].address == address_of(&a));
    assert_eq!(scan.found[0].creation_signature, "s1");
    assert!(scan.found[1].address == address_of(&b));
}

#[test]
fn paging_respects_budget_and_short_pages() {
    let mut scan = DiscoveryScan::from_signatures(1500);
    let first = scan.next_page().expect("a first page");
    assert_eq!(first.limit, 1000);
    assert!(first.before.is_none());
    let page: Vec<SignatureEntry> = (0..1000)
        .map(|i| SignatureEntry { signature: format!("sig{}", i), failed: i % 2 == 0 })
        .collect();
    assert_eq!(DiscoveryScan::signatures_to_fetch(&page).len(), 500);
    scan.finish_page(&page, first.limit);
    let second = scan.next_page().expect("a second page");
    assert_eq!(second.limit, 500);
    assert_eq!(second.before.as_deref(), Some("sig999"));
    let short: Vec<SignatureEntry> = (0..10)
        .map(|i| SignatureEntry { signature: format!("old{}", i), failed: false })
        .collect();
    scan.finish_page(&short, second.limit);
    assert!(scan.next_page().is_none());
    assert_eq!(scan.fetched, 1010);
}

#[test]
fn incremental_scan_is_bounded_by_checkpoint() {
    let mut scan = DiscoveryScan::incremental("checkpoint".to_string(), 10);
    let page = scan.next_page().expect("a page");
    assert_eq!(page.until.as_deref(), Some("checkpoint"));
    assert_eq!(page.limit, 10);
    scan.finish_page(&Vec::new(), page.limit);
    assert!(scan.finished);
    assert!(scan.next_page().is_none());
}

#[test]
fn addresses_parse_and_print_as_base58() {
    let token = Address::parse("TokenkegQfeZyiNwAJbNbGKPFXCWuBvf9Ss623VQ5DA").expect("valid");
    assert!(token == Address::token_program());
    assert_eq!(token.bytes, spl_token::id().to_bytes());
    assert_eq!(token.to_text(), "TokenkegQfeZyiNwAJbNbGKPFXCWuBvf9Ss623VQ5DA");
    assert_eq!(Address::system_program().bytes, [0u8; 32]);
    assert_eq!(Address::system_program().to_text(), "11111111111111111111111111111111");
    assert!(Address::parse("0OIl").is_none());
    assert_eq!(AccountType::SplToken.program_id().bytes, spl_token::id().to_bytes());
}

#[test]
fn recording_a_page_equals_recording_each_transaction() {
    let a = Pubkey::new_unique();
    let b = Pubkey::new_unique();
    let page = vec![
        ("s1".to_string(), tx(3, vec![InstructionRecord::Parsed(ata_create(&a.to_string()))])),
        ("s2".to_string(), tx(4, vec![
            InstructionRecord::Parsed(ata_create(&a.to_string())),
            InstructionRecord::Parsed(system_create(&b.to_string(), 1, 0)),
        ])),
    ];
    let mut whole = DiscoveryScan::from_signatures(10);
    whole.record_transactions(&page);
    let mut again = DiscoveryScan::from_signatures(10);
    again.record_transactions(&page);
    again.record_transactions(&page);
    assert_eq!(whole.found.len(), 2);
    assert_eq!(again.found.len(), 2);
    for k in 0..2 {
        assert!(whole.found[k].address == again.found[k].address);
    }
    assert!(whole.found[0].address == address_of(&a));
    assert!(whole.found[1].address == address_of(&b));
}
