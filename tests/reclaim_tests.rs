use kora_reclaim::address::Address;
use kora_reclaim::batch::{BatchProcessor, BatchRun, BatchSummary};
use kora_reclaim::config::{
    default_batch_delay, default_batch_size, default_keypair_path, default_rate_limit,
    default_scan_interval, CommitmentLevel, Config, DatabaseConfig, KoraConfig, Network,
    ReclaimConfig, SolanaConfig,
};
use kora_reclaim::discovery::AccountType;
use kora_reclaim::eligibility::{
    get_token_close_authority, has_close_authority, ActivityProbe, EligibilityChecker,
    EligibilityVerdict,
};
use kora_reclaim::engine::{after_attempt, ReclaimEngine, ReclaimError, ReclaimStep, SubmitDecision};
use kora_reclaim::models::ReclaimStrategy;
use kora_reclaim::rate_limit::RateLimiter;
use kora_reclaim::rent::AccountSnapshot;
use solana_sdk::pubkey::Pubkey;

const DAY: i64 = 86_400;
const NOW: i64 = 1_760_000_000;

fn key() -> Address {
    Address::from_bytes(Pubkey::new_unique().to_bytes())
}

fn token_data(owner: &Address, amount: u64, state: u8, close_authority: Option<&Address>) -> Vec<u8> {
    let mut d = vec![0u8; 165];
    d[32..64].copy_from_slice(&owner.bytes);
    d[64..72].copy_from_slice(&amount.to_le_bytes());
    d[108] = state;
    if let Some(a) = close_authority {
        d[129] = 1;
        d[130..162].copy_from_slice(&a.bytes);
    }
    d
}

fn token_account(lamports: u64, data: Vec<u8>) -> AccountSnapshot {
    AccountSnapshot { lamports, owner: Address::token_program(), data }
}

fn checker(operator: Address, days: u64) -> EligibilityChecker {
    EligibilityChecker::new(operator, days, vec![], vec![])
}

#[test]
fn system_account_is_never_eligible() {
    let operator = key();
    let address = key();
    let account = Some(AccountSnapshot { lamports: 1_000_000, owner: Address::system_program(), data: vec![] });
    let c = checker(operator, 180);
    let created = NOW - 400 * DAY;
    assert!(!c.is_eligible(&address, &account, created, NOW, ActivityProbe::NoHistory, 890_880));
    assert_eq!(
        c.get_eligibility_reason(&address, &account, created, NOW, ActivityProbe::NoHistory, 890_880),
        "account type System cannot be reclaimed"
    );
}

#[test]
fn token_account_closed_by_operator_is_eligible() {
    let operator = key();
    let address = key();
    let account = Some(token_account(2_039_280, token_data(&operator, 0, 1, None)));
    let c = checker(operator, 180);
    let created = NOW - 400 * DAY;
    let v = c.verdict(&address, &account, created, NOW, ActivityProbe::LastActive(NOW - 200 * DAY), 2_039_280);
    assert!(matches!(v, EligibilityVerdict::MinimalBalance { lamports: 2_039_280 }));
    assert_eq!(v.reason(), "Eligible for reclaim: minimal balance (2039280 lamports)");
    // activity inside the window
    assert!(!c.is_eligible(&address, &account, created, NOW, ActivityProbe::LastActive(NOW - DAY), 2_039_280));
    assert!(!c.is_eligible(&address, &account, created, NOW, ActivityProbe::Failed, 2_039_280));
    // too much balance
    let rich = Some(token_account(5_000_000, token_data(&operator, 0, 1, None)));
    assert_eq!(
        c.get_eligibility_reason(&address, &rich, created, NOW, ActivityProbe::NoHistory, 2_039_280),
        "Not eligible: account has significant data/balance (5000000 lamports, 165 bytes data)"
    );
}

#[test]
fn shorter_window_keeps_eligibility() {
    let operator = key();
    let address = key();
    let account = Some(token_account(2_039_280, token_data(&operator, 0, 1, None)));
    let created = NOW - 100 * DAY;
    let probe = ActivityProbe::LastActive(NOW - 100 * DAY);
    assert!(!checker(operator, 180).is_eligible(&address, &account, created, NOW, probe, 2_039_280));
    assert!(checker(operator, 90).is_eligible(&address, &account, created, NOW, probe, 2_039_280));
    assert!(checker(operator, 30).is_eligible(&address, &account, created, NOW, probe, 2_039_280));
    assert_eq!(
        checker(operator, 180).get_eligibility_reason(&address, &account, created, NOW, probe, 2_039_280),
        "Account needs 80 more days of inactivity"
    );
}

#[test]
fn age_must_exceed_the_window() {
    let operator = key();
    let address = key();
    let account = Some(token_account(2_039_280, token_data(&operator, 0, 1, None)));
    let c = checker(operator, 180);
    let exactly = NOW - 180 * DAY;
    assert!(!c.is_eligible(&address, &account, exactly, NOW, ActivityProbe::NoHistory, 2_039_280));
    assert_eq!(
        c.get_eligibility_reason(&address, &account, exactly, NOW, ActivityProbe::NoHistory, 2_039_280),
        "Account needs 0 more days of inactivity"
    );
    assert!(c.is_eligible(&address, &account, exactly - 1, NOW, ActivityProbe::NoHistory, 2_039_280));
}

#[test]
fn listed_and_missing_accounts_are_not_eligible() {
    let operator = key();
    let address = key();
    let c = EligibilityChecker::new(operator, 1, vec![address.to_text()], vec![]);
    let account = Some(token_account(1, token_data(&operator, 0, 1, None)));
    assert_eq!(c.early_verdict(&address, &account, 0, NOW).unwrap().reason(), "Account is whitelisted (protected)");
    let d = EligibilityChecker::new(operator, 1, vec![], vec![address.to_text()]);
    assert_eq!(d.early_verdict(&address, &account, 0, NOW).unwrap().reason(), "Account is blacklisted (excluded)");
    let e = checker(operator, 1);
    assert_eq!(e.early_verdict(&address, &None, 0, NOW).unwrap().reason(), "Account is closed (nothing to reclaim)");
    let zero = Some(token_account(0, token_data(&operator, 0, 1, None)));
    assert_eq!(e.early_verdict(&address, &zero, 0, NOW).unwrap().reason(), "Account has zero balance (nothing to reclaim)");
    let foreign = Some(token_account(1, token_data(&key(), 0, 1, None)));
    assert_eq!(
        e.early_verdict(&address, &foreign, 0, NOW).unwrap().reason(),
        "Operator is not the close authority for this SPL Token account"
    );
    let program = key();
    let other = Some(AccountSnapshot { lamports: 5, owner: program, data: vec![1] });
    assert_eq!(
        e.early_verdict(&address, &other, 0, NOW).unwrap().reason(),
        format!("account type Other({}) cannot be reclaimed", program.to_text())
    );
    assert!(e.early_verdict(&address, &account, 0, NOW).is_none());
}

#[test]
fn close_authority_is_read_from_fixed_offsets() {
    let owner = key();
    let authority = key();
    let with = token_data(&owner, 0, 1, Some(&authority));
    assert!(get_token_close_authority(&with).unwrap() == authority);
    assert!(has_close_authority(&with, &authority));
    assert!(!has_close_authority(&with, &owner));
    let without = token_data(&owner, 0, 1, None);
    assert!(get_token_close_authority(&without).unwrap() == owner);
    assert!(get_token_close_authority(&vec![0u8; 100]).is_none());
}

#[test]
fn strategies_follow_type_and_authority() {
    let operator = key();
    let c = checker(operator, 1);
    let (s, k) = c.determine_reclaim_strategy(&None);
    assert_eq!(s, ReclaimStrategy::Unknown);
    assert!(k.is_none());
    let system = Some(AccountSnapshot { lamports: 1, owner: Address::system_program(), data: vec![] });
    assert_eq!(c.determine_reclaim_strategy(&system).0, ReclaimStrategy::Unrecoverable);
    let mine = Some(token_account(1, token_data(&operator, 0, 1, None)));
    let (s, k) = c.determine_reclaim_strategy(&mine);
    assert_eq!(s, ReclaimStrategy::ActiveReclaim);
    assert!(k.unwrap() == operator);
    let user = key();
    let theirs = Some(token_account(1, token_data(&user, 0, 1, None)));
    let (s, k) = c.determine_reclaim_strategy(&theirs);
    assert_eq!(s, ReclaimStrategy::PassiveMonitoring);
    assert!(k.unwrap() == user);
    assert_eq!(ReclaimStrategy::from_text(&s.as_text()), s);
    assert_eq!(ReclaimStrategy::from_text("nonsense"), ReclaimStrategy::Unknown);
}

fn not_eligible_message(r: Result<ReclaimStep, ReclaimError>) -> String {
    match r {
        Err(ReclaimError::NotEligible(m)) => m,
        other => panic!("expected a refusal, got {:?}", other),
    }
}

#[test]
fn every_type_ends_in_a_step_or_a_refusal() {
    let treasury = key();
    let operator = key();
    let engine = ReclaimEngine::new(treasury, operator, false);
    let address = key();
    let live = Some(AccountSnapshot { lamports: 10, owner: Address::system_program(), data: vec![] });
    assert!(not_eligible_message(engine.plan_reclaim(&address, &AccountType::System, &live))
        .starts_with("Cannot reclaim from System accounts"));
    let program = key();
    assert_eq!(
        not_eligible_message(engine.plan_reclaim(&address, &AccountType::Other(program), &live)),
        format!("Custom program accounts require program-specific close logic for: {}", program.to_text())
    );
    let ok = Some(token_account(2_039_280, token_data(&operator, 0, 1, None)));
    match engine.plan_reclaim(&address, &AccountType::SplToken, &ok) {
        Ok(ReclaimStep::Submit { amount, close, instruction }) => {
            assert_eq!(amount, 2_039_280);
            assert!(close.account == address && close.destination == treasury && close.authority == operator);
            assert_eq!(instruction.program_id, spl_token::id());
            assert_eq!(instruction.accounts.len(), 3);
            assert_eq!(instruction.accounts[0].pubkey.to_bytes(), address.bytes);
            assert_eq!(instruction.accounts[1].pubkey.to_bytes(), treasury.bytes);
            assert_eq!(instruction.accounts[2].pubkey.to_bytes(), operator.bytes);
        }
        other => panic!("expected a submission, got {:?}", other),
    }
    assert!(matches!(engine.plan_reclaim(&address, &AccountType::SplToken, &None), Ok(ReclaimStep::AlreadyClosed)));
    let empty = Some(token_account(0, token_data(&operator, 0, 1, None)));
    assert!(matches!(engine.plan_reclaim(&address, &AccountType::System, &empty), Ok(ReclaimStep::AlreadyClosed)));
    let dry = ReclaimEngine::new(treasury, operator, true);
    match dry.plan_reclaim(&address, &AccountType::SplToken, &ok) {
        Ok(step) => {
            assert!(matches!(step, ReclaimStep::DryRun { amount: 2_039_280 }));
            let r = dry.result_of(&address, &step, None);
            assert!(r.signature.is_none() && r.dry_run && r.amount_reclaimed == 2_039_280);
        }
        Err(e) => panic!("unexpected {:?}", e),
    }
}

#[test]
fn token_preconditions_are_checked_on_live_bytes() {
    let treasury = key();
    let operator = key();
    let engine = ReclaimEngine::new(treasury, operator, false);
    let address = key();
    let holding = Some(token_account(5, token_data(&operator, 42, 1, None)));
    assert_eq!(
        not_eligible_message(engine.plan_reclaim(&address, &AccountType::SplToken, &holding)),
        "Cannot close token account: still has 42 tokens. Account must be emptied first."
    );
    let frozen = Some(token_account(5, token_data(&operator, 0, 2, None)));
    assert_eq!(
        not_eligible_message(engine.plan_reclaim(&address, &AccountType::SplToken, &frozen)),
        "Cannot close frozen token account"
    );
    let other = key();
    let foreign_authority = Some(token_account(5, token_data(&operator, 0, 1, Some(&other))));
    assert_eq!(
        not_eligible_message(engine.plan_reclaim(&address, &AccountType::SplToken, &foreign_authority)),
        format!(
            "Cannot close token account: operator ({}) is not the close authority ({})",
            operator.to_text(),
            other.to_text()
        )
    );
    let foreign_owner = Some(token_account(5, token_data(&other, 0, 1, None)));
    assert_eq!(
        not_eligible_message(engine.plan_reclaim(&address, &AccountType::SplToken, &foreign_owner)),
        format!(
            "Cannot close token account: no close authority set and operator ({}) is not the owner ({})",
            operator.to_text(),
            other.to_text()
        )
    );
    let short = Some(token_account(5, vec![0u8; 64]));
    assert_eq!(
        not_eligible_message(engine.plan_reclaim(&address, &AccountType::SplToken, &short)),
        "Invalid SPL Token account data size"
    );
    assert_eq!(
        ReclaimError::NotEligible("x".to_string()).message(),
        "Account not eligible for reclaim: x"
    );
}

#[test]
fn submissions_retry_with_backoff() {
    assert!(matches!(after_attempt(1, Ok("sig".to_string())), SubmitDecision::Confirmed(s) if s == "sig"));
    assert!(matches!(
        after_attempt(1, Err("e".to_string())),
        SubmitDecision::RetryAfter { next_attempt: 2, delay_secs: 2 }
    ));
    assert!(matches!(
        after_attempt(2, Err("e".to_string())),
        SubmitDecision::RetryAfter { next_attempt: 3, delay_secs: 4 }
    ));
    assert!(matches!(after_attempt(3, Err("last".to_string())), SubmitDecision::GiveUp(s) if s == "last"));
}

#[test]
fn one_failure_does_not_block_the_batch() {
    let engine = ReclaimEngine::new(key(), key(), false);
    let mut summary = BatchSummary::new(5);
    let mut signatures = Vec::new();
    for i in 0..5u64 {
        let address = key();
        if i == 2 {
            summary.record(address, Err(ReclaimError::NotEligible("frozen".to_string())));
        } else {
            let step = ReclaimStep::DryRun { amount: 100 };
            let sig = format!("sig{}", i);
            let mut r = engine.result_of(&address, &step, None);
            r.signature = Some(sig.clone());
            signatures.push(sig);
            summary.record(address, Ok(r));
        }
    }
    assert_eq!(summary.total_accounts, 5);
    assert_eq!(summary.successful, 4);
    assert_eq!(summary.failed, 1);
    assert_eq!(summary.total_reclaimed, 400);
    let seen: Vec<String> = summary
        .results
        .iter()
        .filter_map(|(_, r)| r.as_ref().ok().and_then(|x| x.signature.clone()))
        .collect();
    assert_eq!(seen, signatures);
}

#[test]
fn ten_accounts_in_chunks_of_four() {
    let p = BatchProcessor::new(4, 1000);
    assert_eq!(p.chunk_count(10), 3);
    assert_eq!(p.chunk_bounds(0, 10), (0, 4));
    assert_eq!(p.chunk_bounds(1, 10), (4, 8));
    assert_eq!(p.chunk_bounds(2, 10), (8, 10));
    let delays: Vec<bool> = (0..3).map(|i| p.delay_after(i, 10)).collect();
    assert_eq!(delays, vec![true, true, false]);
    assert_eq!(p.batch_delay_ms, 1000);
    let mut limiter = RateLimiter::new(1000);
    assert_eq!(limiter.wait(5_000), 0);
    assert_eq!(limiter.wait(5_000), 1000);
    assert_eq!(limiter.wait(6_000), 1000);
    assert_eq!(limiter.wait(10_000), 0);
    assert!(p.reclaim_all_eligible(&vec![]).is_some());
    assert!(p.reclaim_all_eligible(&vec![(key(), AccountType::SplToken)]).is_none());
    let failed: Result<(), ReclaimError> = Err(ReclaimError::SolanaRpc("blockhash".to_string()));
    assert!(BatchProcessor::retry_individually(&failed));
}

fn config(commitment: &str, operator: &str) -> Config {
    Config {
        solana: SolanaConfig {
            rpc_url: "http://localhost:8899".to_string(),
            network: Network::Devnet,
            commitment: commitment.to_string(),
            rate_limit_delay_ms: default_rate_limit(),
        },
        kora: KoraConfig {
            operator_pubkey: operator.to_string(),
            treasury_wallet: "11111111111111111111111111111111".to_string(),
            treasury_keypair_path: default_keypair_path(),
        },
        reclaim: ReclaimConfig {
            min_inactive_days: 30,
            auto_reclaim_enabled: false,
            batch_size: default_batch_size(),
            batch_delay_ms: default_batch_delay(),
            scan_interval_seconds: default_scan_interval(),
            dry_run: true,
            whitelist: vec![],
            blacklist: vec![],
        },
        database: DatabaseConfig { path: "x.db".to_string() },
    }
}

#[test]
fn configuration_values() {
    assert_eq!(default_rate_limit(), 100);
    assert_eq!(default_keypair_path(), "./treasury-keypair.json");
    assert_eq!(default_batch_size(), 10);
    assert_eq!(default_batch_delay(), 1000);
    assert_eq!(default_scan_interval(), 3600);
    assert_eq!(config("FINALIZED", "x").commitment_config(), CommitmentLevel::Finalized);
    assert_eq!(config("Processed", "x").commitment_config(), CommitmentLevel::Processed);
    assert_eq!(config("whatever", "x").commitment_config(), CommitmentLevel::Confirmed);
    assert_eq!(config("x", "x").service_interval(0), 3600);
    assert_eq!(config("x", "x").service_interval(60), 60);
    assert!(config("x", "x").effective_dry_run(false));
    let op = Pubkey::new_unique();
    let good = config("confirmed", &op.to_string());
    assert_eq!(good.operator_pubkey().unwrap().bytes, op.to_bytes());
    assert_eq!(good.treasury_wallet().unwrap().bytes, [0u8; 32]);
    match config("confirmed", "bad key").operator_pubkey() {
        Err(ReclaimError::Config(m)) => assert_eq!(m, "Invalid operator pubkey"),
        other => panic!("expected a configuration error, got {:?}", other),
    }
}

#[test]
fn batch_run_records_each_account_once() {
    let accounts: Vec<(Address, AccountType)> = (0..10).map(|_| (key(), AccountType::SplToken)).collect();
    let mut run = BatchRun::new(BatchProcessor::new(4, 1000), accounts.clone());
    let engine = ReclaimEngine::new(key(), key(), true);
    let mut chunks = 0;
    let mut delays = 0;
    while let Some(i) = run.next_index() {
        if run.starts_chunk() {
            chunks += 1;
        }
        if i == 6 {
            run.record_next(Err(ReclaimError::NotEligible("frozen".to_string())));
        } else {
            let step = ReclaimStep::DryRun { amount: 10 };
            run.record_next(Ok(engine.result_of(&accounts[i].0, &step, None)));
        }
        if run.delay_after_last() {
            delays += 1;
        }
    }
    assert_eq!(chunks, 3);
    assert_eq!(delays, 2);
    let summary = run.into_summary();
    assert_eq!(summary.total_accounts, 10);
    assert_eq!(summary.successful, 9);
    assert_eq!(summary.failed, 1);
    assert_eq!(summary.results.len(), 10);
    for (k, (a, _)) in summary.results.iter().enumerate() {
        assert!(*a == accounts[k].0);
    }
}
