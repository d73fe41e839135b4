//! Planning the closing transaction for one account from its live bytes, and
//! the retry schedule for submitting it.
use crate::address::{address_text, Address};
use crate::discovery::AccountType;
use crate::eligibility::{CLOSE_AUTHORITY_FLAG_OFFSET, TOKEN_ACCOUNT_LEN};
use crate::rent::AccountSnapshot;
use crate::text::{decimal, decimal_text, joined, owned};
use vstd::prelude::*;

verus! {

/// Offset of the token amount (8 bytes, little-endian) in a token account.
pub const TOKEN_AMOUNT_OFFSET: usize = 64;

/// Offset of the state byte in a token account.
pub const TOKEN_STATE_OFFSET: usize = 108;

/// The state byte of a frozen token account.
pub const FROZEN_STATE: u8 = 2;

/// Attempts made to submit one transaction before giving up.
pub const MAX_SUBMIT_ATTEMPTS: u32 = 3;

#[verifier::external_type_specification]
#[verifier::external_body]
pub struct ExInstruction(solana_sdk::instruction::Instruction);

/// Errors of the reclaim pipeline; the outside errors are kept as text.
#[derive(Clone, Debug)]
pub enum ReclaimError {
    /// A remote call failed.
    SolanaRpc(String),
    /// The persisted store failed.
    Database(String),
    AccountNotFound(String),
    /// A reclaim precondition failed.
    NotEligible(String),
    /// Operator or treasury key material is missing or invalid.
    Config(String),
    /// Submission failed after every retry.
    TransactionFailed(String),
    /// A signature, address or transaction was malformed.
    Parse(String),
}

impl ReclaimError {
    /// The error described in words.
    pub fn message(&self) -> (r: String)
        ensures
            r@ == match self {
                ReclaimError::SolanaRpc(m) => "Solana RPC error: "@ + m@,
                ReclaimError::Database(m) => "Database error: "@ + m@,
                ReclaimError::AccountNotFound(m) => "Account not found: "@ + m@,
                ReclaimError::NotEligible(m) => "Account not eligible for reclaim: "@ + m@,
                ReclaimError::Config(m) => "Invalid configuration: "@ + m@,
                ReclaimError::TransactionFailed(m) => "Transaction failed: "@ + m@,
                ReclaimError::Parse(m) => "Parse error: "@ + m@,
            },
    {
        match self {
            ReclaimError::SolanaRpc(m) => joined(owned("Solana RPC error: "), m.as_str()),
            ReclaimError::Database(m) => joined(owned("Database error: "), m.as_str()),
            ReclaimError::AccountNotFound(m) => joined(owned("Account not found: "), m.as_str()),
            ReclaimError::NotEligible(m) => joined(
                owned("Account not eligible for reclaim: "),
                m.as_str(),
            ),
            ReclaimError::Config(m) => joined(owned("Invalid configuration: "), m.as_str()),
            ReclaimError::TransactionFailed(m) => joined(owned("Transaction failed: "), m.as_str()),
            ReclaimError::Parse(m) => joined(owned("Parse error: "), m.as_str()),
        }
    }
}

// ---------------------------------------------------------------------------
// Token account fields
// ---------------------------------------------------------------------------

/// The number that little-endian bytes spell.
pub open spec fn le_value(b: Seq<u8>) -> nat
    decreases b.len(),
{
    if b.len() == 0 {
        0
    } else {
        b[0] as nat + 256 * le_value(b.drop_first())
    }
}

pub open spec fn pow256(n: nat) -> nat
    decreases n,
{
    if n == 0 {
        1
    } else {
        256 * pow256((n - 1) as nat)
    }
}

proof fn lemma_le_value_bound(b: Seq<u8>)
    ensures
        le_value(b) < pow256(b.len()),
    decreases b.len(),
{
    if b.len() > 0 {
        lemma_le_value_bound(b.drop_first());
        let r = le_value(b.drop_first());
        let p = pow256(b.drop_first().len());
        assert(b[0] as nat + 256 * r < 256 * p) by (nonlinear_arith)
            requires
                r < p,
                b[0] < 256,
        ;
    }
}

/// The token amount held by a token account.
pub open spec fn token_amount_spec(data: Seq<u8>) -> nat {
    le_value(data.subrange(TOKEN_AMOUNT_OFFSET as int, TOKEN_AMOUNT_OFFSET + 8))
}

/// Reads the token amount of a token account.
pub fn token_amount(data: &Vec<u8>) -> (r: u64)
    requires
        data@.len() >= TOKEN_ACCOUNT_LEN,
    ensures
        r == token_amount_spec(data@),
{
    let mut v: u64 = 0;
    let mut k: usize = 8;
    while k > 0
        invariant
            0 <= k <= 8,
            data@.len() >= TOKEN_ACCOUNT_LEN,
            v == le_value(data@.subrange(TOKEN_AMOUNT_OFFSET + k, TOKEN_AMOUNT_OFFSET + 8)),
        decreases k,
    {
        let ghost tail = data@.subrange(TOKEN_AMOUNT_OFFSET + k, TOKEN_AMOUNT_OFFSET + 8);
        let ghost longer = data@.subrange(TOKEN_AMOUNT_OFFSET + k - 1, TOKEN_AMOUNT_OFFSET + 8);
        assert(longer.drop_first() =~= tail);
        proof {
            lemma_le_value_bound(tail);
            reveal_with_fuel(pow256, 8);
            assert(pow256(tail.len()) <= 72057594037927936) by {
                lemma_pow256_mono(tail.len(), 7);
            }
        }
        let b = data[TOKEN_AMOUNT_OFFSET + k - 1];
        assert(b as nat + 256 * v <= 0xFFFF_FFFF_FFFF_FFFF) by (nonlinear_arith)
            requires
                v < 72057594037927936,
                b < 256,
        ;
        v = b as u64 + 256 * v;
        k = k - 1;
    }
    v
}

proof fn lemma_pow256_mono(a: nat, b: nat)
    requires
        a <= b,
    ensures
        pow256(a) <= pow256(b),
    decreases b,
{
    if a < b {
        lemma_pow256_mono(a, (b - 1) as nat);
    }
}

// ---------------------------------------------------------------------------
// Planning a reclaim
// ---------------------------------------------------------------------------

/// Why a reclaim was refused.
pub enum Refusal {
    TokenLayoutTooShort,
    TokensRemain(nat),
    Frozen,
    /// A close authority is set and it is not the operator.
    NotCloseAuthority(Seq<u8>),
    /// No close authority is set and the owner is not the operator.
    NotOwner(Seq<u8>),
    /// The user holds the signing key of a system account.
    SystemAccount,
    /// No generic close exists for another program's accounts.
    ProgramAccount(Seq<u8>),
}

/// The message that goes with each refusal.
pub open spec fn refusal_text(f: Refusal, operator: Seq<u8>) -> Seq<char> {
    match f {
        Refusal::TokenLayoutTooShort => "Invalid SPL Token account data size"@,
        Refusal::TokensRemain(n) => "Cannot close token account: still has "@ + decimal_text(n)
            + " tokens. Account must be emptied first."@,
        Refusal::Frozen => "Cannot close frozen token account"@,
        Refusal::NotCloseAuthority(k) => "Cannot close token account: operator ("@ + address_text(
            operator,
        ) + ") is not the close authority ("@ + address_text(k) + ")"@,
        Refusal::NotOwner(k) => "Cannot close token account: no close authority set and operator ("@
            + address_text(operator) + ") is not the owner ("@ + address_text(k) + ")"@,
        Refusal::SystemAccount =>
            "Cannot reclaim from System accounts - user controls the private key. Reclaim only possible if user voluntarily closes account."@,
        Refusal::ProgramAccount(p) => "Custom program accounts require program-specific close logic for: "@
            + address_text(p),
    }
}

/// The refusal, if any, for an account that holds lamports: the token-account
/// checks on its live bytes (layout size, zero token amount, not frozen,
/// operator holds the close authority or, when none is set, owns it), then
/// the type's own rule (system and other programs' accounts are never closed).
pub open spec fn refusal_spec(kind: AccountType, data: Seq<u8>, operator: Seq<u8>) -> Option<Refusal> {
    match kind {
        AccountType::SplToken => if data.len() < TOKEN_ACCOUNT_LEN {
            Some(Refusal::TokenLayoutTooShort)
        } else if token_amount_spec(data) > 0 {
            Some(Refusal::TokensRemain(token_amount_spec(data)))
        } else if data[TOKEN_STATE_OFFSET as int] == FROZEN_STATE {
            Some(Refusal::Frozen)
        } else if data[CLOSE_AUTHORITY_FLAG_OFFSET as int] == 1u8 {
            if data.subrange(130, 162) != operator {
                Some(Refusal::NotCloseAuthority(data.subrange(130, 162)))
            } else {
                None
            }
        } else if data.subrange(32, 64) != operator {
            Some(Refusal::NotOwner(data.subrange(32, 64)))
        } else {
            None
        },
        AccountType::System => Some(Refusal::SystemAccount),
        AccountType::Other(p) => Some(Refusal::ProgramAccount(p@)),
    }
}

/// A close instruction for a token account: its lamports go to `destination`
/// and `authority` signs.
#[derive(Clone, Copy, Debug)]
pub struct CloseRequest {
    pub account: Address,
    pub destination: Address,
    pub authority: Address,
}

/// What to do for one account.
#[derive(Debug)]
pub enum ReclaimStep {
    /// The account is absent or holds no lamports: nothing to reclaim.
    AlreadyClosed,
    /// Dry run: `amount` would be reclaimed; nothing is submitted.
    DryRun { amount: u64 },
    /// Sign and submit `instruction`, which performs `close`, to reclaim `amount`.
    Submit { amount: u64, close: CloseRequest, instruction: solana_sdk::instruction::Instruction },
}

/// The outcome of a reclaim: a signature only when a transaction was
/// submitted and confirmed.
#[derive(Clone, Debug)]
pub struct ReclaimResult {
    pub signature: Option<String>,
    pub amount_reclaimed: u64,
    pub account: Address,
    pub dry_run: bool,
}

/// The treasury that receives reclaimed lamports, the operator that signs,
/// and whether submissions are only simulated.
#[derive(Clone, Copy, Debug)]
pub struct ReclaimEngine {
    pub treasury_wallet: Address,
    pub operator: Address,
    pub dry_run: bool,
}

/// Relies on `spl_token::instruction::close_account` called with the token
/// program's own id, for which its program-id check passes and it returns
/// `Ok`; no multisig signers are passed.
#[verifier::external_body]
fn close_account_instruction(account: &Address, destination: &Address, authority: &Address) -> (r:
    Option<solana_sdk::instruction::Instruction>)
    ensures
        r is Some,
{
    spl_token::instruction::close_account(
        &spl_token::id(),
        &solana_sdk::pubkey::Pubkey::new_from_array(account.bytes),
        &solana_sdk::pubkey::Pubkey::new_from_array(destination.bytes),
        &solana_sdk::pubkey::Pubkey::new_from_array(authority.bytes),
        &[],
    ).ok()
}

fn refusal_error(text: String) -> (r: ReclaimError)
    ensures
        r matches ReclaimError::NotEligible(m) && m@ == text@,
{
    ReclaimError::NotEligible(text)
}

/// The abstract form of a planned step.
pub enum StepView {
    AlreadyClosed,
    DryRun(u64),
    Submit(u64, Seq<u8>, Seq<u8>, Seq<u8>),
}

impl ReclaimStep {
    pub open spec fn view_step(self) -> StepView {
        match self {
            ReclaimStep::AlreadyClosed => StepView::AlreadyClosed,
            ReclaimStep::DryRun { amount } => StepView::DryRun(amount),
            ReclaimStep::Submit { amount, close, .. } => StepView::Submit(
                amount,
                close.account@,
                close.destination@,
                close.authority@,
            ),
        }
    }
}

impl ReclaimEngine {
    pub fn new(treasury_wallet: Address, operator: Address, dry_run: bool) -> (r: ReclaimEngine)
        ensures
            r.treasury_wallet == treasury_wallet,
            r.operator == operator,
            r.dry_run == dry_run,
    {
        ReclaimEngine { treasury_wallet, operator, dry_run }
    }

    /// The planned outcome for an account of the given type in the given live
    /// state: nothing for an absent or empty account; otherwise a refusal
    /// when `refusal_spec` finds one; otherwise a dry run or a close of the
    /// account into the treasury, signed by the operator, for its whole balance.
    pub open spec fn plan_spec(
        self,
        address: Address,
        kind: AccountType,
        account: Option<AccountSnapshot>,
    ) -> Result<StepView, Seq<char>> {
        match account {
            None => Ok(StepView::AlreadyClosed),
            Some(a) => if a.lamports == 0 {
                Ok(StepView::AlreadyClosed)
            } else {
                match refusal_spec(kind, a.data@, self.operator@) {
                    Some(f) => Err(refusal_text(f, self.operator@)),
                    None => if self.dry_run {
                        Ok(StepView::DryRun(a.lamports))
                    } else {
                        Ok(
                            StepView::Submit(
                                a.lamports,
                                address@,
                                self.treasury_wallet@,
                                self.operator@,
                            ),
                        )
                    },
                }
            },
        }
    }

    /// Plans the reclaim of `address`, whose type was fixed at discovery,
    /// from `account`, a fresh fetch of it. Every precondition is checked
    /// against these bytes, never against a cached classification. Every type
    /// ends in a step or in `NotEligible`.
    pub fn plan_reclaim(
        &self,
        address: &Address,
        account_type: &AccountType,
        account: &Option<AccountSnapshot>,
    ) -> (r: Result<ReclaimStep, ReclaimError>)
        ensures
            r is Err ==> r->Err_0 is NotEligible,
            match (r, self.plan_spec(*address, *account_type, *account)) {
                (Ok(step), Ok(v)) => step.view_step() == v,
                (Err(ReclaimError::NotEligible(m)), Err(t)) => m@ == t,
                _ => false,
            },
    {
        let a = match account {
            None => {
                return Ok(ReclaimStep::AlreadyClosed);
            },
            Some(a) => a,
        };
        if a.lamports == 0 {
            return Ok(ReclaimStep::AlreadyClosed);
        }
        match account_type {
            AccountType::System => {
                return Err(
                    refusal_error(
                        owned(
                            "Cannot reclaim from System accounts - user controls the private key. Reclaim only possible if user voluntarily closes account.",
                        ),
                    ),
                );
            },
            AccountType::Other(p) => {
                return Err(
                    refusal_error(
                        joined(
                            owned(
                                "Custom program accounts require program-specific close logic for: ",
                            ),
                            p.to_text().as_str(),
                        ),
                    ),
                );
            },
            AccountType::SplToken => {},
        }
        let data = &a.data;
        if data.len() < TOKEN_ACCOUNT_LEN {
            return Err(refusal_error(owned("Invalid SPL Token account data size")));
        }
        let amount = token_amount(data);
        if amount > 0 {
            let s = joined(owned("Cannot close token account: still has "), decimal(amount as u128).as_str());
            return Err(refusal_error(joined(s, " tokens. Account must be emptied first.")));
        }
        if data[TOKEN_STATE_OFFSET] == FROZEN_STATE {
            return Err(refusal_error(owned("Cannot close frozen token account")));
        }
        if data[CLOSE_AUTHORITY_FLAG_OFFSET] == 1 {
            let key = crate::eligibility::key_at(data, 130);
            if key != self.operator {
                let s = joined(owned("Cannot close token account: operator ("), self.operator.to_text().as_str());
                let s = joined(s, ") is not the close authority (");
                let s = joined(s, key.to_text().as_str());
                return Err(refusal_error(joined(s, ")")));
            }
        } else {
            let key = crate::eligibility::key_at(data, 32);
            if key != self.operator {
                let s = joined(
                    owned("Cannot close token account: no close authority set and operator ("),
                    self.operator.to_text().as_str(),
                );
                let s = joined(s, ") is not the owner (");
                let s = joined(s, key.to_text().as_str());
                return Err(refusal_error(joined(s, ")")));
            }
        }
        if self.dry_run {
            return Ok(ReclaimStep::DryRun { amount: a.lamports });
        }
        let close = CloseRequest {
            account: *address,
            destination: self.treasury_wallet,
            authority: self.operator,
        };
        match close_account_instruction(&close.account, &close.destination, &close.authority) {
            Some(instruction) => Ok(ReclaimStep::Submit { amount: a.lamports, close, instruction }),
            None => {
                proof {
                    assert(false);
                }
                Err(refusal_error(owned("close instruction unavailable")))
            },
        }
    }

    /// The result of a planned step; `signature` is that of the confirmed
    /// transaction when the step was a submission.
    pub fn result_of(&self, address: &Address, step: &ReclaimStep, signature: Option<String>) -> (r:
        ReclaimResult)
        ensures
            r.account == *address,
            match step {
                ReclaimStep::AlreadyClosed => r.signature is None && r.amount_reclaimed == 0
                    && r.dry_run == self.dry_run,
                ReclaimStep::DryRun { amount } => r.signature is None && r.amount_reclaimed
                    == amount && r.dry_run,
                ReclaimStep::Submit { amount, .. } => r.signature == signature
                    && r.amount_reclaimed == amount && !r.dry_run,
            },
    {
        match step {
            ReclaimStep::AlreadyClosed => ReclaimResult {
                signature: None,
                amount_reclaimed: 0,
                account: *address,
                dry_run: self.dry_run,
            },
            ReclaimStep::DryRun { amount } => ReclaimResult {
                signature: None,
                amount_reclaimed: *amount,
                account: *address,
                dry_run: true,
            },
            ReclaimStep::Submit { amount, .. } => ReclaimResult {
                signature,
                amount_reclaimed: *amount,
                account: *address,
                dry_run: false,
            },
        }
    }
}

// ---------------------------------------------------------------------------
// Submitting with retries
// ---------------------------------------------------------------------------

/// What to do after one submission attempt.
#[derive(Clone, Debug)]
pub enum SubmitDecision {
    /// Confirmed with this signature.
    Confirmed(String),
    /// Wait `delay_secs` seconds, then make attempt `next_attempt`.
    RetryAfter { next_attempt: u32, delay_secs: u64 },
    /// Every attempt failed; this was the last error.
    GiveUp(String),
}

pub open spec fn backoff_secs(attempt: u32) -> nat {
    pow2(attempt as nat)
}

pub open spec fn pow2(n: nat) -> nat
    decreases n,
{
    if n == 0 {
        1
    } else {
        2 * pow2((n - 1) as nat)
    }
}

/// Decides what follows submission attempt `attempt` (counted from 1): a
/// confirmation ends it; a failure before the last attempt waits `2^attempt`
/// seconds and tries again; a failure of the last attempt gives up.
pub fn after_attempt(attempt: u32, outcome: Result<String, String>) -> (r: SubmitDecision)
    requires
        1 <= attempt <= MAX_SUBMIT_ATTEMPTS,
    ensures
        match (outcome, r) {
            (Ok(s), SubmitDecision::Confirmed(t)) => s == t,
            (Err(e), SubmitDecision::RetryAfter { next_attempt, delay_secs }) => attempt
                < MAX_SUBMIT_ATTEMPTS && next_attempt == attempt + 1 && delay_secs == backoff_secs(
                attempt,
            ),
            (Err(e), SubmitDecision::GiveUp(t)) => attempt == MAX_SUBMIT_ATTEMPTS && e == t,
            _ => false,
        },
{
    match outcome {
        Ok(s) => SubmitDecision::Confirmed(s),
        Err(e) => {
            if attempt < MAX_SUBMIT_ATTEMPTS {
                let delay: u64 = if attempt == 1 {
                    2
                } else {
                    4
                };
                proof {
                    reveal_with_fuel(pow2, 3);
                }
                SubmitDecision::RetryAfter { next_attempt: attempt + 1, delay_secs: delay }
            } else {
                SubmitDecision::GiveUp(e)
            }
        },
    }
}

} // verus!
