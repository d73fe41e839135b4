//! The agent's configuration and the values derived from it.
use crate::address::{decoded_address, Address};
use crate::engine::ReclaimError;
use crate::text::{joined, owned, same_text};
use vstd::prelude::*;

verus! {

/// Which cluster the agent talks to.
#[derive(Clone, Copy, Debug, PartialEq, Eq, Structural)]
pub enum Network {
    Mainnet,
    Devnet,
    Testnet,
}

/// How final a read must be.
#[derive(Clone, Copy, Debug, PartialEq, Eq, Structural)]
pub enum CommitmentLevel {
    Processed,
    Confirmed,
    Finalized,
}

#[derive(Clone, Debug)]
pub struct SolanaConfig {
    pub rpc_url: String,
    pub network: Network,
    pub commitment: String,
    pub rate_limit_delay_ms: u64,
}

#[derive(Clone, Debug)]
pub struct KoraConfig {
    pub operator_pubkey: String,
    pub treasury_wallet: String,
    pub treasury_keypair_path: String,
}

#[derive(Clone, Debug)]
pub struct ReclaimConfig {
    pub min_inactive_days: u64,
    pub auto_reclaim_enabled: bool,
    pub batch_size: usize,
    pub batch_delay_ms: u64,
    pub scan_interval_seconds: u64,
    pub dry_run: bool,
    pub whitelist: Vec<String>,
    pub blacklist: Vec<String>,
}

#[derive(Clone, Debug)]
pub struct DatabaseConfig {
    pub path: String,
}

#[derive(Clone, Debug)]
pub struct Config {
    pub solana: SolanaConfig,
    pub kora: KoraConfig,
    pub reclaim: ReclaimConfig,
    pub database: DatabaseConfig,
}

/// Spacing between remote calls when none is configured, in milliseconds.
pub fn default_rate_limit() -> (r: u64)
    ensures
        r == 100,
{
    100
}

/// Where the treasury key is read from when no path is configured.
pub fn default_keypair_path() -> (r: String)
    ensures
        r@ == "./treasury-keypair.json"@,
{
    owned("./treasury-keypair.json")
}

/// Accounts per chunk when none is configured.
pub fn default_batch_size() -> (r: usize)
    ensures
        r == 10,
{
    10
}

/// Delay between chunks when none is configured, in milliseconds.
pub fn default_batch_delay() -> (r: u64)
    ensures
        r == 1000,
{
    1000
}

/// Seconds between runs of the automated service when none is configured.
pub fn default_scan_interval() -> (r: u64)
    ensures
        r == 3600,
{
    3600
}

/// What lower-casing a text yields.
pub uninterp spec fn lower_of(s: Seq<char>) -> Seq<char>;

/// Relies on `str::to_lowercase`: the result depends on the characters alone.
#[verifier::external_body]
fn lowercase(s: &str) -> (r: String)
    ensures
        r@ == lower_of(s@),
{
    s.to_lowercase()
}

/// The commitment level a configured name selects: `processed`, `confirmed`
/// or `finalized` in any case, and `Confirmed` for anything else.
pub open spec fn commitment_spec(name: Seq<char>) -> CommitmentLevel {
    let l = lower_of(name);
    if l == "processed"@ {
        CommitmentLevel::Processed
    } else if l == "finalized"@ {
        CommitmentLevel::Finalized
    } else {
        CommitmentLevel::Confirmed
    }
}

/// The commitment level named by an already lower-cased text.
pub fn commitment_from_lowercase(l: &str) -> (r: CommitmentLevel)
    ensures
        r == (if l@ == "processed"@ {
            CommitmentLevel::Processed
        } else if l@ == "finalized"@ {
            CommitmentLevel::Finalized
        } else {
            CommitmentLevel::Confirmed
        }),
{
    if same_text(l, "processed") {
        CommitmentLevel::Processed
    } else if same_text(l, "finalized") {
        CommitmentLevel::Finalized
    } else {
        CommitmentLevel::Confirmed
    }
}

fn parse_key(text: &String, what: &str) -> (r: Result<Address, ReclaimError>)
    ensures
        match r {
            Ok(a) => decoded_address(text@) == Some(a@),
            Err(e) => decoded_address(text@) is None && (e matches ReclaimError::Config(m) && m@
                == "Invalid "@ + what@),
        },
{
    match Address::parse(text.as_str()) {
        Some(a) => Ok(a),
        None => Err(ReclaimError::Config(joined(owned("Invalid "), what))),
    }
}

impl Config {
    /// The operator's address; a `Config` error when it does not decode.
    pub fn operator_pubkey(&self) -> (r: Result<Address, ReclaimError>)
        ensures
            match r {
                Ok(a) => decoded_address(self.kora.operator_pubkey@) == Some(a@),
                Err(e) => decoded_address(self.kora.operator_pubkey@) is None && e is Config,
            },
    {
        parse_key(&self.kora.operator_pubkey, "operator pubkey")
    }

    /// The treasury's address; a `Config` error when it does not decode.
    pub fn treasury_wallet(&self) -> (r: Result<Address, ReclaimError>)
        ensures
            match r {
                Ok(a) => decoded_address(self.kora.treasury_wallet@) == Some(a@),
                Err(e) => decoded_address(self.kora.treasury_wallet@) is None && e is Config,
            },
    {
        parse_key(&self.kora.treasury_wallet, "treasury wallet")
    }

    /// Seconds between runs of the automated service: the requested interval,
    /// or the configured one when zero is requested.
    pub fn service_interval(&self, requested: u64) -> (r: u64)
        ensures
            r == if requested > 0 {
                requested
            } else {
                self.reclaim.scan_interval_seconds
            },
    {
        if requested > 0 {
            requested
        } else {
            self.reclaim.scan_interval_seconds
        }
    }

    /// Whether submissions are only simulated: when asked for, or when configured.
    pub fn effective_dry_run(&self, requested: bool) -> (r: bool)
        ensures
            r == (requested || self.reclaim.dry_run),
    {
        requested || self.reclaim.dry_run
    }

    /// The configured commitment level.
    pub fn commitment_config(&self) -> (r: CommitmentLevel)
        ensures
            r == commitment_spec(self.solana.commitment@),
    {
        let l = lowercase(self.solana.commitment.as_str());
        commitment_from_lowercase(l.as_str())
    }
}

} // verus!
