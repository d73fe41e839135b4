//! Short forms of addresses and amounts for terminals and chat messages.
use crate::rent::{sol_text, RentCalculator};
use crate::text::{joined, owned};
use vstd::prelude::*;
use vstd::string::*;

verus! {

/// `s` unchanged when it has at most `limit` characters, otherwise its first
/// and last `keep` characters joined by `...`.
pub open spec fn abbreviated(s: Seq<char>, limit: nat, keep: nat) -> Seq<char> {
    if s.len() <= limit {
        s
    } else {
        s.subrange(0, keep as int) + "..."@ + s.subrange(s.len() - keep, s.len() as int)
    }
}

/// Abbreviates `s` as `abbreviated` says.
pub fn abbreviate(s: &str, limit: usize, keep: usize) -> (r: String)
    requires
        keep <= limit,
    ensures
        r@ == abbreviated(s@, limit as nat, keep as nat),
{
    let n = s.unicode_len();
    if n <= limit {
        return owned(s);
    }
    let head = s.substring_char(0, keep);
    let tail = s.substring_char(n - keep, n);
    let r = joined(owned(head), "...");
    joined(r, tail)
}

/// An address shortened for display: up to 12 characters unchanged, else the
/// first and last six.
pub fn format_pubkey(pubkey: &str) -> (r: String)
    ensures
        r@ == abbreviated(pubkey@, 12, 6),
{
    abbreviate(pubkey, 12, 6)
}

/// An address for a chat message, in monospace: up to 12 characters
/// unchanged, else the first and last eight.
pub fn format_pubkey_tg(pubkey: &str) -> (r: String)
    ensures
        r@ == "`"@ + abbreviated(pubkey@, 12, 8) + "`"@,
{
    let inner = abbreviate(pubkey, 12, 8);
    let r = joined(owned("`"), inner.as_str());
    joined(r, "`")
}

/// An amount for a chat message, in SOL with nine decimals.
pub fn format_sol_tg(lamports: u64) -> (r: String)
    ensures
        r@ == sol_text(lamports),
{
    RentCalculator::format_sol(lamports)
}

/// An address for the accounts table: up to 20 characters unchanged, else
/// the first and last eight.
pub fn truncate_pubkey(pubkey: &str) -> (r: String)
    ensures
        r@ == abbreviated(pubkey@, 20, 8),
{
    abbreviate(pubkey, 20, 8)
}

/// An address for the operations list: up to 16 characters unchanged, else
/// the first and last six.
pub fn truncate_address(addr: &str) -> (r: String)
    ensures
        r@ == abbreviated(addr@, 16, 6),
{
    abbreviate(addr, 16, 6)
}

/// A setting value: up to 40 characters unchanged, else the first and last sixteen.
pub fn truncate(s: &str) -> (r: String)
    ensures
        r@ == abbreviated(s@, 40, 16),
{
    abbreviate(s, 40, 16)
}

} // verus!
