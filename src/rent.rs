//! Account balances and the rent they hold.
use crate::address::Address;
use crate::text::{decimal, decimal_text, joined, owned};
use vstd::prelude::*;

verus! {

/// Lamports in one SOL.
pub const LAMPORTS_PER_SOL: u64 = 1_000_000_000;

/// What a fetch of an account returns: its balance, its owning program and its bytes.
#[derive(Clone, Debug)]
pub struct AccountSnapshot {
    pub lamports: u64,
    pub owner: Address,
    pub data: Vec<u8>,
}

/// Whether an account holds nothing beyond its deposit: no data at all, or a
/// balance at most the rent-exempt minimum with every byte zero.
pub open spec fn is_empty_spec(lamports: u64, data: Seq<u8>, minimum_balance: u64) -> bool {
    data.len() == 0 || (lamports <= minimum_balance && forall|i: int|
        0 <= i < data.len() ==> data[i] == 0u8)
}

pub open spec fn total_lamports(accounts: Seq<(AccountSnapshot, String)>) -> nat
    decreases accounts.len(),
{
    if accounts.len() == 0 {
        0
    } else {
        total_lamports(accounts.drop_last()) + accounts.last().0.lamports as nat
    }
}

/// `lamports` written in SOL with nine decimals, such as `0.002039280 SOL`.
pub open spec fn sol_text(lamports: u64) -> Seq<char> {
    decimal_text((lamports / LAMPORTS_PER_SOL) as nat) + "."@ + nine_digits(
        (lamports % LAMPORTS_PER_SOL) as nat,
    ) + " SOL"@
}

/// The decimal digits of `n`, padded on the left with zeros to nine places.
pub open spec fn nine_digits(n: nat) -> Seq<char> {
    Seq::new((9 - decimal_text(n).len()) as nat, |i: int| '0') + decimal_text(n)
}

pub struct RentCalculator;

impl RentCalculator {
    /// The rent locked in an account: its whole balance.
    pub fn calculate_rent(account: &AccountSnapshot) -> (r: u64)
        ensures
            r == account.lamports,
    {
        account.lamports
    }

    /// The rent locked across several accounts.
    pub fn calculate_total_rent(accounts: &Vec<(AccountSnapshot, String)>) -> (r: u64)
        requires
            total_lamports(accounts@) <= u64::MAX,
        ensures
            r == total_lamports(accounts@),
    {
        let mut total: u64 = 0;
        let mut i: usize = 0;
        while i < accounts.len()
            invariant
                0 <= i <= accounts@.len(),
                total == total_lamports(accounts@.subrange(0, i as int)),
                total_lamports(accounts@) <= u64::MAX,
            decreases accounts@.len() - i,
        {
            assert(accounts@.subrange(0, i + 1).drop_last() =~= accounts@.subrange(0, i as int));
            proof {
                lemma_total_prefix(accounts@, i as int + 1);
            }
            total = total + accounts[i].0.lamports;
            i = i + 1;
        }
        assert(accounts@.subrange(0, accounts@.len() as int) =~= accounts@);
        total
    }

    /// The size of an account's data, in bytes.
    pub fn get_data_size(account: &AccountSnapshot) -> (r: usize)
        ensures
            r == account.data@.len(),
    {
        account.data.len()
    }

    /// Whether the balance reaches the rent-exempt minimum.
    pub fn is_rent_exempt(account: &AccountSnapshot, minimum_balance: u64) -> (r: bool)
        ensures
            r == (account.lamports >= minimum_balance),
    {
        account.lamports >= minimum_balance
    }

    /// Whether the account holds nothing beyond its deposit.
    pub fn is_empty_account(account: &AccountSnapshot, minimum_balance: u64) -> (r: bool)
        ensures
            r == is_empty_spec(account.lamports, account.data@, minimum_balance),
    {
        if account.data.len() == 0 {
            return true;
        }
        if account.lamports > minimum_balance {
            return false;
        }
        let mut i: usize = 0;
        while i < account.data.len()
            invariant
                0 <= i <= account.data@.len(),
                forall|k: int| 0 <= k < i ==> account.data@[k] == 0u8,
            decreases account.data@.len() - i,
        {
            if account.data[i] != 0 {
                return false;
            }
            i = i + 1;
        }
        true
    }

    /// `lamports` written in SOL with nine decimals, such as `0.002039280 SOL`.
    pub fn format_sol(lamports: u64) -> (r: String)
        ensures
            r@ == sol_text(lamports),
    {
        let whole = decimal((lamports / LAMPORTS_PER_SOL) as u128);
        let frac = decimal((lamports % LAMPORTS_PER_SOL) as u128);
        let mut padding = owned("");
        let mut k: usize = frac.unicode_len();
        proof {
            lemma_decimal_len_bound((lamports % LAMPORTS_PER_SOL) as nat);
            reveal_strlit("");
            reveal_strlit("0");
            assert(padding@ =~= Seq::new((k - frac@.len()) as nat, |i: int| '0'));
        }
        while k < 9
            invariant
                k <= 9,
                frac@.len() <= k,
                padding@ == Seq::new((k - frac@.len()) as nat, |i: int| '0'),
            decreases 9 - k,
        {
            padding = joined(padding, "0");
            proof {
                reveal_strlit("0");
            }
            assert(padding@ =~= Seq::new((k + 1 - frac@.len()) as nat, |i: int| '0'));
            k = k + 1;
        }
        let s = joined(whole, ".");
        let s = joined(s, padding.as_str());
        let s = joined(s, frac.as_str());
        let s = joined(s, " SOL");
        s
    }
}

use vstd::string::*;

proof fn lemma_total_prefix(accounts: Seq<(AccountSnapshot, String)>, n: int)
    requires
        0 <= n <= accounts.len(),
    ensures
        total_lamports(accounts.subrange(0, n)) <= total_lamports(accounts),
    decreases accounts.len(),
{
    if n < accounts.len() {
        assert(accounts.drop_last().subrange(0, n) =~= accounts.subrange(0, n));
        lemma_total_prefix(accounts.drop_last(), n);
    } else {
        assert(accounts.subrange(0, n) =~= accounts);
    }
}

/// Ten to the power `k`.
pub open spec fn pow10(k: nat) -> nat
    decreases k,
{
    if k == 0 {
        1
    } else {
        10 * pow10((k - 1) as nat)
    }
}

/// A number below `10^k` has at most `k` decimal digits.
proof fn lemma_decimal_len_below(n: nat, k: nat)
    requires
        n < pow10(k),
        k >= 1,
    ensures
        decimal_text(n).len() <= k,
    decreases k,
{
    if n >= 10 {
        if k == 1 {
            assert(pow10(1) == 10 * pow10(0));
            assert(false);
        }
        let p = pow10((k - 1) as nat);
        assert(pow10(k) == 10 * p);
        assert(n / 10 < p) by (nonlinear_arith)
            requires
                n < 10 * p,
        ;
        lemma_decimal_len_below(n / 10, (k - 1) as nat);
    }
}

/// A number below one billion has at most nine decimal digits.
proof fn lemma_decimal_len_bound(n: nat)
    requires
        n < 1_000_000_000,
    ensures
        decimal_text(n).len() <= 9,
{
    reveal_with_fuel(pow10, 10);
    lemma_decimal_len_below(n, 9);
}

} // verus!
