//! Text helpers: comparison, substring search and number formatting.
use vstd::prelude::*;
use vstd::string::*;

verus! {

/// Whether `pat` occurs in `s` at some position.
pub open spec fn has_substring(s: Seq<char>, pat: Seq<char>) -> bool {
    exists|i: int| 0 <= i <= s.len() - pat.len() && #[trigger] s.subrange(i, i + pat.len()) == pat
}

/// Whether two texts hold the same characters.
pub fn same_text(a: &str, b: &str) -> (r: bool)
    ensures
        r == (a@ == b@),
{
    let n = a.unicode_len();
    let m = b.unicode_len();
    if n != m {
        return false;
    }
    let mut i: usize = 0;
    while i < n
        invariant
            n == a@.len(),
            m == b@.len(),
            n == m,
            0 <= i <= n,
            forall|k: int| 0 <= k < i ==> a@[k] == b@[k],
        decreases n - i,
    {
        if a.get_char(i) != b.get_char(i) {
            return false;
        }
        i = i + 1;
    }
    assert(a@ =~= b@);
    true
}

/// Whether `pat` occurs in `s`.
pub fn contains_text(s: &str, pat: &str) -> (r: bool)
    ensures
        r == has_substring(s@, pat@),
{
    let n = s.unicode_len();
    let m = pat.unicode_len();
    if m > n {
        assert forall|i: int| 0 <= i <= s@.len() - pat@.len() implies #[trigger] s@.subrange(
            i,
            i + pat@.len(),
        ) != pat@ by {}
        return false;
    }
    let mut start: usize = 0;
    while start <= n - m
        invariant
            n == s@.len(),
            m == pat@.len(),
            m <= n,
            0 <= start <= n - m + 1,
            forall|i: int|
                0 <= i < start ==> #[trigger] s@.subrange(i, i + pat@.len()) != pat@,
        decreases n - m + 1 - start,
    {
        let mut k: usize = 0;
        let mut matched = true;
        while k < m
            invariant
                n == s@.len(),
                m == pat@.len(),
                m <= n,
                start <= n - m,
                0 <= k <= m,
                matched ==> forall|j: int| 0 <= j < k ==> s@[start + j] == pat@[j],
                !matched ==> s@.subrange(start as int, start + m) != pat@,
            decreases m - k,
        {
            if matched && s.get_char(start + k) != pat.get_char(k) {
                matched = false;
                assert(s@.subrange(start as int, start + m)[k as int] != pat@[k as int]);
            }
            k = k + 1;
        }
        if matched {
            assert(s@.subrange(start as int, start + m) =~= pat@);
            return true;
        }
        if start == n - m {
            return false;
        }
        start = start + 1;
    }
    false
}

/// The decimal digits of a natural number, most significant first, without
/// leading zeros.
pub open spec fn decimal_text(n: nat) -> Seq<char>
    decreases n,
{
    if n < 10 {
        seq!["0123456789"@[n as int]]
    } else {
        decimal_text(n / 10).push("0123456789"@[(n % 10) as int])
    }
}

/// The decimal digit `d`.
fn digit_text(d: u128) -> (r: &'static str)
    requires
        d < 10,
    ensures
        r@ == seq!["0123456789"@[d as int]],
{
    proof {
        reveal_strlit("0123456789");
        reveal_strlit("0");
        reveal_strlit("1");
        reveal_strlit("2");
        reveal_strlit("3");
        reveal_strlit("4");
        reveal_strlit("5");
        reveal_strlit("6");
        reveal_strlit("7");
        reveal_strlit("8");
        reveal_strlit("9");
    }
    let r = match d {
        0 => "0",
        1 => "1",
        2 => "2",
        3 => "3",
        4 => "4",
        5 => "5",
        6 => "6",
        7 => "7",
        8 => "8",
        _ => "9",
    };
    assert(r@ =~= seq!["0123456789"@[d as int]]);
    r
}

/// The decimal text of a number.
pub fn decimal(n: u128) -> (r: String)
    ensures
        r@ == decimal_text(n as nat),
{
    let mut out = owned(digit_text(n % 10));
    let mut rest: u128 = n / 10;
    proof {
        if n >= 10 {
            assert(decimal_text(n as nat) == decimal_text((n / 10) as nat).push(
                "0123456789"@[(n % 10) as int],
            ));
        }
    }
    while rest > 0
        invariant
            decimal_text(n as nat) == (if rest == 0 {
                Seq::<char>::empty()
            } else {
                decimal_text(rest as nat)
            }) + out@,
        decreases rest,
    {
        let ghost old_out = out@;
        let ghost r = rest as nat;
        out = joined(owned(digit_text(rest % 10)), out.as_str());
        rest = rest / 10;
        proof {
            if r >= 10 {
                assert(decimal_text(r) == decimal_text(r / 10).push("0123456789"@[(r % 10) as int]));
                assert(decimal_text(r) + old_out =~= decimal_text(r / 10) + out@);
            } else {
                assert(decimal_text(r) + old_out =~= Seq::<char>::empty() + out@);
            }
        }
    }
    assert(decimal_text(n as nat) =~= out@);
    out
}

/// An owned copy of a text.
pub fn owned(s: &str) -> (r: String)
    ensures
        r@ == s@,
{
    <String as StringExecFns>::from_str(s)
}

/// `a` followed by `b`.
pub fn joined(a: String, b: &str) -> (r: String)
    ensures
        r@ == a@ + b@,
{
    a.concat(b)
}

} // verus!
