//! Reclaiming many accounts in fixed-size chunks, with per-account failures
//! kept apart so that one bad account never blocks the rest.
use crate::address::Address;
use crate::discovery::AccountType;
use crate::engine::{ReclaimError, ReclaimResult};
use vstd::prelude::*;

verus! {

/// The outcome recorded for one account.
pub type AccountOutcome = (Address, Result<ReclaimResult, ReclaimError>);

/// Number of successes among the outcomes.
pub open spec fn successes(s: Seq<AccountOutcome>) -> nat
    decreases s.len(),
{
    if s.len() == 0 {
        0
    } else {
        successes(s.drop_last()) + if s.last().1 is Ok {
            1nat
        } else {
            0nat
        }
    }
}

/// Number of failures among the outcomes.
pub open spec fn failures(s: Seq<AccountOutcome>) -> nat
    decreases s.len(),
{
    if s.len() == 0 {
        0
    } else {
        failures(s.drop_last()) + if s.last().1 is Err {
            1nat
        } else {
            0nat
        }
    }
}

/// Lamports reclaimed by the successes, summed without bound.
pub open spec fn reclaimed(s: Seq<AccountOutcome>) -> nat
    decreases s.len(),
{
    if s.len() == 0 {
        0
    } else {
        reclaimed(s.drop_last()) + match s.last().1 {
            Ok(r) => r.amount_reclaimed as nat,
            Err(_) => 0nat,
        }
    }
}

/// The aggregate of a batch: counts, the lamports reclaimed (saturating at
/// the largest `u64`), and each account's own outcome in order.
#[derive(Debug)]
pub struct BatchSummary {
    pub total_accounts: usize,
    pub successful: usize,
    pub failed: usize,
    pub total_reclaimed: u64,
    pub results: Vec<AccountOutcome>,
}

impl BatchSummary {
    pub open spec fn wf(&self) -> bool {
        &&& self.successful == successes(self.results@)
        &&& self.failed == failures(self.results@)
        &&& self.total_reclaimed == if reclaimed(self.results@) <= u64::MAX {
            reclaimed(self.results@)
        } else {
            u64::MAX as nat
        }
    }

    /// An empty summary for a batch of `total_accounts` accounts.
    pub fn new(total_accounts: usize) -> (r: BatchSummary)
        ensures
            r.wf(),
            r.total_accounts == total_accounts,
            r.results@.len() == 0,
    {
        BatchSummary {
            total_accounts,
            successful: 0,
            failed: 0,
            total_reclaimed: 0,
            results: Vec::new(),
        }
    }

    /// Records the outcome for one account.
    pub fn record(&mut self, account: Address, outcome: Result<ReclaimResult, ReclaimError>)
        requires
            old(self).wf(),
            old(self).results@.len() < usize::MAX,
        ensures
            final(self).wf(),
            final(self).total_accounts == old(self).total_accounts,
            final(self).results@ == old(self).results@.push((account, outcome)),
    {
        let ghost before = self.results@;
        proof {
            lemma_counts_bounded(before);
        }
        match &outcome {
            Ok(r) => {
                self.successful = self.successful + 1;
                self.total_reclaimed = self.total_reclaimed.saturating_add(r.amount_reclaimed);
            },
            Err(_) => {
                self.failed = self.failed + 1;
            },
        }
        self.results.push((account, outcome));
        assert(self.results@.drop_last() =~= before);
    }
}

proof fn lemma_counts_bounded(s: Seq<AccountOutcome>)
    ensures
        successes(s) + failures(s) == s.len(),
    decreases s.len(),
{
    if s.len() > 0 {
        lemma_counts_bounded(s.drop_last());
    }
}

/// In a batch where exactly one account fails, the summary counts that one
/// failure and a success for every other account.
pub proof fn lemma_single_failure_isolated(s: Seq<AccountOutcome>, bad: int)
    requires
        0 <= bad < s.len(),
        s[bad].1 is Err,
        forall|i: int| 0 <= i < s.len() && i != bad ==> (#[trigger] s[i]).1 is Ok,
    ensures
        failures(s) == 1,
        successes(s) == s.len() - 1,
    decreases s.len(),
{
    lemma_counts_bounded(s);
    if bad == s.len() - 1 {
        lemma_all_ok(s.drop_last());
    } else {
        assert forall|i: int| 0 <= i < s.drop_last().len() && i != bad implies (
        #[trigger] s.drop_last()[i]).1 is Ok by {
            assert(s.drop_last()[i] == s[i]);
        }
        assert(s.drop_last()[bad] == s[bad]);
        lemma_single_failure_isolated(s.drop_last(), bad);
        assert(s[s.len() - 1].1 is Ok);
    }
}

proof fn lemma_all_ok(s: Seq<AccountOutcome>)
    requires
        forall|i: int| 0 <= i < s.len() ==> (#[trigger] s[i]).1 is Ok,
    ensures
        failures(s) == 0,
        successes(s) == s.len(),
    decreases s.len(),
{
    if s.len() > 0 {
        assert forall|i: int| 0 <= i < s.drop_last().len() implies (
        #[trigger] s.drop_last()[i]).1 is Ok by {
            assert(s.drop_last()[i] == s[i]);
        }
        lemma_all_ok(s.drop_last());
        assert(s[s.len() - 1].1 is Ok);
    }
}

/// How a batch is cut into chunks and paced: `batch_size` accounts per
/// chunk, and `batch_delay_ms` milliseconds between consecutive chunks.
#[derive(Clone, Copy, Debug)]
pub struct BatchProcessor {
    pub batch_size: usize,
    pub batch_delay_ms: u64,
}

pub open spec fn chunk_count_spec(n: nat, size: nat) -> nat {
    if size == 0 {
        0
    } else {
        ((n + size - 1) / size as int) as nat
    }
}

impl BatchProcessor {
    /// A processor with chunks of `batch_size` accounts (at least one).
    pub fn new(batch_size: usize, batch_delay_ms: u64) -> (r: BatchProcessor)
        requires
            batch_size > 0,
        ensures
            r.batch_size == batch_size,
            r.batch_delay_ms == batch_delay_ms,
    {
        BatchProcessor { batch_size, batch_delay_ms }
    }

    /// The number of chunks for `n` accounts.
    pub fn chunk_count(&self, n: usize) -> (r: usize)
        requires
            self.batch_size > 0,
        ensures
            r == chunk_count_spec(n as nat, self.batch_size as nat),
    {
        let full = n / self.batch_size;
        if n % self.batch_size == 0 {
            proof {
                lemma_ceil_div_exact(n as nat, self.batch_size as nat);
            }
            full
        } else {
            proof {
                lemma_ceil_div_partial(n as nat, self.batch_size as nat);
                vstd::arithmetic::div_mod::lemma_fundamental_div_mod(n as int, self.batch_size as int);
                assert(full < n) by (nonlinear_arith)
                    requires
                        n == self.batch_size * full + n % self.batch_size,
                        n % self.batch_size > 0,
                        self.batch_size > 0,
                        full >= 0,
                ;
            }
            full + 1
        }
    }

    /// The range `[start, end)` of chunk `i` among `n` accounts.
    pub fn chunk_bounds(&self, i: usize, n: usize) -> (r: (usize, usize))
        requires
            self.batch_size > 0,
            i < chunk_count_spec(n as nat, self.batch_size as nat),
        ensures
            r.0 == i * self.batch_size,
            r.1 == if (i + 1) * self.batch_size <= n {
                (i + 1) * self.batch_size
            } else {
                n as int
            },
            r.0 < r.1 <= n,
    {
        let size = self.batch_size;
        proof {
            lemma_chunk_start_in_range(i as nat, n as nat, size as nat);
        }
        let start = i * size;
        let end = if n - start >= size {
            start + size
        } else {
            n
        };
        assert(start + size == (i + 1) * size) by (nonlinear_arith)
            requires
                start == i * size,
        ;
        (start, end)
    }

    /// Whether a delay follows chunk `i` of a batch of `n`: after every chunk but the last.
    pub fn delay_after(&self, i: usize, n: usize) -> (r: bool)
        requires
            self.batch_size > 0,
        ensures
            r == (i + 1 < chunk_count_spec(n as nat, self.batch_size as nat)),
    {
        let count = self.chunk_count(n);
        i < count && i + 1 < count
    }

    /// Whether a chunk's accounts are to be retried one by one: exactly when
    /// the call for the whole chunk failed.
    pub fn retry_individually<T>(chunk: &Result<T, ReclaimError>) -> (r: bool)
        ensures
            r == chunk is Err,
    {
        chunk.is_err()
    }

    /// The summary for a list with nothing to reclaim (empty, and nothing is
    /// attempted); `None` when the list holds accounts, which are then
    /// processed chunk by chunk.
    pub fn reclaim_all_eligible(&self, accounts: &Vec<(Address, AccountType)>) -> (r: Option<
        BatchSummary,
    >)
        ensures
            accounts@.len() == 0 <==> r is Some,
            r matches Some(s) ==> s.wf() && s.total_accounts == 0 && s.results@.len() == 0,
    {
        if accounts.len() == 0 {
            Some(BatchSummary::new(0))
        } else {
            None
        }
    }
}

proof fn lemma_ceil_div_exact(n: nat, size: nat)
    requires
        size > 0,
        n % size == 0,
    ensures
        (n + size - 1) / size as int == n / size,
{
    assert((n + size - 1) / size as int == n / size) by (nonlinear_arith)
        requires
            size > 0,
            n % size == 0,
    {
        let q = n / size;
        assert(n == q * size);
        assert(n + size - 1 == q * size + (size - 1));
        vstd::arithmetic::div_mod::lemma_fundamental_div_mod_converse(
            (n + size - 1) as int,
            size as int,
            q as int,
            (size - 1) as int,
        );
    }
}

proof fn lemma_ceil_div_partial(n: nat, size: nat)
    requires
        size > 0,
        n % size != 0,
    ensures
        (n + size - 1) / size as int == n / size + 1,
{
    let q = n / size;
    let m = n % size;
    vstd::arithmetic::div_mod::lemma_fundamental_div_mod(n as int, size as int);
    assert(n + size - 1 == (q + 1) * size + (m - 1)) by (nonlinear_arith)
        requires
            n == size * q + m,
    ;
    vstd::arithmetic::div_mod::lemma_fundamental_div_mod_converse(
        (n + size - 1) as int,
        size as int,
        (q + 1) as int,
        (m - 1) as int,
    );
}

proof fn lemma_chunk_start_in_range(i: nat, n: nat, size: nat)
    requires
        size > 0,
        i < chunk_count_spec(n, size),
    ensures
        i * size < n,
{
    let c = (n + size - 1) / size as int;
    vstd::arithmetic::div_mod::lemma_fundamental_div_mod((n + size - 1) as int, size as int);
    assert(i * size < n) by (nonlinear_arith)
        requires
            i < c,
            c * size <= n + size - 1,
            size > 0,
    {
        assert((i + 1) * size <= c * size);
    }
}

/// A batch in progress: the accounts to reclaim, in order, and the summary
/// of those already attempted. Each account is recorded exactly once, in
/// order; the caller paces before each chunk and waits between chunks as
/// `starts_chunk` and `delay_after_last` say.
#[derive(Debug)]
pub struct BatchRun {
    pub processor: BatchProcessor,
    pub accounts: Vec<(Address, AccountType)>,
    pub summary: BatchSummary,
}

impl BatchRun {
    pub open spec fn wf(&self) -> bool {
        &&& self.processor.batch_size > 0
        &&& self.summary.wf()
        &&& self.summary.total_accounts == self.accounts@.len()
        &&& self.summary.results@.len() <= self.accounts@.len()
        &&& forall|i: int|
            0 <= i < self.summary.results@.len() ==> (#[trigger] self.summary.results@[i]).0
                == self.accounts@[i].0
    }

    /// A run over `accounts` with nothing attempted yet.
    pub fn new(processor: BatchProcessor, accounts: Vec<(Address, AccountType)>) -> (r: BatchRun)
        requires
            processor.batch_size > 0,
        ensures
            r.wf(),
            r.processor == processor,
            r.accounts@ == accounts@,
            r.summary.results@.len() == 0,
    {
        let n = accounts.len();
        BatchRun { processor, accounts, summary: BatchSummary::new(n) }
    }

    /// The position of the next account to attempt, or `None` when all were.
    pub fn next_index(&self) -> (r: Option<usize>)
        requires
            self.wf(),
        ensures
            match r {
                Some(i) => i == self.summary.results@.len() && i < self.accounts@.len(),
                None => self.summary.results@.len() == self.accounts@.len(),
            },
    {
        let done = self.summary.results.len();
        if done < self.accounts.len() {
            Some(done)
        } else {
            None
        }
    }

    /// Whether the next account opens a chunk (the caller paces first).
    pub fn starts_chunk(&self) -> (r: bool)
        requires
            self.wf(),
        ensures
            r == (self.summary.results@.len() < self.accounts@.len()
                && self.summary.results@.len() % (self.processor.batch_size as nat) == 0),
    {
        let done = self.summary.results.len();
        done < self.accounts.len() && done % self.processor.batch_size == 0
    }

    /// Records the outcome for the next account.
    pub fn record_next(&mut self, outcome: Result<ReclaimResult, ReclaimError>)
        requires
            old(self).wf(),
            old(self).summary.results@.len() < old(self).accounts@.len(),
        ensures
            final(self).wf(),
            final(self).processor == old(self).processor,
            final(self).accounts@ == old(self).accounts@,
            final(self).summary.results@ == old(self).summary.results@.push(
                (old(self).accounts@[old(self).summary.results@.len() as int].0, outcome),
            ),
    {
        let i = self.summary.results.len();
        let address = self.accounts[i].0;
        self.summary.record(address, outcome);
    }

    /// Whether the account just recorded closed a chunk and more remain: the
    /// caller then waits the batch delay.
    pub fn delay_after_last(&self) -> (r: bool)
        requires
            self.wf(),
        ensures
            r == (0 < self.summary.results@.len() < self.accounts@.len()
                && self.summary.results@.len() % (self.processor.batch_size as nat) == 0),
    {
        let done = self.summary.results.len();
        0 < done && done < self.accounts.len() && done % self.processor.batch_size == 0
    }

    /// The summary once every account was attempted.
    pub fn into_summary(self) -> (r: BatchSummary)
        requires
            self.wf(),
        ensures
            r == self.summary,
    {
        self.summary
    }
}

/// A finished run over N accounts in which exactly one account failed
/// reports N - 1 successes and one failure, with one outcome per account in
/// the accounts' order.
pub proof fn lemma_finished_run_isolates_failure(run: BatchRun, bad: int)
    requires
        run.wf(),
        run.summary.results@.len() == run.accounts@.len(),
        0 <= bad < run.accounts@.len(),
        run.summary.results@[bad].1 is Err,
        forall|i: int|
            0 <= i < run.accounts@.len() && i != bad ==> (#[trigger] run.summary.results@[i]).1 is Ok,
    ensures
        run.summary.total_accounts == run.accounts@.len(),
        run.summary.failed == 1,
        run.summary.successful == run.accounts@.len() - 1,
        forall|i: int|
            0 <= i < run.accounts@.len() ==> (#[trigger] run.summary.results@[i]).0
                == run.accounts@[i].0,
{
    lemma_single_failure_isolated(run.summary.results@, bad);
}

} // verus!
