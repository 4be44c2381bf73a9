use crate::download::{view_of_pool, DownloadError, Downloadable, MultiDownload};
use crate::transfer::{started, Transfer, Verbose};
use vstd::prelude::*;

verus! {

/// Each item of a batch reports on a row of the shared display, unless the
/// whole batch is quiet.
pub open spec fn item_verbose(batch: Verbose) -> Verbose {
    if batch == Verbose::Quiet {
        Verbose::Quiet
    } else {
        Verbose::Ext
    }
}

/// `r` is the plan for a batch over `pool`: no pool, or an empty one, is an
/// error; else one unit per item, in pool order, each set up as a transfer of
/// its own.
pub open spec fn planned<D: Downloadable>(
    pool: Option<Seq<D>>,
    verbose: Verbose,
    r: Result<Vec<Result<Transfer, DownloadError>>, DownloadError>,
) -> bool {
    match pool {
        None => r == Err::<Vec<Result<Transfer, DownloadError>>, DownloadError>(
            DownloadError::NoDownloadPool,
        ),
        Some(s) => if s.len() == 0 {
            r == Err::<Vec<Result<Transfer, DownloadError>>, DownloadError>(
                DownloadError::NoDownloadPool,
            )
        } else {
            r matches Ok(units) && units@.len() == s.len() && forall|i: int|
                0 <= i < s.len() ==> #[trigger] started(s[i], item_verbose(verbose), units@[i])
        },
    }
}

/// Whether a batch shows a shared multi-row display.
pub fn shows_display(verbose: Verbose) -> (r: bool)
    ensures
        r == (verbose != Verbose::Quiet),
{
    match verbose {
        Verbose::Quiet => false,
        _ => true,
    }
}

/// Sets up one independent unit per item of `pool`.
pub fn plan_pool<D: Downloadable>(pool: Option<Vec<D>>, verbose: Verbose) -> (r: Result<
    Vec<Result<Transfer, DownloadError>>,
    DownloadError,
>)
    ensures
        planned(view_of_pool(pool), verbose, r),
{
    let items = match pool {
        Some(items) => items,
        None => return Err(DownloadError::NoDownloadPool),
    };
    if items.len() == 0 {
        return Err(DownloadError::NoDownloadPool);
    }
    let each = match verbose {
        Verbose::Quiet => Verbose::Quiet,
        _ => Verbose::Ext,
    };
    let mut units: Vec<Result<Transfer, DownloadError>> = Vec::new();
    let mut i: usize = 0;
    while i < items.len()
        invariant
            i <= items@.len(),
            each == item_verbose(verbose),
            units@.len() == i,
            forall|k: int| 0 <= k < i ==> #[trigger] started(items@[k], each, units@[k]),
        decreases items@.len() - i,
    {
        let unit = Transfer::start(&items[i], each);
        units.push(unit);
        i = i + 1;
    }
    Ok(units)
}

/// Asks `provider` for its pool and sets up one independent unit per item.
pub fn plan<M: MultiDownload>(provider: &M, verbose: Verbose) -> (r: Result<
    Vec<Result<Transfer, DownloadError>>,
    DownloadError,
>)
    ensures
        exists|p: Option<Seq<M::Item>>| provider.pool_ok(p) && planned(p, verbose, r),
{
    let pool = provider.download_pool();
    let r = plan_pool(pool, verbose);
    assert(provider.pool_ok(view_of_pool(pool)) && planned(view_of_pool(pool), verbose, r));
    r
}

/// Leaving one item out of a pool changes no other item's unit: the batch
/// still goes ahead, and each remaining item is set up exactly as in the full
/// batch.
pub proof fn lemma_plan_without_item<D: Downloadable>(
    s: Seq<D>,
    k: int,
    verbose: Verbose,
    full: Result<Vec<Result<Transfer, DownloadError>>, DownloadError>,
    rest: Result<Vec<Result<Transfer, DownloadError>>, DownloadError>,
)
    requires
        0 <= k < s.len(),
        s.len() > 1,
        planned(Some(s), verbose, full),
        planned(Some(s.remove(k)), verbose, rest),
    ensures
        full is Ok,
        rest is Ok,
        rest->Ok_0@.len() + 1 == full->Ok_0@.len(),
        forall|j: int|
            0 <= j < k ==> started(s[j], item_verbose(verbose), #[trigger] rest->Ok_0@[j])
                && started(s[j], item_verbose(verbose), full->Ok_0@[j]),
        forall|j: int|
            k <= j < s.len() - 1 ==> started(s[j + 1], item_verbose(verbose), #[trigger] rest->Ok_0@[j])
                && started(s[j + 1], item_verbose(verbose), full->Ok_0@[j + 1]),
{
    let t = s.remove(k);
    assert forall|j: int| 0 <= j < k implies started(s[j], item_verbose(verbose), #[trigger] rest->Ok_0@[j])
        && started(s[j], item_verbose(verbose), full->Ok_0@[j]) by {
        assert(t[j] == s[j]);
    }
    assert forall|j: int| k <= j < s.len() - 1 implies started(s[j + 1], item_verbose(verbose), #[trigger] rest->Ok_0@[j])
        && started(s[j + 1], item_verbose(verbose), full->Ok_0@[j + 1]) by {
        assert(t[j] == s[j + 1]);
    }
}

/// How many outcomes are successes.
pub open spec fn count_ok(s: Seq<Result<u64, DownloadError>>) -> nat
    decreases s.len(),
{
    if s.len() == 0 {
        0
    } else {
        count_ok(s.drop_last()) + if s.last() is Ok {
            1nat
        } else {
            0nat
        }
    }
}

/// The outcome of every unit of a batch, in pool order.
pub struct BatchReport {
    pub outcomes: Vec<Result<u64, DownloadError>>,
}

impl BatchReport {
    pub fn new(outcomes: Vec<Result<u64, DownloadError>>) -> (r: BatchReport)
        ensures
            r.outcomes@ == outcomes@,
    {
        BatchReport { outcomes }
    }

    /// The number of units that completed.
    pub fn succeeded(&self) -> (r: usize)
        ensures
            r == count_ok(self.outcomes@),
    {
        let mut n: usize = 0;
        let mut i: usize = 0;
        while i < self.outcomes.len()
            invariant
                i <= self.outcomes@.len(),
                n == count_ok(self.outcomes@.subrange(0, i as int)),
                n <= i,
            decreases self.outcomes@.len() - i,
        {
            assert(self.outcomes@.subrange(0, i as int + 1).drop_last() =~= self.outcomes@.subrange(
                0,
                i as int,
            ));
            if self.outcomes[i].is_ok() {
                n = n + 1;
            }
            i = i + 1;
        }
        assert(self.outcomes@.subrange(0, i as int) =~= self.outcomes@);
        n
    }

    /// The number of units that failed.
    pub fn failed(&self) -> (r: usize)
        ensures
            r == self.outcomes@.len() - count_ok(self.outcomes@),
    {
        proof {
            lemma_count_ok_bound(self.outcomes@);
        }
        self.outcomes.len() - self.succeeded()
    }

    /// Whether every unit completed.
    pub fn all_succeeded(&self) -> (r: bool)
        ensures
            r == (count_ok(self.outcomes@) == self.outcomes@.len()),
    {
        self.succeeded() == self.outcomes.len()
    }
}

/// No more successes than outcomes.
pub proof fn lemma_count_ok_bound(s: Seq<Result<u64, DownloadError>>)
    ensures
        count_ok(s) <= s.len(),
    decreases s.len(),
{
    if s.len() > 0 {
        lemma_count_ok_bound(s.drop_last());
    }
}

/// One unit's failure touches no other unit: every other outcome stays as it
/// was, and the count of successes drops by one exactly when that unit had
/// succeeded.
pub proof fn lemma_failure_is_local(s: Seq<Result<u64, DownloadError>>, j: int, e: DownloadError)
    requires
        0 <= j < s.len(),
    ensures
        forall|i: int| 0 <= i < s.len() && i != j ==> #[trigger] s.update(j, Err(e))[i] == s[i],
        count_ok(s.update(j, Err(e))) + (if s[j] is Ok {
            1nat
        } else {
            0nat
        }) == count_ok(s),
    decreases s.len(),
{
    let t = s.update(j, Err(e));
    if j == s.len() - 1 {
        assert(t.drop_last() =~= s.drop_last());
    } else {
        lemma_failure_is_local(s.drop_last(), j, e);
        assert(t.drop_last() =~= s.drop_last().update(j, Err(e)));
    }
}

} // verus!
