//! Category-partitioned latency store.
//!
//! Every attempt a worker makes yields exactly one latency sample, recorded
//! in the bucket of the attempt's [`StatusCodeCategory`]. The six buckets
//! are independent values, so a caller that needs concurrent writers can
//! guard each bucket separately and no sample recorded in one category ever
//! blocks or disturbs another category.

use vstd::arithmetic::div_mod::{lemma_div_is_ordered, lemma_div_multiples_vanish};
use vstd::prelude::*;

use crate::http::StatusCodeCategory;

verus! {

/// The sum of a sequence of samples.
pub open spec fn sum_of(s: Seq<u64>) -> int
    decreases s.len(),
{
    if s.len() == 0 {
        0
    } else {
        sum_of(s.drop_last()) + s.last()
    }
}

/// The smallest sample of a sequence, or 0 when the sequence is empty.
pub open spec fn min_of(s: Seq<u64>) -> u64
    decreases s.len(),
{
    if s.len() == 0 {
        0u64
    } else if s.len() == 1 {
        s.last()
    } else if s.last() < min_of(s.drop_last()) {
        s.last()
    } else {
        min_of(s.drop_last())
    }
}

/// The largest sample of a sequence, or 0 when the sequence is empty.
pub open spec fn max_of(s: Seq<u64>) -> u64
    decreases s.len(),
{
    if s.len() == 0 {
        0u64
    } else if s.last() > max_of(s.drop_last()) {
        s.last()
    } else {
        max_of(s.drop_last())
    }
}

/// The integer-truncated arithmetic mean of a sequence of samples, or 0
/// when the sequence is empty.
pub open spec fn avg_of(s: Seq<u64>) -> int {
    if s.len() == 0 {
        0
    } else {
        sum_of(s) / (s.len() as int)
    }
}

/// The sum of a sequence of samples is non-negative and at most
/// `len * u64::MAX`.
pub proof fn lemma_sum_of_bounds(s: Seq<u64>)
    ensures
        0 <= sum_of(s) <= s.len() * u64::MAX,
    decreases s.len(),
{
    if s.len() > 0 {
        lemma_sum_of_bounds(s.drop_last());
    }
}

/// One category's latency samples, in milliseconds, in arrival order.
pub struct Bucket {
    samples: Vec<u64>,
}

impl View for Bucket {
    type V = Seq<u64>;

    closed spec fn view(&self) -> Seq<u64> {
        self.samples@
    }
}

impl Bucket {
    /// An empty bucket.
    pub fn new() -> (b: Bucket)
        ensures
            b@ == Seq::<u64>::empty(),
    {
        Bucket { samples: Vec::new() }
    }

    /// Append one sample. Exactly this sample is appended and every sample
    /// already recorded stays in place, so no concurrent-writer scheme built
    /// on top of per-bucket guards can lose or duplicate a sample.
    pub fn add(&mut self, elapsed_ms: u64)
        ensures
            final(self)@ == old(self)@.push(elapsed_ms),
    {
        self.samples.push(elapsed_ms);
    }

    /// The number of samples recorded so far.
    pub fn count(&self) -> (n: usize)
        ensures
            n == self@.len(),
    {
        self.samples.len()
    }

    /// The integer-truncated mean of the samples; 0 for an empty bucket.
    pub fn avg(&self) -> (r: u64)
        ensures
            r == avg_of(self@),
            self@.len() == 0 ==> r == 0,
    {
        let n = self.samples.len();
        if n == 0 {
            return 0;
        }
        let mut acc: u128 = 0;
        let mut i: usize = 0;
        while i < n
            invariant
                i <= n,
                n == self@.len(),
                acc == sum_of(self@.subrange(0, i as int)),
            decreases n - i,
        {
            proof {
                assert(self@.subrange(0, i + 1 as int).drop_last() =~= self@.subrange(
                    0,
                    i as int,
                ));
                lemma_sum_of_bounds(self@.subrange(0, i as int));
                assert((i as int) * (u64::MAX as int) + (u64::MAX as int) <= u128::MAX as int)
                    by (nonlinear_arith)
                    requires
                        0 <= i <= u64::MAX,
                ;
            }
            acc = acc + (self.samples[i] as u128);
            i = i + 1;
        }
        proof {
            assert(self@.subrange(0, n as int) =~= self@);
            lemma_sum_of_bounds(self@);
            lemma_div_multiples_vanish(u64::MAX as int, n as int);
            lemma_div_is_ordered(acc as int, (n as int) * (u64::MAX as int), n as int);
        }
        (acc / (n as u128)) as u64
    }

    /// The smallest sample; 0 for an empty bucket.
    pub fn min(&self) -> (r: u64)
        ensures
            r == min_of(self@),
            self@.len() == 0 ==> r == 0,
    {
        let n = self.samples.len();
        if n == 0 {
            return 0;
        }
        let mut best = self.samples[0];
        let mut i: usize = 1;
        proof {
            assert(self@.subrange(0, 1) =~= seq![self@[0]]);
        }
        while i < n
            invariant
                1 <= i <= n,
                n == self@.len(),
                best == min_of(self@.subrange(0, i as int)),
            decreases n - i,
        {
            proof {
                assert(self@.subrange(0, i + 1 as int).drop_last() =~= self@.subrange(
                    0,
                    i as int,
                ));
            }
            let x = self.samples[i];
            if x < best {
                best = x;
            }
            i = i + 1;
        }
        proof {
            assert(self@.subrange(0, n as int) =~= self@);
        }
        best
    }

    /// The largest sample; 0 for an empty bucket.
    pub fn max(&self) -> (r: u64)
        ensures
            r == max_of(self@),
            self@.len() == 0 ==> r == 0,
    {
        let n = self.samples.len();
        let mut best: u64 = 0;
        let mut i: usize = 0;
        while i < n
            invariant
                i <= n,
                n == self@.len(),
                best == max_of(self@.subrange(0, i as int)),
            decreases n - i,
        {
            proof {
                assert(self@.subrange(0, i + 1 as int).drop_last() =~= self@.subrange(
                    0,
                    i as int,
                ));
            }
            let x = self.samples[i];
            if x > best {
                best = x;
            }
            i = i + 1;
        }
        proof {
            assert(self@.subrange(0, n as int) =~= self@);
        }
        best
    }
}

/// Latency statistics for a whole run, partitioned by outcome category.
///
/// Each of the six buckets is an independent field: a caller that spreads a
/// run over several workers can move the buckets into per-category guards
/// while the run lasts and assemble the store again once every worker has
/// finished, which is why the fields are public.
pub struct Storage {
    pub success: Bucket,
    pub redirection: Bucket,
    pub client_error: Bucket,
    pub server_error: Bucket,
    pub informational: Bucket,
    pub failed: Bucket,
}

impl Storage {
    /// The samples recorded so far under one category.
    pub open spec fn spec_bucket(&self, category: StatusCodeCategory) -> Seq<u64> {
        match category {
            StatusCodeCategory::Success => self.success@,
            StatusCodeCategory::Redirection => self.redirection@,
            StatusCodeCategory::ClientError => self.client_error@,
            StatusCodeCategory::ServerError => self.server_error@,
            StatusCodeCategory::Informational => self.informational@,
            StatusCodeCategory::Failed => self.failed@,
        }
    }

    /// The total number of samples recorded, over all six categories.
    pub open spec fn spec_total_count(&self) -> int {
        self.success@.len() + self.redirection@.len() + self.client_error@.len()
            + self.server_error@.len() + self.informational@.len() + self.failed@.len() as int
    }

    /// How many categories hold at least one sample.
    pub open spec fn spec_nonempty_categories(&self) -> int {
        (if self.success@.len() > 0 { 1int } else { 0 })
            + (if self.redirection@.len() > 0 { 1int } else { 0 })
            + (if self.client_error@.len() > 0 { 1int } else { 0 })
            + (if self.server_error@.len() > 0 { 1int } else { 0 })
            + (if self.informational@.len() > 0 { 1int } else { 0 })
            + (if self.failed@.len() > 0 { 1int } else { 0 })
    }

    /// The sum of the per-category means, taken over the categories that
    /// hold at least one sample.
    pub open spec fn spec_sum_of_avgs(&self) -> int {
        (if self.success@.len() > 0 { avg_of(self.success@) } else { 0 })
            + (if self.redirection@.len() > 0 { avg_of(self.redirection@) } else { 0 })
            + (if self.client_error@.len() > 0 { avg_of(self.client_error@) } else { 0 })
            + (if self.server_error@.len() > 0 { avg_of(self.server_error@) } else { 0 })
            + (if self.informational@.len() > 0 { avg_of(self.informational@) } else { 0 })
            + (if self.failed@.len() > 0 { avg_of(self.failed@) } else { 0 })
    }

    /// The unweighted mean of the per-category means over the categories
    /// with at least one sample, or 0 when every bucket is empty. This is
    /// deliberately not a sample-weighted mean over all latencies: it is a
    /// mean of per-category means.
    pub open spec fn spec_total_avg(&self) -> int {
        if self.spec_nonempty_categories() == 0 {
            0
        } else {
            self.spec_sum_of_avgs() / self.spec_nonempty_categories()
        }
    }

    /// A store with all six buckets empty.
    pub fn new() -> (s: Storage)
        ensures
            forall|c: StatusCodeCategory| #[trigger] s.spec_bucket(c) == Seq::<u64>::empty(),
            s.spec_total_count() == 0,
    {
        Storage {
            success: Bucket::new(),
            redirection: Bucket::new(),
            client_error: Bucket::new(),
            server_error: Bucket::new(),
            informational: Bucket::new(),
            failed: Bucket::new(),
        }
    }

    /// Record one sample under one category. Exactly one sample is appended
    /// to exactly one bucket: the five other buckets are untouched and the
    /// total count grows by exactly one, so no attempt is ever lost or
    /// double-counted.
    pub fn add_response_time(&mut self, category: StatusCodeCategory, elapsed_ms: u64)
        ensures
            final(self).spec_bucket(category) == old(self).spec_bucket(category).push(elapsed_ms),
            forall|c: StatusCodeCategory|
                c != category ==> #[trigger] final(self).spec_bucket(c) == old(self).spec_bucket(
                    c,
                ),
            final(self).spec_total_count() == old(self).spec_total_count() + 1,
    {
        match category {
            StatusCodeCategory::Success => self.success.add(elapsed_ms),
            StatusCodeCategory::Redirection => self.redirection.add(elapsed_ms),
            StatusCodeCategory::ClientError => self.client_error.add(elapsed_ms),
            StatusCodeCategory::ServerError => self.server_error.add(elapsed_ms),
            StatusCodeCategory::Informational => self.informational.add(elapsed_ms),
            StatusCodeCategory::Failed => self.failed.add(elapsed_ms),
        }
    }

    /// The number of samples recorded under one category.
    pub fn get_requests_count(&self, category: StatusCodeCategory) -> (n: usize)
        ensures
            n == self.spec_bucket(category).len(),
    {
        match category {
            StatusCodeCategory::Success => self.success.count(),
            StatusCodeCategory::Redirection => self.redirection.count(),
            StatusCodeCategory::ClientError => self.client_error.count(),
            StatusCodeCategory::ServerError => self.server_error.count(),
            StatusCodeCategory::Informational => self.informational.count(),
            StatusCodeCategory::Failed => self.failed.count(),
        }
    }

    /// The integer-truncated mean latency of one category; 0 when the
    /// category holds no sample.
    pub fn get_avg_response_time(&self, category: StatusCodeCategory) -> (r: u64)
        ensures
            r == avg_of(self.spec_bucket(category)),
            self.spec_bucket(category).len() == 0 ==> r == 0,
    {
        match category {
            StatusCodeCategory::Success => self.success.avg(),
            StatusCodeCategory::Redirection => self.redirection.avg(),
            StatusCodeCategory::ClientError => self.client_error.avg(),
            StatusCodeCategory::ServerError => self.server_error.avg(),
            StatusCodeCategory::Informational => self.informational.avg(),
            StatusCodeCategory::Failed => self.failed.avg(),
        }
    }

    /// The smallest latency recorded under one category; 0 when the
    /// category holds no sample.
    pub fn get_min_reponse_time(&self, category: StatusCodeCategory) -> (r: u64)
        ensures
            r == min_of(self.spec_bucket(category)),
            self.spec_bucket(category).len() == 0 ==> r == 0,
    {
        match category {
            StatusCodeCategory::Success => self.success.min(),
            StatusCodeCategory::Redirection => self.redirection.min(),
            StatusCodeCategory::ClientError => self.client_error.min(),
            StatusCodeCategory::ServerError => self.server_error.min(),
            StatusCodeCategory::Informational => self.informational.min(),
            StatusCodeCategory::Failed => self.failed.min(),
        }
    }

    /// The largest latency recorded under one category; 0 when the category
    /// holds no sample.
    pub fn get_max_reponse_time(&self, category: StatusCodeCategory) -> (r: u64)
        ensures
            r == max_of(self.spec_bucket(category)),
            self.spec_bucket(category).len() == 0 ==> r == 0,
    {
        match category {
            StatusCodeCategory::Success => self.success.max(),
            StatusCodeCategory::Redirection => self.redirection.max(),
            StatusCodeCategory::ClientError => self.client_error.max(),
            StatusCodeCategory::ServerError => self.server_error.max(),
            StatusCodeCategory::Informational => self.informational.max(),
            StatusCodeCategory::Failed => self.failed.max(),
        }
    }

    /// The total number of attempts recorded: always the sum of the six
    /// per-category counts. The sum must fit in `usize`, which holds of any
    /// store whose samples were recorded one attempt at a time.
    pub fn get_total_requests_count(&self) -> (n: usize)
        requires
            self.spec_total_count() <= usize::MAX,
        ensures
            n == self.spec_total_count(),
            n == self.spec_bucket(StatusCodeCategory::Success).len() + self.spec_bucket(
                StatusCodeCategory::Redirection,
            ).len() + self.spec_bucket(StatusCodeCategory::ClientError).len() + self.spec_bucket(
                StatusCodeCategory::ServerError,
            ).len() + self.spec_bucket(StatusCodeCategory::Informational).len() + self.spec_bucket(
                StatusCodeCategory::Failed,
            ).len(),
    {
        self.success.count() + self.redirection.count() + self.client_error.count()
            + self.server_error.count() + self.informational.count() + self.failed.count()
    }

    /// The unweighted mean of the per-category mean latencies, taken over
    /// every category that holds at least one sample; 0 when every bucket
    /// is empty, so the division never sees a zero denominator. Categories
    /// without samples count towards neither the numerator nor the
    /// denominator.
    #[verifier::rlimit(50)]
    pub fn get_total_avg_response_time(&self) -> (r: u64)
        ensures
            r == self.spec_total_avg(),
            self.spec_total_count() == 0 ==> r == 0,
    {
        let mut acc: u128 = 0;
        let mut nonempty: u128 = 0;
        if self.success.count() != 0 {
            acc = acc + (self.success.avg() as u128);
            nonempty = nonempty + 1;
        }
        if self.redirection.count() != 0 {
            acc = acc + (self.redirection.avg() as u128);
            nonempty = nonempty + 1;
        }
        if self.client_error.count() != 0 {
            acc = acc + (self.client_error.avg() as u128);
            nonempty = nonempty + 1;
        }
        if self.server_error.count() != 0 {
            acc = acc + (self.server_error.avg() as u128);
            nonempty = nonempty + 1;
        }
        if self.informational.count() != 0 {
            acc = acc + (self.informational.avg() as u128);
            nonempty = nonempty + 1;
        }
        if self.failed.count() != 0 {
            acc = acc + (self.failed.avg() as u128);
            nonempty = nonempty + 1;
        }
        if nonempty == 0 {
            return 0;
        }
        proof {
            lemma_avg_fits_u64(self.success@);
            lemma_avg_fits_u64(self.redirection@);
            lemma_avg_fits_u64(self.client_error@);
            lemma_avg_fits_u64(self.server_error@);
            lemma_avg_fits_u64(self.informational@);
            lemma_avg_fits_u64(self.failed@);
            lemma_div_multiples_vanish(u64::MAX as int, nonempty as int);
            lemma_div_is_ordered(acc as int, (nonempty as int) * (u64::MAX as int), nonempty as int);
        }
        (acc / nonempty) as u64
    }
}

/// The total count of a store is always exactly the sum of its six
/// per-category counts, whatever was recorded: no sample is counted twice
/// and none is left out.
pub proof fn lemma_total_count_is_sum_of_counts(s: Storage)
    ensures
        s.spec_total_count() == s.spec_bucket(StatusCodeCategory::Success).len() + s.spec_bucket(
            StatusCodeCategory::Redirection,
        ).len() + s.spec_bucket(StatusCodeCategory::ClientError).len() + s.spec_bucket(
            StatusCodeCategory::ServerError,
        ).len() + s.spec_bucket(StatusCodeCategory::Informational).len() + s.spec_bucket(
            StatusCodeCategory::Failed,
        ).len(),
{
}

/// The truncated mean of a bucket never exceeds `u64::MAX`.
pub proof fn lemma_avg_fits_u64(s: Seq<u64>)
    ensures
        0 <= avg_of(s) <= u64::MAX,
{
    if s.len() > 0 {
        lemma_sum_of_bounds(s);
        lemma_div_multiples_vanish(u64::MAX as int, s.len() as int);
        lemma_div_is_ordered(sum_of(s), (s.len() as int) * (u64::MAX as int), s.len() as int);
    }
}

} // verus!
