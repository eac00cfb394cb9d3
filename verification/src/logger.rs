//! The numeric content of the final report.
//!
//! Rendering is left to the embedder; what is computed here, and proved, is
//! which categories appear in the detailed results, in which order, and
//! with which numbers.

use vstd::prelude::*;

use crate::http::StatusCodeCategory;
use crate::storage::{avg_of, max_of, min_of, Storage};

verus! {

/// One line of the detailed results: a category's display label and its
/// count, mean, smallest and largest latency (milliseconds).
#[derive(Clone, Copy, Debug)]
pub struct ResultRow {
    pub label: &'static str,
    pub count: usize,
    pub avg_ms: u64,
    pub min_ms: u64,
    pub max_ms: u64,
}

/// The abstract content of one row.
pub open spec fn spec_row_view(r: ResultRow) -> (Seq<char>, int, int, int, int) {
    (r.label@, r.count as int, r.avg_ms as int, r.min_ms as int, r.max_ms as int)
}

/// The rows one category contributes to the detailed results: its label
/// and statistics when it holds at least one sample, nothing otherwise.
pub open spec fn spec_category_rows(s: Storage, c: StatusCodeCategory, label: Seq<char>) -> Seq<
    (Seq<char>, int, int, int, int),
> {
    if s.spec_bucket(c).len() > 0 {
        seq![
            (
                label,
                s.spec_bucket(c).len() as int,
                avg_of(s.spec_bucket(c)),
                min_of(s.spec_bucket(c)) as int,
                max_of(s.spec_bucket(c)) as int,
            ),
        ]
    } else {
        Seq::empty()
    }
}

/// The whole detailed-results table: one row per category that holds at
/// least one sample, in the fixed display order 2xx, 3xx, 4xx, 5xx, 1xx,
/// Failed.
pub open spec fn spec_result_rows(s: Storage) -> Seq<(Seq<char>, int, int, int, int)> {
    spec_category_rows(s, StatusCodeCategory::Success, "2xx"@) + spec_category_rows(
        s,
        StatusCodeCategory::Redirection,
        "3xx"@,
    ) + spec_category_rows(s, StatusCodeCategory::ClientError, "4xx"@) + spec_category_rows(
        s,
        StatusCodeCategory::ServerError,
        "5xx"@,
    ) + spec_category_rows(s, StatusCodeCategory::Informational, "1xx"@) + spec_category_rows(
        s,
        StatusCodeCategory::Failed,
        "Failed"@,
    )
}

/// Computes what the final report shows.
pub struct Logger;

impl Logger {
    /// One row of statistics for one labelled category, when it holds any
    /// sample.
    fn category_row(storage: &Storage, category: StatusCodeCategory, label: &'static str) -> (r:
        Option<ResultRow>)
        ensures
            match r {
                Some(row) => seq![spec_row_view(row)] == spec_category_rows(
                    *storage,
                    category,
                    label@,
                ),
                None => Seq::<(Seq<char>, int, int, int, int)>::empty() == spec_category_rows(
                    *storage,
                    category,
                    label@,
                ),
            },
    {
        let count = storage.get_requests_count(category);
        if count != 0 {
            Some(
                ResultRow {
                    label,
                    count,
                    avg_ms: storage.get_avg_response_time(category),
                    min_ms: storage.get_min_reponse_time(category),
                    max_ms: storage.get_max_reponse_time(category),
                },
            )
        } else {
            None
        }
    }

    /// The detailed results of a run: for every category that recorded at
    /// least one attempt, and only those, one row with its count, mean,
    /// smallest and largest latency, in the fixed display order 2xx, 3xx,
    /// 4xx, 5xx, 1xx, Failed.
    pub fn result_rows(storage: &Storage) -> (rows: Vec<ResultRow>)
        ensures
            rows@.map_values(|r: ResultRow| spec_row_view(r)) == spec_result_rows(*storage),
    {
        let labelled: [(&'static str, StatusCodeCategory); 6] = [
            ("2xx", StatusCodeCategory::Success),
            ("3xx", StatusCodeCategory::Redirection),
            ("4xx", StatusCodeCategory::ClientError),
            ("5xx", StatusCodeCategory::ServerError),
            ("1xx", StatusCodeCategory::Informational),
            ("Failed", StatusCodeCategory::Failed),
        ];
        let mut rows: Vec<ResultRow> = Vec::new();
        let mut k: usize = 0;
        while k < 6
            invariant
                k <= 6,
                labelled@ =~= seq![
                    ("2xx", StatusCodeCategory::Success),
                    ("3xx", StatusCodeCategory::Redirection),
                    ("4xx", StatusCodeCategory::ClientError),
                    ("5xx", StatusCodeCategory::ServerError),
                    ("1xx", StatusCodeCategory::Informational),
                    ("Failed", StatusCodeCategory::Failed),
                ],
                rows@.map_values(|r: ResultRow| spec_row_view(r)) == Self::spec_rows_upto(
                    *storage,
                    labelled@,
                    k as int,
                ),
            decreases 6 - k,
        {
            let (label, category) = labelled[k];
            let ghost prev = rows@;
            match Self::category_row(storage, category, label) {
                Some(row) => {
                    rows.push(row);
                    proof {
                        assert(rows@.map_values(|r: ResultRow| spec_row_view(r)) =~= prev.map_values(
                            |r: ResultRow| spec_row_view(r),
                        ) + spec_category_rows(*storage, category, label@));
                    }
                },
                None => {
                    proof {
                        assert(rows@.map_values(|r: ResultRow| spec_row_view(r)) =~= prev.map_values(
                            |r: ResultRow| spec_row_view(r),
                        ) + spec_category_rows(*storage, category, label@));
                    }
                },
            }
            k = k + 1;
        }
        proof {
            reveal_with_fuel(Logger::spec_rows_upto, 7);
            assert(Self::spec_rows_upto(*storage, labelled@, 6) =~= spec_result_rows(*storage));
        }
        rows
    }

    /// The rows the first `k` labelled categories contribute, in order.
    pub open spec fn spec_rows_upto(
        s: Storage,
        labelled: Seq<(&'static str, StatusCodeCategory)>,
        k: int,
    ) -> Seq<(Seq<char>, int, int, int, int)>
        decreases k,
    {
        if k <= 0 {
            Seq::empty()
        } else {
            Self::spec_rows_upto(s, labelled, k - 1) + spec_category_rows(
                s,
                labelled[k - 1].1,
                labelled[k - 1].0@,
            )
        }
    }
}

} // verus!
