use cicadas::storage::Bucket;
use cicadas::{StatusCodeCategory, Storage};

const ALL_CATEGORIES: [StatusCodeCategory; 6] = [
    StatusCodeCategory::Success,
    StatusCodeCategory::Redirection,
    StatusCodeCategory::ClientError,
    StatusCodeCategory::ServerError,
    StatusCodeCategory::Informational,
    StatusCodeCategory::Failed,
];

#[test]
fn empty_bucket_stats_are_zero() {
    let storage = Storage::new();
    for category in ALL_CATEGORIES {
        assert_eq!(storage.get_requests_count(category), 0);
        assert_eq!(storage.get_avg_response_time(category), 0);
        assert_eq!(storage.get_min_reponse_time(category), 0);
        assert_eq!(storage.get_max_reponse_time(category), 0);
    }
    assert_eq!(storage.get_total_requests_count(), 0);
}

#[test]
fn fresh_bucket_is_empty() {
    let bucket = Bucket::new();
    assert_eq!(bucket.count(), 0);
    assert_eq!(bucket.avg(), 0);
    assert_eq!(bucket.min(), 0);
    assert_eq!(bucket.max(), 0);
}

#[test]
fn bucket_tracks_count_avg_min_max() {
    let mut bucket = Bucket::new();
    bucket.add(50);
    bucket.add(5);
    bucket.add(300);
    assert_eq!(bucket.count(), 3);
    assert_eq!(bucket.avg(), 118); // (50 + 5 + 300) / 3, truncated
    assert_eq!(bucket.min(), 5);
    assert_eq!(bucket.max(), 300);
}

#[test]
fn total_count_is_sum_of_category_counts() {
    let mut storage = Storage::new();
    storage.add_response_time(StatusCodeCategory::Success, 10);
    storage.add_response_time(StatusCodeCategory::Success, 20);
    storage.add_response_time(StatusCodeCategory::Redirection, 30);
    storage.add_response_time(StatusCodeCategory::ClientError, 40);
    storage.add_response_time(StatusCodeCategory::Failed, 50);
    storage.add_response_time(StatusCodeCategory::Failed, 60);
    let mut sum: usize = 0;
    for category in ALL_CATEGORIES {
        sum += storage.get_requests_count(category);
    }
    assert_eq!(storage.get_total_requests_count(), 6);
    assert_eq!(storage.get_total_requests_count(), sum);
}

#[test]
fn adding_a_sample_touches_exactly_one_bucket() {
    let mut storage = Storage::new();
    storage.add_response_time(StatusCodeCategory::ServerError, 123);
    for category in ALL_CATEGORIES {
        let expected = if category == StatusCodeCategory::ServerError {
            1
        } else {
            0
        };
        assert_eq!(storage.get_requests_count(category), expected);
    }
    assert_eq!(storage.get_total_requests_count(), 1);
}

#[test]
fn total_avg_is_unweighted_mean_of_nonempty_category_avgs() {
    let mut storage = Storage::new();
    // Success: avg 15 over two samples.
    storage.add_response_time(StatusCodeCategory::Success, 10);
    storage.add_response_time(StatusCodeCategory::Success, 20);
    // Failed: avg 7 over one sample.
    storage.add_response_time(StatusCodeCategory::Failed, 7);
    assert_eq!(storage.get_total_avg_response_time(), 11); // (15 + 7) / 2
}

#[test]
fn total_avg_counts_a_zero_latency_category() {
    let mut storage = Storage::new();
    storage.add_response_time(StatusCodeCategory::Success, 10);
    storage.add_response_time(StatusCodeCategory::Success, 20);
    storage.add_response_time(StatusCodeCategory::Failed, 7);
    // A category whose only sample is 0 ms has a mean of 0 but still counts
    // towards the denominator: it holds samples.
    storage.add_response_time(StatusCodeCategory::ClientError, 0);
    assert_eq!(storage.get_total_avg_response_time(), 7); // (15 + 7 + 0) / 3
}

#[test]
fn total_avg_of_empty_storage_is_zero() {
    let storage = Storage::new();
    assert_eq!(storage.get_total_avg_response_time(), 0);
}

#[test]
fn repeated_pushes_into_one_category_never_lose_a_sample() {
    // The sequential shape of the race property: many batches of pushes
    // into the same category yield exactly batches * per_batch samples.
    let workers = 8;
    let per_worker = 250;
    let mut storage = Storage::new();
    for _ in 0..workers {
        for _ in 0..per_worker {
            storage.add_response_time(StatusCodeCategory::Success, 1);
        }
    }
    assert_eq!(
        storage.get_requests_count(StatusCodeCategory::Success),
        workers * per_worker
    );
    assert_eq!(storage.get_total_requests_count(), workers * per_worker);
}

#[test]
fn storage_assembles_from_independent_buckets() {
    // The per-category buckets are independent values that can be filled
    // apart (each behind its own guard in a concurrent run) and assembled
    // into a store for reporting.
    let mut success = Bucket::new();
    success.add(10);
    success.add(30);
    let mut failed = Bucket::new();
    failed.add(100);
    let storage = Storage {
        success,
        redirection: Bucket::new(),
        client_error: Bucket::new(),
        server_error: Bucket::new(),
        informational: Bucket::new(),
        failed,
    };
    assert_eq!(storage.get_requests_count(StatusCodeCategory::Success), 2);
    assert_eq!(storage.get_avg_response_time(StatusCodeCategory::Success), 20);
    assert_eq!(storage.get_total_requests_count(), 3);
    assert_eq!(storage.get_total_avg_response_time(), 60); // (20 + 100) / 2
}

#[test]
fn avg_truncates_towards_zero() {
    let mut bucket = Bucket::new();
    bucket.add(1);
    bucket.add(2);
    assert_eq!(bucket.avg(), 1); // 3 / 2 truncated
}
