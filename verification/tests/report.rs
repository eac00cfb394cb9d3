use cicadas::{Logger, StatusCodeCategory, Storage};

#[test]
fn result_rows_of_empty_storage_are_empty() {
    let storage = Storage::new();
    assert!(Logger::result_rows(&storage).is_empty());
}

#[test]
fn result_rows_list_nonempty_categories_in_display_order() {
    let mut storage = Storage::new();
    storage.add_response_time(StatusCodeCategory::Informational, 4);
    storage.add_response_time(StatusCodeCategory::Failed, 90);
    storage.add_response_time(StatusCodeCategory::Failed, 110);
    storage.add_response_time(StatusCodeCategory::Success, 10);
    storage.add_response_time(StatusCodeCategory::Success, 21);

    let rows = Logger::result_rows(&storage);
    assert_eq!(rows.len(), 3);

    assert_eq!(rows[0].label, "2xx");
    assert_eq!(rows[0].count, 2);
    assert_eq!(rows[0].avg_ms, 15); // (10 + 21) / 2, truncated
    assert_eq!(rows[0].min_ms, 10);
    assert_eq!(rows[0].max_ms, 21);

    assert_eq!(rows[1].label, "1xx");
    assert_eq!(rows[1].count, 1);
    assert_eq!(rows[1].avg_ms, 4);

    assert_eq!(rows[2].label, "Failed");
    assert_eq!(rows[2].count, 2);
    assert_eq!(rows[2].avg_ms, 100);
    assert_eq!(rows[2].min_ms, 90);
    assert_eq!(rows[2].max_ms, 110);
}

#[test]
fn result_rows_skip_empty_categories_only() {
    let mut storage = Storage::new();
    storage.add_response_time(StatusCodeCategory::ClientError, 30);
    let rows = Logger::result_rows(&storage);
    assert_eq!(rows.len(), 1);
    assert_eq!(rows[0].label, "4xx");
    assert_eq!(rows[0].count, 1);
}
