use cicadas::{
    Arguments, ErrorType, HttpClientBlocking, HttpMethod, StatusCodeCategory, Storage, Worker,
    WorkerState,
};

#[test]
fn worker_lifecycle_idle_running_stopped() {
    let mut worker = Worker::new(1000);
    assert_eq!(worker.state, WorkerState::Idle);
    worker.start();
    assert_eq!(worker.state, WorkerState::Running);
    assert!(worker.step(0));
    assert!(worker.step(999));
    assert_eq!(worker.state, WorkerState::Running);
    assert!(!worker.step(1000));
    assert_eq!(worker.state, WorkerState::Stopped);
}

#[test]
fn worker_never_issues_once_the_budget_is_reached() {
    // A worker with a one-second budget must not issue a new request once
    // one second has elapsed, however late the check happens.
    for elapsed in [1000u64, 1001, 2999, 5000, u64::MAX] {
        let mut worker = Worker::new(1000);
        worker.start();
        assert!(!worker.step(elapsed));
        assert_eq!(worker.state, WorkerState::Stopped);
    }
}

#[test]
fn record_attempt_files_one_sample_under_the_outcome() {
    let mut worker = Worker::new(1000);
    worker.start();
    let mut storage = Storage::new();
    worker.record_attempt(&mut storage, Some(200), 12);
    worker.record_attempt(&mut storage, Some(503), 40);
    worker.record_attempt(&mut storage, None, 34);
    assert_eq!(storage.get_requests_count(StatusCodeCategory::Success), 1);
    assert_eq!(storage.get_requests_count(StatusCodeCategory::ServerError), 1);
    assert_eq!(storage.get_requests_count(StatusCodeCategory::Failed), 1);
    assert_eq!(storage.get_total_requests_count(), 3);
    assert_eq!(storage.get_min_reponse_time(StatusCodeCategory::Failed), 34);
    assert_eq!(storage.get_max_reponse_time(StatusCodeCategory::Failed), 34);
}

#[test]
fn simulated_run_records_every_attempt_under_success() {
    // The worker loop against a target that always answers 200 within the
    // budget: every attempt lands under Success and the latency extremes
    // stay inside the band of observed latencies.
    let mut worker = Worker::new(1000);
    worker.start();
    let mut storage = Storage::new();
    let mut clock: u64 = 0;
    let latencies = [12u64, 9, 35, 110, 41, 8, 77];
    let mut i = 0;
    while worker.step(clock) {
        let latency = latencies[i % latencies.len()];
        worker.record_attempt(&mut storage, Some(200), latency);
        clock += 100; // each attempt advances the clock by ~100 ms
        i += 1;
    }
    assert_eq!(worker.state, WorkerState::Stopped);
    assert!(storage.get_total_requests_count() > 0);
    assert_eq!(storage.get_requests_count(StatusCodeCategory::Success), 10);
    assert_eq!(storage.get_total_requests_count(), 10);
    for category in [
        StatusCodeCategory::Redirection,
        StatusCodeCategory::ClientError,
        StatusCodeCategory::ServerError,
        StatusCodeCategory::Informational,
        StatusCodeCategory::Failed,
    ] {
        assert_eq!(storage.get_requests_count(category), 0);
    }
    assert!(storage.get_min_reponse_time(StatusCodeCategory::Success) >= 5);
    assert!(storage.get_max_reponse_time(StatusCodeCategory::Success) <= 200);
}

#[test]
fn unreachable_target_still_completes_with_all_attempts_failed() {
    // Port 9 on loopback has no listener, so every attempt fails at the
    // transport level, is recovered locally, and lands under Failed.
    let arguments = Arguments {
        target: "http://127.0.0.1:9/".to_owned(),
        method: HttpMethod::Get,
        proxy: None,
        duration: 1,
        connections: 1,
        payload: None,
        headers: None,
        timeout: 1,
    };
    let executor = HttpClientBlocking::from_arguments(&arguments).unwrap();
    let mut worker = Worker::new(1000);
    worker.start();
    let mut storage = Storage::new();
    for _ in 0..3 {
        let status = executor.call();
        assert_eq!(status, Err(ErrorType::HttpRequestFailed));
        worker.record_attempt(&mut storage, status.ok(), 1);
    }
    assert_eq!(storage.get_requests_count(StatusCodeCategory::Failed), 3);
    assert_eq!(storage.get_total_requests_count(), 3);
}

#[test]
fn full_run_against_unreachable_target_records_only_failures() {
    // A whole single-connection run: the worker loops for its one-second
    // budget against a target that refuses every connection, stops on its
    // own, and every attempt it made is recorded under Failed.
    let arguments = Arguments {
        target: "http://127.0.0.1:9/".to_owned(),
        method: HttpMethod::Get,
        proxy: None,
        duration: 1,
        connections: 1,
        payload: None,
        headers: None,
        timeout: 1,
    };
    let executor = HttpClientBlocking::from_arguments(&arguments).unwrap();
    let mut worker = Worker::new(arguments.duration * 1000);
    worker.start();
    let mut storage = Storage::new();
    let run_start = std::time::Instant::now();
    loop {
        let elapsed_ms = run_start.elapsed().as_millis() as u64;
        if !worker.step(elapsed_ms) {
            break;
        }
        let attempt_start = std::time::Instant::now();
        let status = executor.call();
        let attempt_ms = attempt_start.elapsed().as_millis() as u64;
        worker.record_attempt(&mut storage, status.ok(), attempt_ms);
    }
    assert_eq!(worker.state, WorkerState::Stopped);
    let failed = storage.get_requests_count(StatusCodeCategory::Failed);
    assert!(failed > 0);
    assert_eq!(storage.get_total_requests_count(), failed);
}

#[test]
fn malformed_proxy_stops_the_run_with_no_samples() {
    // The fatal-versus-recoverable split: a bad proxy URL fails the build
    // before any worker starts, so nothing is ever recorded.
    let arguments = Arguments {
        target: "http://127.0.0.1:80/".to_owned(),
        method: HttpMethod::Get,
        proxy: Some("http://exa mple.com".to_owned()),
        duration: 1,
        connections: 4,
        payload: None,
        headers: None,
        timeout: 1,
    };
    let storage = Storage::new();
    match HttpClientBlocking::from_arguments(&arguments) {
        Err(ErrorType::InvalidProxy) => {}
        other => panic!("expected InvalidProxy, got {:?}", other.map(|_| ())),
    }
    assert_eq!(storage.get_total_requests_count(), 0);
}
