use scalpel::supervisor::{
    i64_to_dec, is_ready_status, llama_args, u64_to_dec, HealthWait, HEALTH_POLL_ATTEMPTS,
    HEALTH_POLL_INTERVAL_MS,
};
use scalpel::types::Config;

#[test]
fn decimal_rendering_of_unsigned_numbers() {
    assert_eq!(u64_to_dec(0), "0");
    assert_eq!(u64_to_dec(7), "7");
    assert_eq!(u64_to_dec(10), "10");
    assert_eq!(u64_to_dec(1234), "1234");
    assert_eq!(u64_to_dec(u64::MAX), "18446744073709551615");
}

#[test]
fn decimal_rendering_of_signed_numbers() {
    assert_eq!(i64_to_dec(42), "42");
    assert_eq!(i64_to_dec(-1), "-1");
    assert_eq!(i64_to_dec(i32::MIN as i64), "-2147483648");
}

#[test]
fn backend_argument_list_matches_configuration() {
    let config = Config {
        model_path: "/models/qwen2.5-coder.gguf".to_string(),
        llama_binary: "llama-server".to_string(),
        server_port: 3000,
        llama_port: 8081,
        max_context: 2048,
        max_predict: 32,
        threads: 4,
        gpu_layers: -1,
    };
    let args = llama_args(&config);
    assert_eq!(
        args,
        vec![
            "-m",
            "/models/qwen2.5-coder.gguf",
            "--port",
            "8081",
            "--n-gpu-layers",
            "-1",
            "--threads",
            "4",
            "--ctx-size",
            "2048",
        ]
    );
}

#[test]
fn readiness_counts_only_successful_statuses() {
    assert!(is_ready_status(200));
    assert!(is_ready_status(204));
    assert!(is_ready_status(299));
    assert!(!is_ready_status(199));
    assert!(!is_ready_status(300));
    assert!(!is_ready_status(500));
    assert!(!is_ready_status(502));
}

#[test]
fn health_wait_starts_with_full_budget() {
    assert_eq!(HEALTH_POLL_ATTEMPTS, 30);
    assert_eq!(HEALTH_POLL_INTERVAL_MS, 500);
    let wait = HealthWait::new();
    assert_eq!(wait.attempts_left, 30);
}

#[test]
fn health_wait_fails_after_thirty_failed_polls() {
    // A backend that never answers: the first 29 failures still allow a
    // retry, the 30th exhausts the budget and startup must fail.
    let mut wait = HealthWait::new();
    for _ in 0..29 {
        assert!(wait.poll_failed());
    }
    assert!(!wait.poll_failed());
    assert_eq!(wait.attempts_left, 0);
    // Exhausted budgets stay exhausted.
    assert!(!wait.poll_failed());
}
