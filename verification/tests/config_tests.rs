use scalpel::config::{parse_i64, parse_u64, ConfigEnv};
use scalpel::types::Config;

fn env(model_path: Option<&str>) -> ConfigEnv {
    ConfigEnv {
        model_path: model_path.map(str::to_string),
        llama_binary: None,
        server_port: None,
        llama_port: None,
        max_context: None,
        max_predict: None,
        threads: None,
        gpu_layers: None,
    }
}

#[test]
fn parse_u64_accepts_plain_decimals() {
    assert_eq!(parse_u64("0"), Some(0));
    assert_eq!(parse_u64("2048"), Some(2048));
    assert_eq!(parse_u64("007"), Some(7));
    assert_eq!(parse_u64("18446744073709551615"), Some(u64::MAX));
}

#[test]
fn parse_u64_accepts_a_leading_plus() {
    assert_eq!(parse_u64("+7"), Some(7));
    assert_eq!(parse_u64("+3000"), Some(3000));
}

#[test]
fn parse_u64_rejects_everything_else() {
    assert_eq!(parse_u64(""), None);
    assert_eq!(parse_u64("12a"), None);
    assert_eq!(parse_u64("-3"), None);
    assert_eq!(parse_u64(" 3"), None);
    assert_eq!(parse_u64("+"), None);
    assert_eq!(parse_u64("++7"), None);
    // One past the largest value that fits.
    assert_eq!(parse_u64("18446744073709551616"), None);
}

#[test]
fn parse_i64_handles_signs() {
    assert_eq!(parse_i64("42"), Some(42));
    assert_eq!(parse_i64("+42"), Some(42));
    assert_eq!(parse_i64("-1"), Some(-1));
    assert_eq!(parse_i64("-0"), Some(0));
    assert_eq!(parse_i64("-"), None);
    assert_eq!(parse_i64("+"), None);
    assert_eq!(parse_i64("--1"), None);
    assert_eq!(parse_i64("-+1"), None);
    assert_eq!(parse_i64("9223372036854775807"), Some(i64::MAX));
    assert_eq!(parse_i64("9223372036854775808"), None);
}

#[test]
fn config_defaults_apply_when_only_the_model_is_set() {
    let config: Config = Config::from_env(env(Some("/models/qwen.gguf"))).unwrap();
    assert_eq!(config.model_path, "/models/qwen.gguf");
    assert_eq!(config.llama_binary, "llama-server");
    assert_eq!(config.server_port, 3000);
    assert_eq!(config.llama_port, 8081);
    assert_eq!(config.max_context, 2048);
    assert_eq!(config.max_predict, 32);
    assert_eq!(config.threads, 4);
    assert_eq!(config.gpu_layers, -1);
}

#[test]
fn config_requires_the_model_path() {
    let err = Config::from_env(env(None)).unwrap_err();
    assert_eq!(err, "SCALPEL_MODEL_PATH not set");
}

#[test]
fn config_accepts_explicit_settings() {
    let mut raw = env(Some("m.gguf"));
    raw.llama_binary = Some("llama-build".to_string());
    raw.server_port = Some("8000".to_string());
    raw.llama_port = Some("9000".to_string());
    raw.max_context = Some("4096".to_string());
    raw.max_predict = Some("64".to_string());
    raw.threads = Some("8".to_string());
    raw.gpu_layers = Some("-1".to_string());
    let config = Config::from_env(raw).unwrap();
    assert_eq!(config.llama_binary, "llama-build");
    assert_eq!(config.server_port, 8000);
    assert_eq!(config.llama_port, 9000);
    assert_eq!(config.max_context, 4096);
    assert_eq!(config.max_predict, 64);
    assert_eq!(config.threads, 8);
    assert_eq!(config.gpu_layers, -1);
}

#[test]
fn config_reports_the_first_invalid_setting() {
    let mut raw = env(Some("m.gguf"));
    raw.server_port = Some("not-a-port".to_string());
    assert_eq!(Config::from_env(raw).unwrap_err(), "Invalid SCALPEL_PORT");

    let mut raw = env(Some("m.gguf"));
    raw.server_port = Some("70000".to_string());
    assert_eq!(Config::from_env(raw).unwrap_err(), "Invalid SCALPEL_PORT");

    let mut raw = env(Some("m.gguf"));
    raw.llama_port = Some("-1".to_string());
    assert_eq!(Config::from_env(raw).unwrap_err(), "Invalid SCALPEL_LLAMA_PORT");

    let mut raw = env(Some("m.gguf"));
    raw.max_context = Some("huge".to_string());
    assert_eq!(Config::from_env(raw).unwrap_err(), "Invalid SCALPEL_MAX_CONTEXT");

    let mut raw = env(Some("m.gguf"));
    raw.max_predict = Some("128".to_string());
    assert_eq!(Config::from_env(raw).unwrap_err(), "Invalid SCALPEL_MAX_PREDICT");

    let mut raw = env(Some("m.gguf"));
    raw.threads = Some("256".to_string());
    assert_eq!(Config::from_env(raw).unwrap_err(), "Invalid SCALPEL_THREADS");

    let mut raw = env(Some("m.gguf"));
    raw.gpu_layers = Some("2147483648".to_string());
    assert_eq!(Config::from_env(raw).unwrap_err(), "Invalid SCALPEL_GPU_LAYERS");

    // The first offender in declaration order wins.
    let mut raw = env(Some("m.gguf"));
    raw.server_port = Some("bad".to_string());
    raw.threads = Some("bad".to_string());
    assert_eq!(Config::from_env(raw).unwrap_err(), "Invalid SCALPEL_PORT");
}

#[test]
fn config_accepts_plus_signed_settings() {
    let mut raw = env(Some("m.gguf"));
    raw.server_port = Some("+3000".to_string());
    raw.max_predict = Some("+16".to_string());
    let config = Config::from_env(raw).unwrap();
    assert_eq!(config.server_port, 3000);
    assert_eq!(config.max_predict, 16);
}

#[test]
fn config_accepts_boundary_values() {
    let mut raw = env(Some("m.gguf"));
    raw.server_port = Some("65535".to_string());
    raw.max_predict = Some("-128".to_string());
    raw.threads = Some("255".to_string());
    raw.gpu_layers = Some("-2147483648".to_string());
    let config = Config::from_env(raw).unwrap();
    assert_eq!(config.server_port, 65535);
    assert_eq!(config.max_predict, -128);
    assert_eq!(config.threads, 255);
    assert_eq!(config.gpu_layers, i32::MIN);
}
