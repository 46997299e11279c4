use scalpel::orchestrator::{BackendCall, BackendReply, RequestOrchestrator, StepOutcome};
use scalpel::types::{
    CompletionRequest, DetokenizeResponse, LlamaResponse, ModelType, TokenizeResponse,
};

fn request(prefix: &str, suffix: &str) -> CompletionRequest {
    CompletionRequest { prefix: prefix.to_string(), suffix: suffix.to_string() }
}

fn tokens(ids: Vec<u32>) -> BackendReply {
    BackendReply::Tokens { response: TokenizeResponse { tokens: ids } }
}

fn text(content: &str) -> BackendReply {
    BackendReply::Text { response: DetokenizeResponse { content: content.to_string() } }
}

#[test]
fn small_request_skips_truncation_entirely() {
    // prefix="def add(a, b):\n    return ", suffix="\n", 2048-token context,
    // 32 reserved: well under budget, so the prompt is built directly from
    // the given text and no detokenize call is ever issued.
    let (orch, first) = RequestOrchestrator::start(
        request("def add(a, b):\n    return ", "\n"),
        ModelType::Qwen,
        2048,
        32,
    );
    let BackendCall::Tokenize { request } = first else {
        panic!("expected a tokenize call");
    };
    assert_eq!(request.content, "def add(a, b):\n    return ");

    let (orch, out) = orch.step(tokens((0..9).collect()), 0);
    let StepOutcome::Call { call: BackendCall::Tokenize { request } } = out else {
        panic!("expected the suffix tokenize call");
    };
    assert_eq!(request.content, "\n");

    let (orch, out) = orch.step(tokens(vec![11]), 0);
    let StepOutcome::Call { call: BackendCall::Completion { request } } = out else {
        panic!("expected the completion call");
    };
    assert_eq!(
        request.prompt,
        "<|fim_prefix|>def add(a, b):\n    return <|fim_suffix|>\n<|fim_middle|>"
    );
    assert_eq!(request.n_predict, 32);
    assert_eq!(request.seed, 42);
    assert_eq!(request.stop.len(), 28);

    // The backend echoes a mangled prompt; the response must still carry
    // the exact prompt that was sent.
    let reply = BackendReply::Completed {
        response: LlamaResponse {
            content: "a + b".to_string(),
            prompt: "something the backend rewrote".to_string(),
        },
    };
    let (_, out) = orch.step(reply, 12);
    let StepOutcome::Respond { response } = out else {
        panic!("expected a response");
    };
    assert_eq!(response.completion, "a + b");
    assert_eq!(
        response.prompt,
        "<|fim_prefix|>def add(a, b):\n    return <|fim_suffix|>\n<|fim_middle|>"
    );
    assert_eq!(response.latency_ms, 12);
}

#[test]
fn negative_prediction_cap_reserves_nothing_but_is_forwarded() {
    // A negative configured cap (llama.cpp's "unlimited") leaves the whole
    // context available and still reaches the completion call unchanged.
    let (orch, _) = RequestOrchestrator::start(request("aa", "bb"), ModelType::Qwen, 4, -1);
    let (orch, _) = orch.step(tokens(vec![1, 2]), 0);
    let (_, out) = orch.step(tokens(vec![3, 4]), 0);
    let StepOutcome::Call { call: BackendCall::Completion { request } } = out else {
        panic!("expected the completion call: four tokens fit a budget of four");
    };
    assert_eq!(request.n_predict, -1);
    assert_eq!(request.prompt, "<|fim_prefix|>aa<|fim_suffix|>bb<|fim_middle|>");
}

#[test]
fn oversized_request_is_truncated_through_detokenize() {
    // 12-token context with 4 reserved leaves 8 available; 10 prefix plus 4
    // suffix tokens exceed it. The prefix keeps its last 6 tokens (3/4 of
    // 8), the suffix its first 2, and both go back through detokenize.
    let (orch, _) = RequestOrchestrator::start(request("long prefix", "long suffix"),
        ModelType::Qwen, 12, 4);

    let (orch, out) = orch.step(tokens((0..10).collect()), 0);
    let StepOutcome::Call { call: BackendCall::Tokenize { .. } } = out else {
        panic!("expected the suffix tokenize call");
    };

    let (orch, out) = orch.step(tokens(vec![100, 101, 102, 103]), 0);
    let StepOutcome::Call { call: BackendCall::Detokenize { request } } = out else {
        panic!("expected the kept-prefix detokenize call");
    };
    assert_eq!(request.tokens, vec![4, 5, 6, 7, 8, 9]);

    let (orch, out) = orch.step(text("fix"), 0);
    let StepOutcome::Call { call: BackendCall::Detokenize { request } } = out else {
        panic!("expected the kept-suffix detokenize call");
    };
    assert_eq!(request.tokens, vec![100, 101]);

    let (_, out) = orch.step(text("suf"), 0);
    let StepOutcome::Call { call: BackendCall::Completion { request } } = out else {
        panic!("expected the completion call");
    };
    assert_eq!(request.prompt, "<|fim_prefix|>fix<|fim_suffix|>suf<|fim_middle|>");
}

#[test]
fn zero_budget_keeps_nothing_and_still_succeeds() {
    // Reserved tokens swallow the whole context: both kept sequences are
    // empty and the request still flows through without an error.
    let (orch, _) = RequestOrchestrator::start(request("p", "s"), ModelType::Qwen, 4, 4);
    let (orch, _) = orch.step(tokens(vec![1, 2]), 0);
    let (orch, out) = orch.step(tokens(vec![3]), 0);
    let StepOutcome::Call { call: BackendCall::Detokenize { request } } = out else {
        panic!("expected the kept-prefix detokenize call");
    };
    assert_eq!(request.tokens, Vec::<u32>::new());
    let (orch, out) = orch.step(text(""), 0);
    let StepOutcome::Call { call: BackendCall::Detokenize { request } } = out else {
        panic!("expected the kept-suffix detokenize call");
    };
    assert_eq!(request.tokens, Vec::<u32>::new());
    let (_, out) = orch.step(text(""), 0);
    let StepOutcome::Call { call: BackendCall::Completion { request } } = out else {
        panic!("expected the completion call");
    };
    assert_eq!(request.prompt, "<|fim_prefix|><|fim_suffix|><|fim_middle|>");
}

#[test]
fn unknown_model_prompt_drops_the_suffix() {
    let (orch, _) = RequestOrchestrator::start(request("only this", "never this"),
        ModelType::Unknown, 2048, 32);
    let (orch, _) = orch.step(tokens(vec![1, 2]), 0);
    let (_, out) = orch.step(tokens(vec![3]), 0);
    let StepOutcome::Call { call: BackendCall::Completion { request } } = out else {
        panic!("expected the completion call");
    };
    assert_eq!(request.prompt, "only this");
}

#[test]
fn tokenize_failure_becomes_a_500_with_stage_message() {
    let (orch, _) = RequestOrchestrator::start(request("p", "s"), ModelType::Qwen, 2048, 32);
    let (_, out) = orch.step(
        BackendReply::TransportFailed { message: "connection reset".to_string() },
        0,
    );
    let StepOutcome::Fail { status, error } = out else {
        panic!("expected a failure");
    };
    assert_eq!(status, 500);
    assert_eq!(error.error, "Tokenization failed: connection reset");
}

#[test]
fn detokenize_failure_becomes_a_500_with_stage_message() {
    let (orch, _) = RequestOrchestrator::start(request("p", "s"), ModelType::Qwen, 4, 4);
    let (orch, _) = orch.step(tokens(vec![1, 2]), 0);
    let (orch, _) = orch.step(tokens(vec![3]), 0);
    let (_, out) = orch.step(
        BackendReply::DecodeFailed { message: "bad body".to_string() },
        0,
    );
    let StepOutcome::Fail { status, error } = out else {
        panic!("expected a failure");
    };
    assert_eq!(status, 500);
    assert_eq!(error.error, "Detokenization failed: bad body");
}

#[test]
fn unreachable_completion_endpoint_becomes_a_502() {
    let (orch, _) = RequestOrchestrator::start(request("p", "s"), ModelType::Qwen, 2048, 32);
    let (orch, _) = orch.step(tokens(vec![1]), 0);
    let (orch, _) = orch.step(tokens(vec![2]), 0);
    let (_, out) = orch.step(
        BackendReply::TransportFailed { message: "connection refused".to_string() },
        0,
    );
    let StepOutcome::Fail { status, error } = out else {
        panic!("expected a failure");
    };
    assert_eq!(status, 502);
    assert_eq!(error.error, "connection refused");
}

#[test]
fn malformed_completion_body_becomes_a_500_with_message() {
    let (orch, _) = RequestOrchestrator::start(request("p", "s"), ModelType::Qwen, 2048, 32);
    let (orch, _) = orch.step(tokens(vec![1]), 0);
    let (orch, _) = orch.step(tokens(vec![2]), 0);
    let (_, out) = orch.step(
        BackendReply::DecodeFailed { message: "error decoding response body".to_string() },
        0,
    );
    let StepOutcome::Fail { status, error } = out else {
        panic!("expected a failure");
    };
    assert_eq!(status, 500);
    assert!(!error.error.is_empty());
    assert_eq!(error.error, "error decoding response body");
}

#[test]
fn exact_fit_uses_the_original_text() {
    // total == available is not an overflow: no truncation.
    let (orch, _) = RequestOrchestrator::start(request("aaa", "bbb"), ModelType::Qwen, 10, 4);
    let (orch, _) = orch.step(tokens(vec![1, 2, 3]), 0);
    let (_, out) = orch.step(tokens(vec![4, 5, 6]), 0);
    let StepOutcome::Call { call: BackendCall::Completion { request } } = out else {
        panic!("expected the completion call, not a detokenize round-trip");
    };
    assert_eq!(request.prompt, "<|fim_prefix|>aaa<|fim_suffix|>bbb<|fim_middle|>");
}
