//! Per-request orchestration as a state machine. The caller performs one
//! backend call at a time (tokenize, detokenize, completion — all network
//! I/O) and feeds each reply back; every decision between two calls is
//! made and verified here: budget planning, truncation, prompt
//! construction, and the mapping of backend failures to client errors.

use vstd::prelude::*;
use crate::budget::{
    available_budget, keep_first, keep_last, plan, spec_available, spec_kept_prefix,
    spec_kept_suffix, PlanDecision,
};
use crate::model::{build_fim_prompt, spec_fim_prompt, spec_stop_tokens, stop_tokens};
use crate::types::{
    CompletionRequest, CompletionResponse, DetokenizeRequest, DetokenizeResponse, ErrorResponse,
    LlamaRequest, LlamaResponse, ModelType, TokenizeRequest, TokenizeResponse,
};

verus! {

/// A backend call the caller must perform next, with the exact body to
/// send.
pub enum BackendCall {
    Tokenize { request: TokenizeRequest },
    Detokenize { request: DetokenizeRequest },
    Completion { request: LlamaRequest },
}

/// What the caller observed when performing a backend call: the decoded
/// reply of the matching kind, a transport failure, or a reply that could
/// not be decoded.
pub enum BackendReply {
    Tokens { response: TokenizeResponse },
    Text { response: DetokenizeResponse },
    Completed { response: LlamaResponse },
    TransportFailed { message: String },
    DecodeFailed { message: String },
}

/// What the orchestrator decides after a reply: issue another backend
/// call, answer the client, or fail the request with an HTTP status and
/// error body.
pub enum StepOutcome {
    Call { call: BackendCall },
    Respond { response: CompletionResponse },
    Fail { status: u16, error: ErrorResponse },
}

/// Where a request stands between backend calls.
pub enum Phase {
    TokenizingPrefix,
    TokenizingSuffix { prefix_tokens: Vec<u32> },
    DetokenizingPrefix { kept_suffix_tokens: Vec<u32> },
    DetokenizingSuffix { prefix_text: String },
    Completing { prompt: String },
    Done,
}

/// One in-flight request: the immutable per-request configuration, the
/// original prefix and suffix text, and the current phase.
pub struct RequestOrchestrator {
    pub model_type: ModelType,
    pub max_predict: i8,
    pub available: usize,
    pub prefix: String,
    pub suffix: String,
    pub phase: Phase,
}

/// Which reply kinds can answer the call issued in `phase`: failures can
/// answer any call; decoded replies must match the call's kind.
pub open spec fn spec_reply_matches(phase: Phase, reply: BackendReply) -> bool {
    match reply {
        BackendReply::TransportFailed { .. } => !(phase is Done),
        BackendReply::DecodeFailed { .. } => !(phase is Done),
        BackendReply::Tokens { .. } => phase is TokenizingPrefix || phase is TokenizingSuffix,
        BackendReply::Text { .. } => phase is DetokenizingPrefix || phase is DetokenizingSuffix,
        BackendReply::Completed { .. } => phase is Completing,
    }
}

/// The request ends as a client error with this status and message.
pub open spec fn spec_failed(
    post: RequestOrchestrator,
    out: StepOutcome,
    status: int,
    message: Seq<char>,
) -> bool {
    &&& post.phase is Done
    &&& out matches StepOutcome::Fail { status: s, error } && s == status && error.error@
        == message
}

/// The outcome is a completion call carrying this prompt, the configured
/// prediction cap, the fixed deterministic seed, and the fixed stop set.
pub open spec fn spec_completion_call(out: StepOutcome, prompt: Seq<char>, max_predict: i8) -> bool {
    out matches StepOutcome::Call { call: BackendCall::Completion { request } }
        && request.prompt@ == prompt && request.n_predict == max_predict && request.seed == 42
        && request.stop.deep_view() == spec_stop_tokens()
}

/// The whole transition relation of one step: configuration and request
/// text never change, and each phase reacts to its reply as the pipeline
/// prescribes — tokenize both sides, plan the budget, truncate only when
/// the counts exceed it (keeping the prefix tail and suffix head), build
/// the family prompt, issue the deterministic completion call, and map
/// failures to a 502 for an unreachable completion endpoint and a 500
/// otherwise.
pub open spec fn spec_step(
    pre: RequestOrchestrator,
    reply: BackendReply,
    elapsed_ms: u64,
    post: RequestOrchestrator,
    out: StepOutcome,
) -> bool {
    &&& post.model_type == pre.model_type
    &&& post.max_predict == pre.max_predict
    &&& post.available == pre.available
    &&& post.prefix@ == pre.prefix@
    &&& post.suffix@ == pre.suffix@
    &&& match pre.phase {
        Phase::TokenizingPrefix => match reply {
            BackendReply::Tokens { response } => {
                &&& post.phase matches Phase::TokenizingSuffix { prefix_tokens } && prefix_tokens@
                    == response.tokens@
                &&& out matches StepOutcome::Call { call: BackendCall::Tokenize { request } }
                    && request.content@ == pre.suffix@
            },
            BackendReply::TransportFailed { message } => spec_failed(
                post,
                out,
                500,
                "Tokenization failed: "@ + message@,
            ),
            BackendReply::DecodeFailed { message } => spec_failed(
                post,
                out,
                500,
                "Tokenization failed: "@ + message@,
            ),
            _ => false,
        },
        Phase::TokenizingSuffix { prefix_tokens } => match reply {
            BackendReply::Tokens { response } => {
                if prefix_tokens@.len() + response.tokens@.len() <= pre.available {
                    // The request fits: the original text is used verbatim and
                    // no detokenize round-trip is ever issued.
                    &&& post.phase matches Phase::Completing { prompt } && prompt@
                        == spec_fim_prompt(pre.prefix@, pre.suffix@, pre.model_type)
                    &&& spec_completion_call(
                        out,
                        spec_fim_prompt(pre.prefix@, pre.suffix@, pre.model_type),
                        pre.max_predict,
                    )
                } else {
                    &&& post.phase matches Phase::DetokenizingPrefix { kept_suffix_tokens }
                        && kept_suffix_tokens@ == spec_kept_suffix(
                        response.tokens@,
                        pre.available as int,
                    )
                    &&& out matches StepOutcome::Call {
                        call: BackendCall::Detokenize { request },
                    } && request.tokens@ == spec_kept_prefix(prefix_tokens@, pre.available as int)
                }
            },
            BackendReply::TransportFailed { message } => spec_failed(
                post,
                out,
                500,
                "Tokenization failed: "@ + message@,
            ),
            BackendReply::DecodeFailed { message } => spec_failed(
                post,
                out,
                500,
                "Tokenization failed: "@ + message@,
            ),
            _ => false,
        },
        Phase::DetokenizingPrefix { kept_suffix_tokens } => match reply {
            BackendReply::Text { response } => {
                &&& post.phase matches Phase::DetokenizingSuffix { prefix_text } && prefix_text@
                    == response.content@
                &&& out matches StepOutcome::Call { call: BackendCall::Detokenize { request } }
                    && request.tokens@ == kept_suffix_tokens@
            },
            BackendReply::TransportFailed { message } => spec_failed(
                post,
                out,
                500,
                "Detokenization failed: "@ + message@,
            ),
            BackendReply::DecodeFailed { message } => spec_failed(
                post,
                out,
                500,
                "Detokenization failed: "@ + message@,
            ),
            _ => false,
        },
        Phase::DetokenizingSuffix { prefix_text } => match reply {
            BackendReply::Text { response } => {
                &&& post.phase matches Phase::Completing { prompt } && prompt@ == spec_fim_prompt(
                    prefix_text@,
                    response.content@,
                    pre.model_type,
                )
                &&& spec_completion_call(
                    out,
                    spec_fim_prompt(prefix_text@, response.content@, pre.model_type),
                    pre.max_predict,
                )
            },
            BackendReply::TransportFailed { message } => spec_failed(
                post,
                out,
                500,
                "Detokenization failed: "@ + message@,
            ),
            BackendReply::DecodeFailed { message } => spec_failed(
                post,
                out,
                500,
                "Detokenization failed: "@ + message@,
            ),
            _ => false,
        },
        Phase::Completing { prompt } => match reply {
            BackendReply::Completed { response } => {
                // The response reports the exact prompt that was sent, held
                // in the phase — not whatever the backend echoed back.
                &&& post.phase is Done
                &&& out matches StepOutcome::Respond { response: r } && r.completion@
                    == response.content@ && r.prompt@ == prompt@ && r.latency_ms == elapsed_ms
            },
            BackendReply::TransportFailed { message } => spec_failed(post, out, 502, message@),
            BackendReply::DecodeFailed { message } => spec_failed(post, out, 500, message@),
            _ => false,
        },
        Phase::Done => false,
    }
}

/// How many more steps a request can take from this phase.
pub open spec fn spec_phase_rank(phase: Phase) -> nat {
    match phase {
        Phase::TokenizingPrefix => 5,
        Phase::TokenizingSuffix { .. } => 4,
        Phase::DetokenizingPrefix { .. } => 3,
        Phase::DetokenizingSuffix { .. } => 2,
        Phase::Completing { .. } => 1,
        Phase::Done => 0,
    }
}

/// Every step strictly lowers the phase rank, and a request is done
/// exactly when the step asks for no further call: the caller's loop
/// performs at most five backend calls per request (two of them
/// detokenize round-trips, and those only under truncation).
pub proof fn lemma_step_progress(
    pre: RequestOrchestrator,
    reply: BackendReply,
    elapsed_ms: u64,
    post: RequestOrchestrator,
    out: StepOutcome,
)
    requires
        spec_step(pre, reply, elapsed_ms, post, out),
        !(pre.phase is Done),
    ensures
        spec_phase_rank(post.phase) < spec_phase_rank(pre.phase),
        post.phase is Done <==> !(out is Call),
{
}

/// A request whose token counts fit the available budget goes straight
/// from tokenization to the completion call: the prompt is built verbatim
/// from the request's own text, and no detokenize round-trip is ever
/// issued.
pub proof fn lemma_fit_skips_round_trip(
    pre: RequestOrchestrator,
    reply: BackendReply,
    elapsed_ms: u64,
    post: RequestOrchestrator,
    out: StepOutcome,
)
    requires
        spec_step(pre, reply, elapsed_ms, post, out),
        pre.phase is TokenizingSuffix,
        reply matches BackendReply::Tokens { response } && pre.phase->prefix_tokens@.len()
            + response.tokens@.len() <= pre.available,
    ensures
        !(out matches StepOutcome::Call { call: BackendCall::Detokenize { .. } }),
        spec_completion_call(
            out,
            spec_fim_prompt(pre.prefix@, pre.suffix@, pre.model_type),
            pre.max_predict,
        ),
{
}

/// The completion-call body: the prompt, the configured prediction cap,
/// the fixed stop set, and the fixed seed that (with zero temperature)
/// makes identical inputs yield identical completions.
pub fn make_llama_request(prompt: String, max_predict: i8) -> (r: LlamaRequest)
    ensures
        r.prompt == prompt,
        r.n_predict == max_predict,
        r.seed == 42,
        r.stop.deep_view() == spec_stop_tokens(),
{
    LlamaRequest { prompt, n_predict: max_predict, stop: stop_tokens(), seed: 42 }
}

/// An error message with its failing pipeline stage prepended.
fn prefixed_error(label: &str, message: &str) -> (r: String)
    ensures
        r@ == label@ + message@,
{
    let mut s = String::from_str(label);
    s.append(message);
    s
}

impl RequestOrchestrator {
    /// Begin handling one request: derive the available budget from the
    /// configured context size and reserved prediction length, and issue
    /// the first call, tokenizing the prefix. A negative prediction cap
    /// reserves nothing from the budget but is still forwarded as
    /// configured in the completion call.
    pub fn start(
        request: CompletionRequest,
        model_type: ModelType,
        max_context: usize,
        max_predict: i8,
    ) -> (r: (RequestOrchestrator, BackendCall))
        ensures
            r.0.model_type == model_type,
            r.0.max_predict == max_predict,
            r.0.available == spec_available(
                max_context as int,
                if max_predict >= 0 {
                    max_predict as int
                } else {
                    0
                },
            ),
            r.0.prefix@ == request.prefix@,
            r.0.suffix@ == request.suffix@,
            r.0.phase is TokenizingPrefix,
            r.1 matches BackendCall::Tokenize { request: body } && body.content@
                == request.prefix@,
    {
        let reserved: usize = if max_predict >= 0 {
            max_predict as usize
        } else {
            0
        };
        let available = available_budget(max_context, reserved);
        let call = BackendCall::Tokenize {
            request: TokenizeRequest { content: request.prefix.clone() },
        };
        let orchestrator = RequestOrchestrator {
            model_type,
            max_predict,
            available,
            prefix: request.prefix,
            suffix: request.suffix,
            phase: Phase::TokenizingPrefix,
        };
        (orchestrator, call)
    }

    /// Consume one backend reply and decide what happens next. The
    /// transition relation `spec_step` pins the successor state and the
    /// outcome completely.
    pub fn step(self, reply: BackendReply, elapsed_ms: u64) -> (r: (RequestOrchestrator, StepOutcome))
        requires
            spec_reply_matches(self.phase, reply),
        ensures
            spec_step(self, reply, elapsed_ms, r.0, r.1),
    {
        let ghost pre = self;
        let RequestOrchestrator { model_type, max_predict, available, prefix, suffix, phase } =
            self;
        match phase {
            Phase::TokenizingPrefix => match reply {
                BackendReply::Tokens { response } => {
                    let call = BackendCall::Tokenize {
                        request: TokenizeRequest { content: suffix.clone() },
                    };
                    let post = RequestOrchestrator {
                        model_type,
                        max_predict,
                        available,
                        prefix,
                        suffix,
                        phase: Phase::TokenizingSuffix { prefix_tokens: response.tokens },
                    };
                    (post, StepOutcome::Call { call })
                },
                BackendReply::TransportFailed { message } => {
                    let error = prefixed_error("Tokenization failed: ", message.as_str());
                    let post = RequestOrchestrator {
                        model_type,
                        max_predict,
                        available,
                        prefix,
                        suffix,
                        phase: Phase::Done,
                    };
                    (post, StepOutcome::Fail { status: 500, error: ErrorResponse { error } })
                },
                BackendReply::DecodeFailed { message } => {
                    let error = prefixed_error("Tokenization failed: ", message.as_str());
                    let post = RequestOrchestrator {
                        model_type,
                        max_predict,
                        available,
                        prefix,
                        suffix,
                        phase: Phase::Done,
                    };
                    (post, StepOutcome::Fail { status: 500, error: ErrorResponse { error } })
                },
                _ => vstd::pervasive::unreached(),
            },
            Phase::TokenizingSuffix { prefix_tokens } => match reply {
                BackendReply::Tokens { response } => {
                    let decision = plan(prefix_tokens.len(), response.tokens.len(), available);
                    match decision {
                        PlanDecision::NoTruncation => {
                            let prompt = build_fim_prompt(
                                prefix.as_str(),
                                suffix.as_str(),
                                model_type,
                            );
                            let request = make_llama_request(prompt.clone(), max_predict);
                            let post = RequestOrchestrator {
                                model_type,
                                max_predict,
                                available,
                                prefix,
                                suffix,
                                phase: Phase::Completing { prompt },
                            };
                            (post, StepOutcome::Call { call: BackendCall::Completion { request } })
                        },
                        PlanDecision::Truncate { max_prefix, max_suffix } => {
                            let kept_prefix = keep_last(&prefix_tokens, max_prefix);
                            let kept_suffix = keep_first(&response.tokens, max_suffix);
                            let post = RequestOrchestrator {
                                model_type,
                                max_predict,
                                available,
                                prefix,
                                suffix,
                                phase: Phase::DetokenizingPrefix {
                                    kept_suffix_tokens: kept_suffix,
                                },
                            };
                            (
                                post,
                                StepOutcome::Call {
                                    call: BackendCall::Detokenize {
                                        request: DetokenizeRequest { tokens: kept_prefix },
                                    },
                                },
                            )
                        },
                    }
                },
                BackendReply::TransportFailed { message } => {
                    let error = prefixed_error("Tokenization failed: ", message.as_str());
                    let post = RequestOrchestrator {
                        model_type,
                        max_predict,
                        available,
                        prefix,
                        suffix,
                        phase: Phase::Done,
                    };
                    (post, StepOutcome::Fail { status: 500, error: ErrorResponse { error } })
                },
                BackendReply::DecodeFailed { message } => {
                    let error = prefixed_error("Tokenization failed: ", message.as_str());
                    let post = RequestOrchestrator {
                        model_type,
                        max_predict,
                        available,
                        prefix,
                        suffix,
                        phase: Phase::Done,
                    };
                    (post, StepOutcome::Fail { status: 500, error: ErrorResponse { error } })
                },
                _ => vstd::pervasive::unreached(),
            },
            Phase::DetokenizingPrefix { kept_suffix_tokens } => match reply {
                BackendReply::Text { response } => {
                    let call = BackendCall::Detokenize {
                        request: DetokenizeRequest { tokens: kept_suffix_tokens },
                    };
                    let post = RequestOrchestrator {
                        model_type,
                        max_predict,
                        available,
                        prefix,
                        suffix,
                        phase: Phase::DetokenizingSuffix { prefix_text: response.content },
                    };
                    (post, StepOutcome::Call { call })
                },
                BackendReply::TransportFailed { message } => {
                    let error = prefixed_error("Detokenization failed: ", message.as_str());
                    let post = RequestOrchestrator {
                        model_type,
                        max_predict,
                        available,
                        prefix,
                        suffix,
                        phase: Phase::Done,
                    };
                    (post, StepOutcome::Fail { status: 500, error: ErrorResponse { error } })
                },
                BackendReply::DecodeFailed { message } => {
                    let error = prefixed_error("Detokenization failed: ", message.as_str());
                    let post = RequestOrchestrator {
                        model_type,
                        max_predict,
                        available,
                        prefix,
                        suffix,
                        phase: Phase::Done,
                    };
                    (post, StepOutcome::Fail { status: 500, error: ErrorResponse { error } })
                },
                _ => vstd::pervasive::unreached(),
            },
            Phase::DetokenizingSuffix { prefix_text } => match reply {
                BackendReply::Text { response } => {
                    let prompt = build_fim_prompt(
                        prefix_text.as_str(),
                        response.content.as_str(),
                        model_type,
                    );
                    let request = make_llama_request(prompt.clone(), max_predict);
                    let post = RequestOrchestrator {
                        model_type,
                        max_predict,
                        available,
                        prefix,
                        suffix,
                        phase: Phase::Completing { prompt },
                    };
                    (post, StepOutcome::Call { call: BackendCall::Completion { request } })
                },
                BackendReply::TransportFailed { message } => {
                    let error = prefixed_error("Detokenization failed: ", message.as_str());
                    let post = RequestOrchestrator {
                        model_type,
                        max_predict,
                        available,
                        prefix,
                        suffix,
                        phase: Phase::Done,
                    };
                    (post, StepOutcome::Fail { status: 500, error: ErrorResponse { error } })
                },
                BackendReply::DecodeFailed { message } => {
                    let error = prefixed_error("Detokenization failed: ", message.as_str());
                    let post = RequestOrchestrator {
                        model_type,
                        max_predict,
                        available,
                        prefix,
                        suffix,
                        phase: Phase::Done,
                    };
                    (post, StepOutcome::Fail { status: 500, error: ErrorResponse { error } })
                },
                _ => vstd::pervasive::unreached(),
            },
            Phase::Completing { prompt } => match reply {
                BackendReply::Completed { response } => {
                    let out = StepOutcome::Respond {
                        response: CompletionResponse {
                            completion: response.content,
                            prompt,
                            latency_ms: elapsed_ms,
                        },
                    };
                    let post = RequestOrchestrator {
                        model_type,
                        max_predict,
                        available,
                        prefix,
                        suffix,
                        phase: Phase::Done,
                    };
                    (post, out)
                },
                BackendReply::TransportFailed { message } => {
                    let post = RequestOrchestrator {
                        model_type,
                        max_predict,
                        available,
                        prefix,
                        suffix,
                        phase: Phase::Done,
                    };
                    (
                        post,
                        StepOutcome::Fail {
                            status: 502,
                            error: ErrorResponse { error: message },
                        },
                    )
                },
                BackendReply::DecodeFailed { message } => {
                    let post = RequestOrchestrator {
                        model_type,
                        max_predict,
                        available,
                        prefix,
                        suffix,
                        phase: Phase::Done,
                    };
                    (
                        post,
                        StepOutcome::Fail {
                            status: 500,
                            error: ErrorResponse { error: message },
                        },
                    )
                },
                _ => vstd::pervasive::unreached(),
            },
            Phase::Done => vstd::pervasive::unreached(),
        }
    }
}

} // verus!
