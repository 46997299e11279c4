//! Backend process supervision: the startup argument list derived from the
//! configuration (with verified decimal rendering of its numeric fields),
//! and the bounded health-poll state machine that gates serving on a ready
//! backend. Spawning, sleeping and the health requests themselves are I/O
//! and live with the caller.

use vstd::prelude::*;
use crate::types::Config;

verus! {

/// The character for one decimal digit.
pub open spec fn spec_digit_char(d: int) -> char {
    if d == 0 {
        '0'
    } else if d == 1 {
        '1'
    } else if d == 2 {
        '2'
    } else if d == 3 {
        '3'
    } else if d == 4 {
        '4'
    } else if d == 5 {
        '5'
    } else if d == 6 {
        '6'
    } else if d == 7 {
        '7'
    } else if d == 8 {
        '8'
    } else {
        '9'
    }
}

/// Decimal rendering of a nonnegative number, most significant digit first,
/// without leading zeros (a lone zero for zero itself).
pub open spec fn spec_udec(n: int) -> Seq<char>
    decreases n,
{
    if n < 10 {
        seq![spec_digit_char(n)]
    } else {
        spec_udec(n / 10) + seq![spec_digit_char(n % 10)]
    }
}

/// Decimal rendering of a signed number: a minus sign before the magnitude
/// when negative.
pub open spec fn spec_dec(n: int) -> Seq<char> {
    if n < 0 {
        seq!['-'] + spec_udec(-n)
    } else {
        spec_udec(n)
    }
}

/// One decimal digit as a borrowed one-character string.
fn digit_str(d: u64) -> (r: &'static str)
    requires
        d < 10,
    ensures
        r@ == seq![spec_digit_char(d as int)],
{
    proof {
        reveal_strlit("0");
        reveal_strlit("1");
        reveal_strlit("2");
        reveal_strlit("3");
        reveal_strlit("4");
        reveal_strlit("5");
        reveal_strlit("6");
        reveal_strlit("7");
        reveal_strlit("8");
        reveal_strlit("9");
    }
    let r = if d == 0 {
        "0"
    } else if d == 1 {
        "1"
    } else if d == 2 {
        "2"
    } else if d == 3 {
        "3"
    } else if d == 4 {
        "4"
    } else if d == 5 {
        "5"
    } else if d == 6 {
        "6"
    } else if d == 7 {
        "7"
    } else if d == 8 {
        "8"
    } else {
        "9"
    };
    proof {
        assert(r@ =~= seq![spec_digit_char(d as int)]);
    }
    r
}

/// Render a nonnegative number in decimal.
pub fn u64_to_dec(n: u64) -> (r: String)
    ensures
        r@ == spec_udec(n as int),
    decreases n,
{
    if n < 10 {
        String::from_str(digit_str(n))
    } else {
        let mut s = u64_to_dec(n / 10);
        s.append(digit_str(n % 10));
        s
    }
}

/// Render a signed number in decimal, with a leading minus when negative.
pub fn i64_to_dec(n: i64) -> (r: String)
    requires
        n > i64::MIN,
    ensures
        r@ == spec_dec(n as int),
{
    if n >= 0 {
        u64_to_dec(n as u64)
    } else {
        let magnitude: i64 = -n;
        let mut s = String::from_str("-");
        let rest = u64_to_dec(magnitude as u64);
        s.append(rest.as_str());
        proof {
            reveal_strlit("-");
            assert("-"@ =~= seq!['-']);
        }
        s
    }
}

/// The argument list the backend is started with: the model file, its
/// listening port, the GPU layer count, the thread count and the context
/// size, each flag followed by its value.
pub open spec fn spec_llama_args(config: Config) -> Seq<Seq<char>> {
    seq![
        "-m"@,
        config.model_path@,
        "--port"@,
        spec_udec(config.llama_port as int),
        "--n-gpu-layers"@,
        spec_dec(config.gpu_layers as int),
        "--threads"@,
        spec_udec(config.threads as int),
        "--ctx-size"@,
        spec_udec(config.max_context as int),
    ]
}

/// Build the startup argument list for the backend process from the
/// configuration.
pub fn llama_args(config: &Config) -> (r: Vec<String>)
    ensures
        r.deep_view() == spec_llama_args(*config),
{
    let mut r: Vec<String> = Vec::new();
    r.push(String::from_str("-m"));
    r.push(config.model_path.clone());
    r.push(String::from_str("--port"));
    r.push(u64_to_dec(config.llama_port as u64));
    r.push(String::from_str("--n-gpu-layers"));
    r.push(i64_to_dec(config.gpu_layers as i64));
    r.push(String::from_str("--threads"));
    r.push(u64_to_dec(config.threads as u64));
    r.push(String::from_str("--ctx-size"));
    r.push(u64_to_dec(config.max_context as u64));
    proof {
        assert(r.deep_view() =~~= spec_llama_args(*config));
    }
    r
}

/// How many health polls a fresh backend is granted before startup fails.
pub const HEALTH_POLL_ATTEMPTS: u32 = 30;

/// Milliseconds to wait between health polls.
pub const HEALTH_POLL_INTERVAL_MS: u64 = 500;

/// Attempts left after `failures` failed polls, starting from `start`:
/// each failure consumes one attempt until none remain.
pub open spec fn spec_attempts_after(start: nat, failures: nat) -> nat
    decreases failures,
{
    if failures == 0 {
        start
    } else {
        let prev = spec_attempts_after(start, (failures - 1) as nat);
        if prev > 0 {
            (prev - 1) as nat
        } else {
            0
        }
    }
}

/// Whether an HTTP status code from the health endpoint signals
/// readiness: any successful (2xx) response counts, regardless of body.
pub fn is_ready_status(status: u16) -> (r: bool)
    ensures
        r <==> 200 <= status < 300,
{
    200 <= status && status < 300
}

/// Bounded readiness wait: a budget of health-poll attempts that failed
/// polls consume (no response, or one whose status does not signal
/// readiness). The caller sleeps, polls, and reports each failure; once
/// the budget is exhausted, startup must fail rather than serve without a
/// ready backend.
pub struct HealthWait {
    pub attempts_left: u32,
}

impl HealthWait {
    /// A fresh wait with the full poll budget.
    pub fn new() -> (s: Self)
        ensures
            s.attempts_left == HEALTH_POLL_ATTEMPTS,
    {
        HealthWait { attempts_left: HEALTH_POLL_ATTEMPTS }
    }

    /// Record one failed poll. Returns whether polling may continue:
    /// exactly when attempts remain afterwards.
    pub fn poll_failed(&mut self) -> (retry: bool)
        ensures
            final(self).attempts_left == if old(self).attempts_left > 0 {
                (old(self).attempts_left - 1) as u32
            } else {
                0
            },
            retry <==> final(self).attempts_left > 0,
            final(self).attempts_left == spec_attempts_after(old(self).attempts_left as nat, 1),
    {
        proof {
            reveal_with_fuel(spec_attempts_after, 2);
        }
        if self.attempts_left > 0 {
            self.attempts_left = self.attempts_left - 1;
        }
        self.attempts_left > 0
    }
}

/// A backend that never answers exhausts the poll budget: after `failures`
/// failed polls, `start - failures` attempts remain while any do, and none
/// remain from the budget's size onward — thirty failures leave zero, so
/// startup fails fatally.
pub proof fn lemma_health_wait_exhausts(start: nat, failures: nat)
    ensures
        spec_attempts_after(start, failures) == if failures <= start {
            start - failures
        } else {
            0
        },
    decreases failures,
{
    if failures > 0 {
        lemma_health_wait_exhausts(start, (failures - 1) as nat);
    }
}

} // verus!
