//! Configuration resolution: turning the raw textual settings read from
//! the environment into a validated `Config`, with verified decimal
//! parsing, per-setting defaults, and the exact error reported for the
//! first invalid setting. Reading the environment itself is I/O and stays
//! with the caller.

use vstd::prelude::*;
use crate::types::Config;

verus! {

/// Whether `c` is a decimal digit.
pub open spec fn spec_is_digit(c: char) -> bool {
    48 <= c as u32 <= 57
}

/// The numeric value of one decimal digit character.
pub open spec fn spec_digit_val(c: char) -> int {
    (c as u32) as int - 48
}

/// A nonempty run of decimal digits and nothing else.
pub open spec fn spec_is_digit_seq(s: Seq<char>) -> bool {
    s.len() > 0 && (forall|i: int| 0 <= i < s.len() ==> spec_is_digit(#[trigger] s[i]))
}

/// The number a run of digits denotes, most significant digit first.
pub open spec fn spec_digits_val(s: Seq<char>) -> int
    decreases s.len(),
{
    if s.len() == 0 {
        0
    } else {
        10 * spec_digits_val(s.drop_last()) + spec_digit_val(s.last())
    }
}

/// What a bare run of digits denotes, if it is one.
pub open spec fn spec_uint_of(s: Seq<char>) -> Option<int> {
    if spec_is_digit_seq(s) {
        Some(spec_digits_val(s))
    } else {
        None
    }
}

/// What an unsigned decimal literal denotes: digits, with an optional
/// leading plus.
pub open spec fn spec_unsigned_of(s: Seq<char>) -> Option<int> {
    if s.len() >= 1 && s[0] == '+' {
        spec_uint_of(s.skip(1))
    } else {
        spec_uint_of(s)
    }
}

/// What a decimal literal with an optional leading minus or plus denotes,
/// if it is one.
pub open spec fn spec_int_of(s: Seq<char>) -> Option<int> {
    if s.len() >= 1 && s[0] == '-' {
        match spec_uint_of(s.skip(1)) {
            Some(v) => Some(-v),
            None => None,
        }
    } else {
        spec_unsigned_of(s)
    }
}

proof fn lemma_digits_val_nonneg(s: Seq<char>)
    requires
        forall|i: int| 0 <= i < s.len() ==> spec_is_digit(#[trigger] s[i]),
    ensures
        spec_digits_val(s) >= 0,
    decreases s.len(),
{
    if s.len() > 0 {
        lemma_digits_val_nonneg(s.drop_last());
    }
}

/// Appending digits never shrinks the denoted value: the value of a
/// digit run bounds the value of each of its prefixes.
proof fn lemma_digits_val_take_monotone(s: Seq<char>, k: int)
    requires
        0 <= k <= s.len(),
        forall|i: int| 0 <= i < s.len() ==> spec_is_digit(#[trigger] s[i]),
    ensures
        spec_digits_val(s.take(k)) <= spec_digits_val(s),
    decreases s.len() - k,
{
    if k < s.len() {
        lemma_digits_val_take_monotone(s, k + 1);
        assert(s.take(k + 1).drop_last() =~= s.take(k));
        assert(forall|i: int| 0 <= i < s.take(k).len() ==> spec_is_digit(#[trigger] s.take(k)[i]));
        lemma_digits_val_nonneg(s.take(k));
        assert(spec_digits_val(s.take(k + 1)) == 10 * spec_digits_val(s.take(k)) + spec_digit_val(
            s[k],
        ));
    } else {
        assert(s.take(k) =~= s);
    }
}

/// Parse a nonempty all-digit string into a number, rejecting anything
/// else and any value that does not fit.
fn parse_digits(s: &str) -> (r: Option<u64>)
    ensures
        r is Some <==> spec_is_digit_seq(s@) && spec_digits_val(s@) <= u64::MAX,
        r matches Some(v) ==> v == spec_digits_val(s@),
{
    let n = s.unicode_len();
    if n == 0 {
        return None;
    }
    let mut acc: u64 = 0;
    let mut i: usize = 0;
    while i < n
        invariant
            i <= n,
            n == s@.len(),
            forall|j: int| 0 <= j < i ==> spec_is_digit(#[trigger] s@[j]),
            acc == spec_digits_val(s@.take(i as int)),
        decreases n - i,
    {
        let c = s.get_char(i);
        let u = c as u32;
        if u < 48 || u > 57 {
            return None;
        }
        let d = (u - 48) as u64;
        proof {
            assert(s@.take(i + 1).drop_last() =~= s@.take(i as int));
            assert(spec_digits_val(s@.take(i + 1)) == 10 * spec_digits_val(s@.take(i as int))
                + spec_digit_val(s@[i as int]));
        }
        let limit_q = u64::MAX / 10;
        let limit_r = u64::MAX % 10;
        if acc > limit_q || (acc == limit_q && d > limit_r) {
            proof {
                if spec_is_digit_seq(s@) {
                    lemma_digits_val_take_monotone(s@, i + 1);
                }
            }
            return None;
        }
        acc = acc * 10 + d;
        i += 1;
    }
    proof {
        assert(s@.take(n as int) =~= s@);
    }
    Some(acc)
}

/// Parse an unsigned decimal literal, allowing an optional leading plus.
pub fn parse_u64(s: &str) -> (r: Option<u64>)
    ensures
        r is Some <==> (spec_unsigned_of(s@) matches Some(v) && v <= u64::MAX),
        r matches Some(v) ==> spec_unsigned_of(s@) == Some(v as int),
{
    let n = s.unicode_len();
    if n >= 1 && s.get_char(0) == '+' {
        let digits = s.substring_char(1, n);
        proof {
            assert(digits@ =~= s@.skip(1));
        }
        parse_digits(digits)
    } else {
        parse_digits(s)
    }
}

/// What a signed decimal literal denotes when its magnitude stays within
/// the largest signed 64-bit value.
pub open spec fn spec_i64_of(s: Seq<char>) -> Option<int> {
    match spec_int_of(s) {
        Some(v) => if -(i64::MAX as int) <= v <= i64::MAX as int {
            Some(v)
        } else {
            None
        },
        None => None,
    }
}

/// Parse a decimal literal with an optional leading minus or plus.
pub fn parse_i64(s: &str) -> (r: Option<i64>)
    ensures
        r is Some <==> spec_i64_of(s@) is Some,
        r matches Some(v) ==> spec_i64_of(s@) == Some(v as int),
{
    let n = s.unicode_len();
    if n >= 1 && s.get_char(0) == '-' {
        let digits = s.substring_char(1, n);
        proof {
            assert(digits@ =~= s@.skip(1));
        }
        match parse_digits(digits) {
            Some(magnitude) => {
                if magnitude <= i64::MAX as u64 {
                    Some(-(magnitude as i64))
                } else {
                    None
                }
            },
            None => None,
        }
    } else {
        match parse_u64(s) {
            Some(v) => {
                if v <= i64::MAX as u64 {
                    Some(v as i64)
                } else {
                    None
                }
            },
            None => None,
        }
    }
}

/// The raw configuration text as read from the environment: `None` where
/// a variable is unset.
pub struct ConfigEnv {
    pub model_path: Option<String>,
    pub llama_binary: Option<String>,
    pub server_port: Option<String>,
    pub llama_port: Option<String>,
    pub max_context: Option<String>,
    pub max_predict: Option<String>,
    pub threads: Option<String>,
    pub gpu_layers: Option<String>,
}

/// An unsigned setting: its default when unset, else the value its text
/// denotes when that is an unsigned decimal literal within `max`.
pub open spec fn spec_uint_setting(o: Option<String>, default: int, max: int) -> Option<int> {
    match o {
        None => Some(default),
        Some(s) => match spec_unsigned_of(s@) {
            Some(v) => if v <= max {
                Some(v)
            } else {
                None
            },
            None => None,
        },
    }
}

/// A signed setting: its default when unset, else the value its text
/// denotes when that is a decimal literal within `min..=max`.
pub open spec fn spec_int_setting(o: Option<String>, default: int, min: int, max: int) -> Option<
    int,
> {
    match o {
        None => Some(default),
        Some(s) => match spec_int_of(s@) {
            Some(v) => if min <= v <= max {
                Some(v)
            } else {
                None
            },
            None => None,
        },
    }
}

/// The error configuration resolution reports, if any: the model path is
/// required, every other setting must parse into its field's range, and
/// the first offender (in declaration order) names the message.
pub open spec fn spec_config_error(env: ConfigEnv) -> Option<Seq<char>> {
    if env.model_path is None {
        Some("SCALPEL_MODEL_PATH not set"@)
    } else if spec_uint_setting(env.server_port, 3000, u16::MAX as int) is None {
        Some("Invalid SCALPEL_PORT"@)
    } else if spec_uint_setting(env.llama_port, 8081, u16::MAX as int) is None {
        Some("Invalid SCALPEL_LLAMA_PORT"@)
    } else if spec_uint_setting(env.max_context, 2048, usize::MAX as int) is None {
        Some("Invalid SCALPEL_MAX_CONTEXT"@)
    } else if spec_int_setting(env.max_predict, 32, i8::MIN as int, i8::MAX as int) is None {
        Some("Invalid SCALPEL_MAX_PREDICT"@)
    } else if spec_uint_setting(env.threads, 4, u8::MAX as int) is None {
        Some("Invalid SCALPEL_THREADS"@)
    } else if spec_int_setting(env.gpu_layers, -1, i32::MIN as int, i32::MAX as int) is None {
        Some("Invalid SCALPEL_GPU_LAYERS"@)
    } else {
        None
    }
}

impl Config {
    /// Resolve the configuration from the environment's values: the model
    /// path is required, everything else falls back to its default, and
    /// the first setting that fails to parse decides the error.
    pub fn from_env(env: ConfigEnv) -> (r: Result<Config, String>)
        ensures
            r is Err <==> spec_config_error(env) is Some,
            r matches Err(e) ==> spec_config_error(env) == Some(e@),
            r matches Ok(config) ==> {
                &&& env.model_path matches Some(p) && config.model_path == p
                &&& config.llama_binary@ == match env.llama_binary {
                    Some(b) => b@,
                    None => "llama-server"@,
                }
                &&& spec_uint_setting(env.server_port, 3000, u16::MAX as int) == Some(
                    config.server_port as int,
                )
                &&& spec_uint_setting(env.llama_port, 8081, u16::MAX as int) == Some(
                    config.llama_port as int,
                )
                &&& spec_uint_setting(env.max_context, 2048, usize::MAX as int) == Some(
                    config.max_context as int,
                )
                &&& spec_int_setting(env.max_predict, 32, i8::MIN as int, i8::MAX as int) == Some(
                    config.max_predict as int,
                )
                &&& spec_uint_setting(env.threads, 4, u8::MAX as int) == Some(
                    config.threads as int,
                )
                &&& spec_int_setting(env.gpu_layers, -1, i32::MIN as int, i32::MAX as int) == Some(
                    config.gpu_layers as int,
                )
            },
    {
        let ghost genv = env;
        let ConfigEnv {
            model_path,
            llama_binary,
            server_port,
            llama_port,
            max_context,
            max_predict,
            threads,
            gpu_layers,
        } = env;
        let model_path = match model_path {
            Some(p) => p,
            None => {
                return Err(String::from_str("SCALPEL_MODEL_PATH not set"));
            },
        };
        let llama_binary = match llama_binary {
            Some(b) => b,
            None => String::from_str("llama-server"),
        };
        let server_port: u16 = match server_port {
            None => 3000,
            Some(s) => match parse_u64(s.as_str()) {
                Some(v) => if v <= u16::MAX as u64 {
                    v as u16
                } else {
                    return Err(String::from_str("Invalid SCALPEL_PORT"));
                },
                None => {
                    return Err(String::from_str("Invalid SCALPEL_PORT"));
                },
            },
        };
        let llama_port: u16 = match llama_port {
            None => 8081,
            Some(s) => match parse_u64(s.as_str()) {
                Some(v) => if v <= u16::MAX as u64 {
                    v as u16
                } else {
                    return Err(String::from_str("Invalid SCALPEL_LLAMA_PORT"));
                },
                None => {
                    return Err(String::from_str("Invalid SCALPEL_LLAMA_PORT"));
                },
            },
        };
        let max_context: usize = match max_context {
            None => 2048,
            Some(s) => match parse_u64(s.as_str()) {
                Some(v) => if v <= usize::MAX as u64 {
                    v as usize
                } else {
                    return Err(String::from_str("Invalid SCALPEL_MAX_CONTEXT"));
                },
                None => {
                    return Err(String::from_str("Invalid SCALPEL_MAX_CONTEXT"));
                },
            },
        };
        let max_predict: i8 = match max_predict {
            None => 32,
            Some(s) => match parse_i64(s.as_str()) {
                Some(v) => if i8::MIN as i64 <= v && v <= i8::MAX as i64 {
                    v as i8
                } else {
                    return Err(String::from_str("Invalid SCALPEL_MAX_PREDICT"));
                },
                None => {
                    return Err(String::from_str("Invalid SCALPEL_MAX_PREDICT"));
                },
            },
        };
        let threads: u8 = match threads {
            None => 4,
            Some(s) => match parse_u64(s.as_str()) {
                Some(v) => if v <= u8::MAX as u64 {
                    v as u8
                } else {
                    return Err(String::from_str("Invalid SCALPEL_THREADS"));
                },
                None => {
                    return Err(String::from_str("Invalid SCALPEL_THREADS"));
                },
            },
        };
        let gpu_layers: i32 = match gpu_layers {
            None => -1,
            Some(s) => match parse_i64(s.as_str()) {
                Some(v) => if i32::MIN as i64 <= v && v <= i32::MAX as i64 {
                    v as i32
                } else {
                    return Err(String::from_str("Invalid SCALPEL_GPU_LAYERS"));
                },
                None => {
                    return Err(String::from_str("Invalid SCALPEL_GPU_LAYERS"));
                },
            },
        };
        Ok(
            Config {
                model_path,
                llama_binary,
                server_port,
                llama_port,
                max_context,
                max_predict,
                threads,
                gpu_layers,
            },
        )
    }
}

} // verus!
