//! Model-family resolution from the model file name, fill-in-middle prompt
//! construction, and the fixed stop-sequence set sent with every
//! completion call.

use vstd::prelude::*;
use crate::types::ModelType;

verus! {

/// Index at which the file-name component of `path` begins: one past the
/// last path separator, or `0` when the path holds none.
pub open spec fn spec_file_name_start(path: Seq<char>) -> int
    decreases path.len(),
{
    if path.len() == 0 {
        0
    } else if path[path.len() - 1] == '/' {
        path.len() as int
    } else {
        spec_file_name_start(path.take(path.len() - 1))
    }
}

pub proof fn lemma_file_name_start_bounds(path: Seq<char>)
    ensures
        0 <= spec_file_name_start(path) <= path.len(),
    decreases path.len(),
{
    if path.len() > 0 && path[path.len() - 1] != '/' {
        lemma_file_name_start_bounds(path.take(path.len() - 1));
    }
}

/// The path with any trailing separators removed.
pub open spec fn spec_strip_trailing_slashes(path: Seq<char>) -> Seq<char>
    decreases path.len(),
{
    if path.len() > 0 && path[path.len() - 1] == '/' {
        spec_strip_trailing_slashes(path.drop_last())
    } else {
        path
    }
}

/// The file-name component of `path`: everything after the last
/// separator, with trailing separators ignored.
pub open spec fn spec_file_name(path: Seq<char>) -> Seq<char> {
    let stripped = spec_strip_trailing_slashes(path);
    stripped.subrange(spec_file_name_start(stripped), stripped.len() as int)
}

/// Whether `s` begins with the four characters of the Qwen family marker.
pub open spec fn spec_starts_with_qwen(s: Seq<char>) -> bool {
    s.len() >= 4 && s[0] == 'q' && s[1] == 'w' && s[2] == 'e' && s[3] == 'n'
}

/// Family classification: decided by the file-name component alone,
/// case-sensitively, by its leading characters.
pub open spec fn spec_model_type(path: Seq<char>) -> ModelType {
    if spec_starts_with_qwen(spec_file_name(path)) {
        ModelType::Qwen
    } else {
        ModelType::Unknown
    }
}

/// Classify the configured model path into a prompt-template family.
/// Directory segments are ignored; an unrecognized file name yields
/// `Unknown`, a degraded mode rather than an error.
pub fn extract_model_type(path_str: &str) -> (t: ModelType)
    ensures
        t == spec_model_type(path_str@),
{
    let ghost path = path_str@;
    let n = path_str.unicode_len();
    proof {
        assert(path.take(n as int) =~= path);
    }
    let mut m: usize = n;
    while m > 0 && path_str.get_char(m - 1) == '/'
        invariant
            m <= n,
            n == path.len(),
            path == path_str@,
            spec_strip_trailing_slashes(path) == spec_strip_trailing_slashes(path.take(m as int)),
        decreases m,
    {
        proof {
            assert(path.take(m as int).len() == m);
            assert(path.take(m as int)[m - 1] == path[m - 1]);
            assert(path.take(m as int).drop_last() =~= path.take(m - 1));
        }
        m -= 1;
    }
    let ghost stripped = path.take(m as int);
    proof {
        if m > 0 {
            assert(stripped[m - 1] == path[m - 1]);
        }
        assert(spec_strip_trailing_slashes(path) == stripped);
        lemma_file_name_start_bounds(stripped);
    }
    let mut i: usize = 0;
    let mut start: usize = 0;
    while i < m
        invariant
            i <= m <= n,
            start <= i,
            n == path.len(),
            path == path_str@,
            stripped == path.take(m as int),
            start == spec_file_name_start(stripped.take(i as int)),
        decreases m - i,
    {
        let c = path_str.get_char(i);
        proof {
            assert(stripped.take(i + 1).len() == i + 1);
            assert(stripped.take(i + 1)[i as int] == path[i as int]);
            assert(stripped.take(i + 1).take(i as int) =~= stripped.take(i as int));
        }
        if c == '/' {
            start = i + 1;
        }
        i += 1;
    }
    proof {
        assert(stripped.take(m as int) =~= stripped);
        assert(spec_file_name(path).len() == m - start);
    }
    if m - start >= 4 {
        let c0 = path_str.get_char(start);
        let c1 = path_str.get_char(start + 1);
        let c2 = path_str.get_char(start + 2);
        let c3 = path_str.get_char(start + 3);
        proof {
            assert(spec_file_name(path)[0] == stripped[start as int] == path[start as int]);
            assert(spec_file_name(path)[1] == stripped[start + 1] == path[start + 1]);
            assert(spec_file_name(path)[2] == stripped[start + 2] == path[start + 2]);
            assert(spec_file_name(path)[3] == stripped[start + 3] == path[start + 3]);
        }
        if c0 == 'q' && c1 == 'w' && c2 == 'e' && c3 == 'n' {
            return ModelType::Qwen;
        }
    }
    ModelType::Unknown
}

/// The prompt handed to the backend: for a known family, the prefix and
/// suffix wrapped in that family's fill-in-middle markers, with nothing
/// after the middle marker; for `Unknown`, the bare prefix, with the
/// suffix discarded.
pub open spec fn spec_fim_prompt(prefix: Seq<char>, suffix: Seq<char>, model_type: ModelType) -> Seq<
    char,
> {
    match model_type {
        ModelType::Qwen => "<|fim_prefix|>"@ + prefix + "<|fim_suffix|>"@ + suffix
            + "<|fim_middle|>"@,
        ModelType::Unknown => prefix,
    }
}

/// Render the final prefix and suffix text into the model-specific prompt.
pub fn build_fim_prompt(prefix: &str, suffix: &str, model_type: ModelType) -> (r: String)
    ensures
        r@ == spec_fim_prompt(prefix@, suffix@, model_type),
{
    match model_type {
        ModelType::Qwen => {
            let mut s = String::from_str("<|fim_prefix|>");
            s.append(prefix);
            s.append("<|fim_suffix|>");
            s.append(suffix);
            s.append("<|fim_middle|>");
            proof {
                assert(s@ =~= spec_fim_prompt(prefix@, suffix@, ModelType::Qwen));
            }
            s
        },
        ModelType::Unknown => prefix.to_owned(),
    }
}

/// A known family's prompt embeds the prefix and the suffix each as one
/// contiguous run between the three 14-character markers; the `Unknown`
/// fallback is the prefix alone, so no suffix content reaches the prompt.
pub proof fn lemma_fim_prompt_shape(prefix: Seq<char>, suffix: Seq<char>)
    ensures
        spec_fim_prompt(prefix, suffix, ModelType::Qwen).len() == prefix.len() + suffix.len() + 42,
        spec_fim_prompt(prefix, suffix, ModelType::Qwen).subrange(14, 14 + prefix.len() as int)
            == prefix,
        spec_fim_prompt(prefix, suffix, ModelType::Qwen).subrange(
            28 + prefix.len() as int,
            28 + prefix.len() as int + suffix.len() as int,
        ) == suffix,
        spec_fim_prompt(prefix, suffix, ModelType::Unknown) == prefix,
{
    reveal_strlit("<|fim_prefix|>");
    reveal_strlit("<|fim_suffix|>");
    reveal_strlit("<|fim_middle|>");
    let p = spec_fim_prompt(prefix, suffix, ModelType::Qwen);
    assert(p.subrange(14, 14 + prefix.len() as int) =~= prefix);
    assert(p.subrange(28 + prefix.len() as int, 28 + prefix.len() as int + suffix.len() as int)
        =~= suffix);
}

/// The fixed stop-sequence set: common punctuation, bracket, operator and
/// whitespace boundaries, plus the end-of-text marker, in this order.
pub open spec fn spec_stop_tokens() -> Seq<Seq<char>> {
    seq![
        "("@, ")"@, "["@, "]"@, "{"@, "}"@, ","@, ":"@, ";"@, "."@,
        "+"@, "-"@, "*"@, "/"@, "%"@, "@"@, "="@, "<"@, ">"@, "!"@,
        "&"@, "|"@, "^"@, "~"@, "\n"@, "\t"@, " "@, "<|endoftext|>"@,
    ]
}

/// The stop sequences sent with every completion call, so completions end
/// at a natural token or statement boundary.
pub fn stop_tokens() -> (r: Vec<String>)
    ensures
        r.deep_view() == spec_stop_tokens(),
{
    let mut r: Vec<String> = Vec::new();
    r.push(String::from_str("("));
    r.push(String::from_str(")"));
    r.push(String::from_str("["));
    r.push(String::from_str("]"));
    r.push(String::from_str("{"));
    r.push(String::from_str("}"));
    r.push(String::from_str(","));
    r.push(String::from_str(":"));
    r.push(String::from_str(";"));
    r.push(String::from_str("."));
    r.push(String::from_str("+"));
    r.push(String::from_str("-"));
    r.push(String::from_str("*"));
    r.push(String::from_str("/"));
    r.push(String::from_str("%"));
    r.push(String::from_str("@"));
    r.push(String::from_str("="));
    r.push(String::from_str("<"));
    r.push(String::from_str(">"));
    r.push(String::from_str("!"));
    r.push(String::from_str("&"));
    r.push(String::from_str("|"));
    r.push(String::from_str("^"));
    r.push(String::from_str("~"));
    r.push(String::from_str("\n"));
    r.push(String::from_str("\t"));
    r.push(String::from_str(" "));
    r.push(String::from_str("<|endoftext|>"));
    proof {
        assert(r.deep_view() =~~= spec_stop_tokens());
    }
    r
}

} // verus!
