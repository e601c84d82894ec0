//! Coercion of the model's raw text into a graph document.
use vstd::prelude::*;
use vstd::string::*;
use crate::json::{json_parse, parse_json};

verus! {

/// The characters that carry the Unicode `White_Space` property, which is
/// what `str::trim` strips.
pub open spec fn is_white_space(c: char) -> bool {
    ('\u{9}' <= c && c <= '\u{d}') || c == ' ' || c == '\u{85}' || c == '\u{a0}'
        || c == '\u{1680}' || ('\u{2000}' <= c && c <= '\u{200a}') || c == '\u{2028}'
        || c == '\u{2029}' || c == '\u{202f}' || c == '\u{205f}' || c == '\u{3000}'
}

/// Tells whether `c` carries the Unicode `White_Space` property.
pub fn white_space(c: char) -> (r: bool)
    ensures
        r == is_white_space(c),
{
    ('\u{9}' <= c && c <= '\u{d}') || c == ' ' || c == '\u{85}' || c == '\u{a0}'
        || c == '\u{1680}' || ('\u{2000}' <= c && c <= '\u{200a}') || c == '\u{2028}'
        || c == '\u{2029}' || c == '\u{202f}' || c == '\u{205f}' || c == '\u{3000}'
}

/// With surrounding white space trimmed, the text begins with `{` and ends
/// with `}`: it looks like one bare object rather than an array of them.
pub open spec fn looks_like_bare_object(s: Seq<char>) -> bool {
    exists|i: int, j: int|
        0 <= i < j < s.len() && #[trigger] s[i] == '{' && #[trigger] s[j] == '}'
            && (forall|k: int| 0 <= k < i ==> is_white_space(s[k]))
            && (forall|k: int| j < k < s.len() ==> is_white_space(s[k]))
}

/// Tells whether the text, trimmed, begins with `{` and ends with `}`.
pub fn bare_object(s: &str) -> (r: bool)
    ensures
        r == looks_like_bare_object(s@),
{
    let n = s.unicode_len();
    let mut i: usize = 0;
    while i < n && white_space(s.get_char(i))
        invariant
            n == s@.len(),
            i <= n,
            forall|k: int| 0 <= k < i ==> is_white_space(s@[k]),
        decreases n - i,
    {
        i = i + 1;
    }
    if i == n {
        return false;
    }
    let mut j: usize = n - 1;
    while white_space(s.get_char(j))
        invariant
            n == s@.len(),
            i <= j < n,
            !is_white_space(s@[i as int]),
            forall|k: int| j < k < n ==> is_white_space(s@[k]),
        decreases j,
    {
        j = j - 1;
    }
    let r = s.get_char(i) == '{' && s.get_char(j) == '}';
    if r {
        assert(looks_like_bare_object(s@));
    } else {
        assert(!looks_like_bare_object(s@)) by {
            assert forall|a: int, b: int|
                0 <= a < b < s@.len() && s@[a] == '{' && s@[b] == '}'
                implies !((forall|k: int| 0 <= k < a ==> is_white_space(s@[k]))
                    && (forall|k: int| b < k < s@.len() ==> is_white_space(s@[k]))) by {
                if (forall|k: int| 0 <= k < a ==> is_white_space(s@[k]))
                    && (forall|k: int| b < k < s@.len() ==> is_white_space(s@[k])) {
                    assert(!is_white_space(s@[a]));
                    assert(!is_white_space(s@[b]));
                }
            }
        }
    }
    r
}

/// The fixed message of a normalization failure.
pub const INVALID_SCHEMA: &'static str = "Invalid schema from Gemini";

/// The text of the bracket-repair attempt: the raw text wrapped as `[<text>]`.
pub open spec fn bracketed(raw: Seq<char>) -> Seq<char> {
    seq!['['] + raw + seq![']']
}

/// The document recovered from a raw text: the text itself parsed, else the
/// bracketed text parsed where the raw text looks like a bare object, else
/// nothing.
pub open spec fn recovered(raw: Seq<char>) -> Option<serde_json::Value> {
    if json_parse(raw) is Some {
        json_parse(raw)
    } else if looks_like_bare_object(raw) {
        json_parse(bracketed(raw))
    } else {
        None
    }
}

/// What becomes of one raw text from the model.
pub enum Outcome {
    /// The parsed value, whatever its shape.
    Document(serde_json::Value),
    /// Neither recovery stage parsed the text. `raw` is kept for the operator
    /// and never handed back to the caller.
    Failure { message: String, raw: String },
}

/// Builds `[<raw>]`.
pub fn bracket(raw: &str) -> (r: String)
    ensures
        r@ == bracketed(raw@),
{
    let mut r = String::from_str("[");
    r.append(raw);
    r.append("]");
    proof {
        reveal_strlit("[");
        reveal_strlit("]");
    }
    assert(r@ =~= bracketed(raw@));
    r
}

/// Coerces the model's raw text into a document: a direct parse first, then,
/// where the trimmed text is one bare object, a parse of the bracketed text.
/// It never fails to return: every text gets a document or a failure.
pub fn normalize(raw: &str) -> (out: Outcome)
    ensures
        match out {
            Outcome::Document(v) => recovered(raw@) == Some(v),
            Outcome::Failure { message, raw: kept } => recovered(raw@) is None
                && message@ == INVALID_SCHEMA@ && kept@ == raw@,
        },
        raw@.len() == 0 ==> out is Failure,
        raw@.len() > 0 && raw@[0] == '`' ==> out is Failure,
{
    match parse_json(raw) {
        Ok(v) => {
            return Outcome::Document(v);
        },
        Err(_) => {},
    }
    if bare_object(raw) {
        let text = bracket(raw);
        match parse_json(text.as_str()) {
            Ok(v) => {
                return Outcome::Document(v);
            },
            Err(_) => {},
        }
    } else {
        proof {
            if raw@.len() > 0 && raw@[0] == '`' {
                assert(!is_white_space(raw@[0]));
            }
        }
    }
    Outcome::Failure { message: String::from_str(INVALID_SCHEMA), raw: raw.to_string() }
}

/// A text that already parses comes through as exactly its parsed value.
pub proof fn lemma_pass_through(raw: Seq<char>)
    requires
        json_parse(raw) is Some,
    ensures
        recovered(raw) == json_parse(raw),
{
}

/// A text that does not parse but whose trimmed form is one bare object
/// comes through as the parsed value of `[<text>]`.
pub proof fn lemma_bracket_repair(raw: Seq<char>)
    requires
        json_parse(raw) is None,
        looks_like_bare_object(raw),
    ensures
        recovered(raw) == json_parse(bracketed(raw)),
{
}

/// A text that is neither parsed nor a bare object resolves to no document.
pub proof fn lemma_no_recovery(raw: Seq<char>)
    requires
        json_parse(raw) is None,
        !looks_like_bare_object(raw),
    ensures
        recovered(raw) is None,
{
}

/// Once a document has been recovered, any text that parses to that same
/// document is recovered as that document again.
pub proof fn lemma_resubmitted_document(raw: Seq<char>, text: Seq<char>)
    requires
        recovered(raw) is Some,
        json_parse(text) == recovered(raw),
    ensures
        recovered(text) == recovered(raw),
{
}

} // verus!
