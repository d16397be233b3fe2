//! The API document that is served with the service carries a placeholder
//! for a description of the installation. This module fills it in.

use vstd::prelude::*;
use crate::text::{chars_of, str_of};

verus! {

/// `s` with every occurrence of `pattern` replaced by `with`. Occurrences are
/// found from the left and do not overlap. An empty pattern occurs nowhere.
pub open spec fn replaced(s: Seq<char>, pattern: Seq<char>, with: Seq<char>) -> Seq<char>
    decreases s.len(),
{
    if pattern.len() == 0 || s.len() < pattern.len() {
        s
    } else if s.take(pattern.len() as int) == pattern {
        with + replaced(s.skip(pattern.len() as int), pattern, with)
    } else {
        seq![s[0]] + replaced(s.skip(1), pattern, with)
    }
}

/// The placeholder in the API document.
pub open spec fn placeholder() -> Seq<char> {
    "%%%API_DOC_INFO%%%"@
}

/// The description that is used where none is configured.
pub open spec fn default_info() -> Seq<char> {
    "Send mails via REST API"@
}

/// The API document with the description filled in: the configured one, or
/// the default, with every `'` turned into `"`.
pub open spec fn api_doc(contents: Seq<char>, info: Option<Seq<char>>) -> Seq<char> {
    let description = match info {
        Some(text) => text,
        None => default_info(),
    };
    replaced(contents, placeholder(), replaced(description, "'"@, "\""@))
}

/// Whether `pattern` stands in `chars` at index `at`.
fn occurs_at(chars: &Vec<char>, at: usize, pattern: &Vec<char>) -> (r: bool)
    requires
        at <= chars.len(),
    ensures
        r == (chars@.len() - at >= pattern@.len() && chars@.skip(at as int).take(
            pattern@.len() as int,
        ) == pattern@),
{
    let m = pattern.len();
    if chars.len() - at < m {
        return false;
    }
    let ghost window = chars@.skip(at as int).take(m as int);
    let mut k: usize = 0;
    while k < m
        invariant
            k <= m,
            m == pattern.len(),
            at + m <= chars.len(),
            window == chars@.skip(at as int).take(m as int),
            forall|j: int| 0 <= j < k ==> window[j] == pattern@[j],
        decreases m - k,
    {
        if chars[at + k] != pattern[k] {
            return false;
        }
        k = k + 1;
    }
    proof {
        assert(window =~= pattern@);
    }
    true
}

/// `text` with every occurrence of `pattern` replaced by `with`.
fn replace_all(text: &str, pattern: &str, with: &str) -> (out: String)
    requires
        pattern@.len() > 0,
    ensures
        out@ == replaced(text@, pattern@, with@),
{
    let chars = chars_of(text);
    let wanted = chars_of(pattern);
    let n = chars.len();
    let m = wanted.len();
    let mut out = String::new();
    let mut kept_from: usize = 0;
    let mut i: usize = 0;
    proof {
        assert(chars@.skip(0) =~= chars@);
    }
    while i < n
        invariant
            kept_from <= i <= n,
            n == chars.len(),
            m == wanted.len(),
            m > 0,
            chars@ == text@,
            wanted@ == pattern@,
            replaced(chars@, pattern@, with@) == out@ + chars@.subrange(kept_from as int, i as int)
                + replaced(chars@.skip(i as int), pattern@, with@),
        decreases n - i,
    {
        let ghost rest = chars@.skip(i as int);
        if occurs_at(&chars, i, &wanted) {
            out.append(text.substring_char(kept_from, i));
            out.append(with);
            proof {
                assert(rest.skip(m as int) =~= chars@.skip(i + m));
            }
            i = i + m;
            kept_from = i;
        } else {
            proof {
                assert(rest.skip(1) =~= chars@.skip(i + 1));
            }
            i = i + 1;
        }
    }
    out.append(text.substring_char(kept_from, n));
    out
}

/// Fills the description of the installation into the API document.
///
/// `contents` is the document as it was read and `info` the configured
/// description, if there is one.
pub fn generate_api_doc(contents: &str, info: Option<&str>) -> (out: String)
    ensures
        out@ == api_doc(contents@, str_of(info)),
{
    let description = match info {
        Some(text) => text,
        None => "Send mails via REST API",
    };
    proof {
        reveal_strlit("'");
        reveal_strlit("%%%API_DOC_INFO%%%");
    }
    let quoted = replace_all(description, "'", "\"");
    replace_all(contents, "%%%API_DOC_INFO%%%", quoted.as_str())
}

} // verus!
