//! The file name under which an upload is attached.
//!
//! An upload comes with two names: a sanitized one, which is safe but has lost
//! its extension, and the raw one the client sent, which may hold anything at
//! all. The attachment is named by the safe name and carries the extension of
//! the raw name's last path component, so that no directory part or `..` of
//! the raw name can reach the result.

use vstd::prelude::*;
use crate::text::{chars_of, str_of};

verus! {

/// The index just behind the last `sep` in `s`, or 0 when `s` holds none.
pub open spec fn last_start(s: Seq<char>, sep: char) -> nat
    decreases s.len(),
{
    if s.len() == 0 {
        0
    } else if s.last() == sep {
        s.len()
    } else {
        last_start(s.drop_last(), sep)
    }
}

/// The last component of a path with `/` between its components. Empty
/// components and `.` are passed over; a path that ends in `..`, or has no
/// component left, has no file name.
pub open spec fn file_name(path: Seq<char>) -> Option<Seq<char>>
    decreases path.len(),
{
    let k = last_start(path, '/') as int;
    let tail = path.skip(k);
    if tail.len() == 0 || tail == seq!['.'] {
        if 0 < k <= path.len() {
            file_name(path.take(k - 1))
        } else {
            None
        }
    } else if tail == seq!['.', '.'] {
        None
    } else {
        Some(tail)
    }
}

/// The extension of a file name: what follows its last dot. A name without a
/// dot, or whose only dot is its first character, has none.
pub open spec fn extension(name: Seq<char>) -> Option<Seq<char>> {
    let d = last_start(name, '.') as int;
    if d <= 1 {
        None
    } else {
        Some(name.skip(d))
    }
}

/// The extension of the last component of a raw name, empty when there is
/// none.
pub open spec fn raw_extension(raw: Seq<char>) -> Seq<char> {
    match file_name(raw) {
        Some(name) => match extension(name) {
            Some(ext) => ext,
            None => Seq::empty(),
        },
        None => Seq::empty(),
    }
}

/// The name given to an upload without a safe name.
pub open spec fn fallback_name() -> Seq<char> {
    seq!['a', 't', 't', 'a', 'c', 'h', 'm', 'e', 'n', 't']
}

/// The name of an attachment: the safe name, followed by a dot and the raw
/// name's extension where that is not empty; `attachment` without a safe name.
pub open spec fn attachment_name(safe: Option<Seq<char>>, raw: Option<Seq<char>>) -> Seq<char> {
    match safe {
        None => fallback_name(),
        Some(base) => {
            let ext = match raw {
                Some(r) => raw_extension(r),
                None => Seq::empty(),
            };
            if ext.len() == 0 {
                base
            } else {
                base + seq!['.'] + ext
            }
        },
    }
}

/// `last_start` stays within the sequence, and nothing behind it is `sep`.
pub proof fn lemma_last_start(s: Seq<char>, sep: char)
    ensures
        last_start(s, sep) <= s.len(),
        last_start(s, sep) > 0 ==> s[last_start(s, sep) - 1] == sep,
        forall|j: int| last_start(s, sep) <= j < s.len() ==> s[j] != sep,
    decreases s.len(),
{
    if s.len() > 0 && s.last() != sep {
        let front = s.drop_last();
        lemma_last_start(front, sep);
        assert forall|j: int| last_start(s, sep) <= j < s.len() implies s[j] != sep by {
            if j < front.len() {
                assert(s[j] == front[j]);
            }
        }
    }
}

/// The extension of a raw name holds no `/`: it names no directory.
pub proof fn lemma_raw_extension_has_no_slash(raw: Seq<char>)
    ensures
        !raw_extension(raw).contains('/'),
    decreases raw.len(),
{
    lemma_last_start(raw, '/');
    let k = last_start(raw, '/') as int;
    let tail = raw.skip(k);
    if tail.len() == 0 || tail == seq!['.'] {
        if 0 < k <= raw.len() {
            lemma_raw_extension_has_no_slash(raw.take(k - 1));
        }
    } else if tail != seq!['.', '.'] {
        lemma_last_start(tail, '.');
    }
}

/// The index just behind the last `sep` in `chars[from..to]`, or `from`.
fn last_start_in(chars: &Vec<char>, from: usize, to: usize, sep: char) -> (r: usize)
    requires
        from <= to <= chars.len(),
    ensures
        from <= r <= to,
        r - from == last_start(chars@.subrange(from as int, to as int), sep),
{
    let mut i: usize = to;
    while i > from && chars[i - 1] != sep
        invariant
            from <= i <= to <= chars.len(),
            last_start(chars@.subrange(from as int, to as int), sep) == last_start(
                chars@.subrange(from as int, i as int),
                sep,
            ),
        decreases i - from,
    {
        proof {
            assert(chars@.subrange(from as int, i as int).drop_last() =~= chars@.subrange(
                from as int,
                i - 1,
            ));
        }
        i = i - 1;
    }
    i
}

/// The bounds of the file name of `chars`, where it has one.
fn file_name_bounds(chars: &Vec<char>) -> (r: Option<(usize, usize)>)
    ensures
        match r {
            Some((a, b)) => a <= b <= chars.len() && file_name(chars@) == Some(
                chars@.subrange(a as int, b as int),
            ),
            None => file_name(chars@) is None,
        },
{
    let mut end: usize = chars.len();
    proof {
        assert(chars@.take(end as int) =~= chars@);
    }
    loop
        invariant
            end <= chars.len(),
            file_name(chars@) == file_name(chars@.take(end as int)),
        decreases end,
    {
        let k = last_start_in(chars, 0, end, '/');
        proof {
            assert(chars@.take(end as int).skip(k as int) =~= chars@.subrange(k as int, end as int));
        }
        let ghost tail = chars@.subrange(k as int, end as int);
        let len = end - k;
        if len == 0 || (len == 1 && chars[k] == '.') {
            proof {
                if len == 1 {
                    assert(tail =~= seq!['.']);
                }
            }
            if k == 0 {
                return None;
            }
            proof {
                assert(chars@.take(end as int).take(k - 1) =~= chars@.take(k - 1));
            }
            end = k - 1;
        } else {
            proof {
                if len == 1 {
                    assert(tail[0] != '.');
                }
            }
            if len == 2 && chars[k] == '.' && chars[k + 1] == '.' {
                proof {
                    assert(tail =~= seq!['.', '.']);
                }
                return None;
            }
            return Some((k, end));
        }
    }
}

/// The extension of the last component of `raw`, empty when there is none.
pub fn extension_of_raw(raw: &str) -> (ext: String)
    ensures
        ext@ == raw_extension(raw@),
{
    let chars = chars_of(raw);
    match file_name_bounds(&chars) {
        None => String::new(),
        Some((a, b)) => {
            let d = last_start_in(&chars, a, b, '.');
            if d - a <= 1 {
                String::new()
            } else {
                raw.substring_char(d, b).to_owned()
            }
        },
    }
}

/// The name under which an upload is attached.
///
/// `safe` is the sanitized name, where the upload has one, and `raw` the name
/// as the client sent it. Only the extension of `raw` is used.
pub fn attachment_filename(safe: Option<&str>, raw: Option<&str>) -> (name: String)
    ensures
        name@ == attachment_name(str_of(safe), str_of(raw)),
{
    match safe {
        None => {
            proof {
                reveal_strlit("attachment");
            }
            "attachment".to_owned()
        },
        Some(base) => {
            let ext = match raw {
                Some(r) => extension_of_raw(r),
                None => String::new(),
            };
            let mut name = base.to_owned();
            if !ext.as_str().is_empty() {
                proof {
                    reveal_strlit(".");
                }
                name.append(".");
                name.append(ext.as_str());
            }
            name
        },
    }
}

} // verus!
