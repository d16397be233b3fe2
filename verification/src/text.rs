//! Character-level helpers: whitespace, trimming, searching and splitting.
//!
//! Strings are modelled by their sequence of characters. The executable
//! functions decode a `&str` once into a `Vec<char>` and work on indices.

use vstd::prelude::*;

verus! {

/// The view of an optional string.
pub open spec fn text_of(value: Option<String>) -> Option<Seq<char>> {
    match value {
        Some(s) => Some(s@),
        None => None,
    }
}

/// The view of an optional string slice.
pub open spec fn str_of(value: Option<&str>) -> Option<Seq<char>> {
    match value {
        Some(s) => Some(s@),
        None => None,
    }
}

/// Whether `c` carries the Unicode `White_Space` property.
pub open spec fn is_whitespace(c: char) -> bool {
    let u = c as u32;
    ||| 0x09 <= u <= 0x0D
    ||| u == 0x20
    ||| u == 0x85
    ||| u == 0xA0
    ||| u == 0x1680
    ||| 0x2000 <= u <= 0x200A
    ||| u == 0x2028
    ||| u == 0x2029
    ||| u == 0x202F
    ||| u == 0x205F
    ||| u == 0x3000
}

/// `s` without its leading whitespace.
pub open spec fn trimmed_start(s: Seq<char>) -> Seq<char>
    decreases s.len(),
{
    if s.len() > 0 && is_whitespace(s[0]) {
        trimmed_start(s.drop_first())
    } else {
        s
    }
}

/// `s` without its trailing whitespace.
pub open spec fn trimmed_end(s: Seq<char>) -> Seq<char>
    decreases s.len(),
{
    if s.len() > 0 && is_whitespace(s.last()) {
        trimmed_end(s.drop_last())
    } else {
        s
    }
}

/// `s` without leading and trailing whitespace.
pub open spec fn trimmed(s: Seq<char>) -> Seq<char> {
    trimmed_end(trimmed_start(s))
}

/// Whether a name can stand in one line of a header: trimmed, it holds no
/// line feed and no carriage return. No name at all is as good.
pub open spec fn one_line(name: Option<Seq<char>>) -> bool {
    match name {
        Some(text) => !trimmed(text).contains('\n') && !trimmed(text).contains('\r'),
        None => true,
    }
}

/// Index of the first `c` in `s`, or `s.len()` when `s` holds none.
pub open spec fn first_position(s: Seq<char>, c: char) -> nat
    decreases s.len(),
{
    if s.len() == 0 || s[0] == c {
        0
    } else {
        1 + first_position(s.drop_first(), c)
    }
}

/// The pieces of `s` between occurrences of `sep`, in order. There is always
/// at least one piece; a piece may be empty.
pub open spec fn pieces(s: Seq<char>, sep: char) -> Seq<Seq<char>>
    decreases s.len(),
{
    let i = first_position(s, sep) as int;
    if i >= s.len() {
        seq![s]
    } else {
        seq![s.take(i)] + pieces(s.skip(i + 1), sep)
    }
}

/// The pieces of `pieces(s, sep)` joined again with `sep` between them.
pub open spec fn joined(parts: Seq<Seq<char>>, sep: char) -> Seq<char>
    decreases parts.len(),
{
    if parts.len() == 0 {
        Seq::empty()
    } else if parts.len() == 1 {
        parts[0]
    } else {
        parts[0] + seq![sep] + joined(parts.drop_first(), sep)
    }
}

/// `first_position` is the least index that holds `c`.
pub proof fn lemma_first_position(s: Seq<char>, c: char)
    ensures
        first_position(s, c) <= s.len(),
        first_position(s, c) < s.len() ==> s[first_position(s, c) as int] == c,
        forall|j: int| 0 <= j < first_position(s, c) ==> s[j] != c,
        first_position(s, c) < s.len() <==> s.contains(c),
    decreases s.len(),
{
    if s.len() > 0 && s[0] != c {
        let rest = s.drop_first();
        lemma_first_position(rest, c);
        let p = first_position(rest, c);
        assert forall|j: int| 0 <= j < p + 1 implies s[j] != c by {
            if j > 0 {
                assert(s[j] == rest[j - 1]);
            }
        }
    }
}

/// An index that holds `c` with none before it is the first position.
pub proof fn lemma_first_position_is(s: Seq<char>, c: char, k: int)
    requires
        0 <= k <= s.len(),
        forall|j: int| 0 <= j < k ==> s[j] != c,
        k < s.len() ==> s[k] == c,
    ensures
        first_position(s, c) == k,
{
    lemma_first_position(s, c);
}

/// Splitting loses nothing and keeps the order: the pieces joined by the
/// separator are the input, and no piece holds the separator.
pub proof fn lemma_pieces_rejoin(s: Seq<char>, sep: char)
    ensures
        pieces(s, sep).len() >= 1,
        joined(pieces(s, sep), sep) == s,
        forall|k: int| 0 <= k < pieces(s, sep).len() ==> !(#[trigger] pieces(s, sep)[k]).contains(sep),
    decreases s.len(),
{
    lemma_first_position(s, sep);
    let i = first_position(s, sep) as int;
    if i < s.len() {
        let rest = s.skip(i + 1);
        lemma_pieces_rejoin(rest, sep);
        assert(pieces(s, sep).drop_first() =~= pieces(rest, sep));
    }
}

/// Decides `is_whitespace`.
pub fn is_whitespace_char(c: char) -> (r: bool)
    ensures
        r == is_whitespace(c),
{
    let u: u32 = c as u32;
    (0x09 <= u && u <= 0x0D) || u == 0x20 || u == 0x85 || u == 0xA0 || u == 0x1680 || (0x2000 <= u
        && u <= 0x200A) || u == 0x2028 || u == 0x2029 || u == 0x202F || u == 0x205F || u == 0x3000
}

/// The characters of `s`, decoded once.
pub fn chars_of(s: &str) -> (v: Vec<char>)
    ensures
        v@ == s@,
{
    let mut v: Vec<char> = Vec::new();
    for c in it: s.chars()
        invariant
            v@ == it.seq().take(it.index() as int),
            it.seq() == s@,
    {
        v.push(c);
    }
    v
}

/// Index of the first `c` at or after `from`, or `chars.len()`.
pub fn find_from(chars: &Vec<char>, from: usize, c: char) -> (i: usize)
    requires
        from <= chars.len(),
    ensures
        from <= i <= chars.len(),
        i - from == first_position(chars@.skip(from as int), c),
{
    let n = chars.len();
    let mut i: usize = from;
    while i < n && chars[i] != c
        invariant
            from <= i <= n,
            n == chars.len(),
            forall|j: int| from <= j < i ==> chars@[j] != c,
        decreases n - i,
    {
        i = i + 1;
    }
    proof {
        lemma_first_position_is(chars@.skip(from as int), c, i - from);
    }
    i
}

/// Whether `c` occurs in `chars`.
pub fn contains_char(chars: &Vec<char>, c: char) -> (r: bool)
    ensures
        r == chars@.contains(c),
{
    let i = find_from(chars, 0, c);
    proof {
        assert(chars@.skip(0) =~= chars@);
        lemma_first_position(chars@, c);
    }
    i < chars.len()
}

/// The bounds of `chars[from..to]` once leading and trailing whitespace is
/// left out.
pub fn trim_bounds(chars: &Vec<char>, from: usize, to: usize) -> (r: (usize, usize))
    requires
        from <= to <= chars.len(),
    ensures
        from <= r.0 <= r.1 <= to,
        chars@.subrange(r.0 as int, r.1 as int) == trimmed(chars@.subrange(from as int, to as int)),
{
    let mut a: usize = from;
    while a < to && is_whitespace_char(chars[a])
        invariant
            from <= a <= to <= chars.len(),
            trimmed_start(chars@.subrange(from as int, to as int)) == trimmed_start(
                chars@.subrange(a as int, to as int),
            ),
        decreases to - a,
    {
        proof {
            assert(chars@.subrange(a as int, to as int).drop_first() =~= chars@.subrange(
                a + 1,
                to as int,
            ));
        }
        a = a + 1;
    }
    let mut b: usize = to;
    while b > a && is_whitespace_char(chars[b - 1])
        invariant
            a <= b <= to <= chars.len(),
            trimmed_end(chars@.subrange(a as int, to as int)) == trimmed_end(
                chars@.subrange(a as int, b as int),
            ),
        decreases b - a,
    {
        proof {
            assert(chars@.subrange(a as int, b as int).drop_last() =~= chars@.subrange(
                a as int,
                b - 1,
            ));
        }
        b = b - 1;
    }
    (a, b)
}

/// `s` without leading and trailing whitespace.
pub fn trim(s: &str) -> (r: String)
    ensures
        r@ == trimmed(s@),
{
    let chars = chars_of(s);
    let (a, b) = trim_bounds(&chars, 0, chars.len());
    proof {
        assert(chars@.subrange(0, chars.len() as int) =~= chars@);
    }
    s.substring_char(a, b).to_owned()
}

/// Decides `one_line`.
pub fn is_one_line(name: Option<&str>) -> (r: bool)
    ensures
        r == one_line(str_of(name)),
{
    match name {
        None => true,
        Some(text) => {
            let chars = chars_of(text);
            let (a, b) = trim_bounds(&chars, 0, chars.len());
            let ghost kept = chars@.subrange(a as int, b as int);
            proof {
                assert(chars@.subrange(0, chars.len() as int) =~= chars@);
            }
            let mut i: usize = a;
            while i < b
                invariant
                    a <= i <= b <= chars.len(),
                    kept == chars@.subrange(a as int, b as int),
                    kept == trimmed(text@),
                    name == Some(text),
                    forall|j: int| 0 <= j < i - a ==> kept[j] != '\n' && kept[j] != '\r',
                decreases b - i,
            {
                if chars[i] == '\n' || chars[i] == '\r' {
                    proof {
                        assert(kept[i - a] == chars@[i as int]);
                        assert(kept.contains('\n') || kept.contains('\r'));
                    }
                    return false;
                }
                proof {
                    assert(kept[i - a] == chars@[i as int]);
                }
                i = i + 1;
            }
            true
        },
    }
}

} // verus!
