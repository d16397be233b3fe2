//! Address lists as they arrive from a form: one field may carry several
//! addresses joined by commas.

use vstd::prelude::*;
use crate::text::{
    chars_of, contains_char, find_from, first_position, is_whitespace, lemma_pieces_rejoin, pieces,
    trim_bounds, trimmed, trimmed_end, trimmed_start,
};

verus! {

/// The addresses that a comma-joined field holds: its pieces, each trimmed,
/// the empty ones left out.
pub open spec fn entries(s: Seq<char>) -> Seq<Seq<char>> {
    pieces(s, ',').map_values(|p: Seq<char>| trimmed(p)).filter(|p: Seq<char>| p.len() > 0)
}

/// An address list with the comma-joined form resolved: a list of exactly one
/// element that holds a comma stands for the entries of that element; every
/// other list stands for itself.
pub open spec fn normalized(addrs: Seq<Seq<char>>) -> Seq<Seq<char>> {
    if addrs.len() == 1 && addrs[0].contains(',') {
        entries(addrs[0])
    } else {
        addrs
    }
}

/// What one trimmed piece adds to the entries.
pub open spec fn kept(p: Seq<char>) -> Seq<Seq<char>> {
    if p.len() > 0 {
        seq![p]
    } else {
        Seq::empty()
    }
}

/// The entries of `s`, piece by piece from the left.
pub proof fn lemma_entries_unfold(s: Seq<char>)
    ensures
        first_position(s, ',') >= s.len() ==> entries(s) == kept(trimmed(s)),
        first_position(s, ',') < s.len() ==> entries(s) == kept(
            trimmed(s.take(first_position(s, ',') as int)),
        ) + entries(s.skip(first_position(s, ',') as int + 1)),
{
    let trim = |p: Seq<char>| trimmed(p);
    let keep = |p: Seq<char>| p.len() > 0;
    let i = first_position(s, ',') as int;
    let head = if i >= s.len() {
        s
    } else {
        s.take(i)
    };
    let one = seq![head];
    assert(one.map_values(trim) =~= seq![trimmed(head)]);
    Seq::<Seq<char>>::empty().lemma_filter_push(trimmed(head), keep);
    reveal(Seq::filter);
    if i < s.len() {
        let tail = pieces(s.skip(i + 1), ',');
        assert((one + tail).map_values(trim) =~= one.map_values(trim) + tail.map_values(trim));
        Seq::filter_distributes_over_add(one.map_values(trim), tail.map_values(trim), keep);
    }
}

/// Trimming takes characters away and adds none.
pub proof fn lemma_trimmed_holds_less(s: Seq<char>, c: char)
    requires
        trimmed(s).contains(c),
    ensures
        s.contains(c),
{
    lemma_trimmed_start_holds_less(s, c);
    lemma_trimmed_end_holds_less(trimmed_start(s), c);
}

proof fn lemma_trimmed_start_holds_less(s: Seq<char>, c: char)
    ensures
        trimmed_start(s).contains(c) ==> s.contains(c),
    decreases s.len(),
{
    if s.len() > 0 && is_whitespace(s[0]) {
        lemma_trimmed_start_holds_less(s.drop_first(), c);
        if s.drop_first().contains(c) {
            let k = choose|k: int| 0 <= k < s.drop_first().len() && s.drop_first()[k] == c;
            assert(s[k + 1] == c);
        }
    }
}

proof fn lemma_trimmed_end_holds_less(s: Seq<char>, c: char)
    ensures
        trimmed_end(s).contains(c) ==> s.contains(c),
    decreases s.len(),
{
    if s.len() > 0 && is_whitespace(s.last()) {
        lemma_trimmed_end_holds_less(s.drop_last(), c);
        if s.drop_last().contains(c) {
            let k = choose|k: int| 0 <= k < s.drop_last().len() && s.drop_last()[k] == c;
            assert(s[k] == c);
        }
    }
}

/// No entry is empty and none holds a comma.
pub proof fn lemma_entries_are_plain(s: Seq<char>)
    ensures
        forall|k: int|
            0 <= k < entries(s).len() ==> (#[trigger] entries(s)[k]).len() > 0 && !entries(
                s,
            )[k].contains(','),
{
    let trim = |p: Seq<char>| trimmed(p);
    let keep = |p: Seq<char>| p.len() > 0;
    let parts = pieces(s, ',');
    let all = parts.map_values(trim);
    lemma_pieces_rejoin(s, ',');
    assert forall|k: int| 0 <= k < entries(s).len() implies (#[trigger] entries(s)[k]).len() > 0
        && !entries(s)[k].contains(',') by {
        let e = entries(s)[k];
        all.lemma_filter_pred(keep, k);
        all.lemma_filter_contains_rev(keep, e);
        let j = choose|j: int| 0 <= j < all.len() && all[j] == e;
        assert(e == trimmed(parts[j]));
        if e.contains(',') {
            lemma_trimmed_holds_less(parts[j], ',');
        }
    }
}

/// Resolving the comma-joined form a second time changes nothing.
pub proof fn lemma_normalized_idempotent(addrs: Seq<Seq<char>>)
    ensures
        normalized(normalized(addrs)) == normalized(addrs),
{
    if addrs.len() == 1 && addrs[0].contains(',') {
        lemma_entries_are_plain(addrs[0]);
    }
}

/// A list that is not a single element comes through unchanged, whatever its
/// elements hold; so does a single element without a comma.
pub proof fn lemma_normalized_keeps_lists(addrs: Seq<Seq<char>>)
    requires
        addrs.len() != 1 || !addrs[0].contains(','),
    ensures
        normalized(addrs) == addrs,
{
}

/// The entries keep the order of the pieces they come from: of two entries,
/// the earlier one is the trimmed form of an earlier piece.
pub proof fn lemma_entries_keep_order(s: Seq<char>, i: int, j: int)
    requires
        0 <= i < j < entries(s).len(),
    ensures
        exists|p: int, q: int|
            0 <= p < q < pieces(s, ',').len() && entries(s)[i] == trimmed(
                #[trigger] pieces(s, ',')[p],
            ) && entries(s)[j] == trimmed(#[trigger] pieces(s, ',')[q]),
{
    let trim = |p: Seq<char>| trimmed(p);
    let keep = |p: Seq<char>| p.len() > 0;
    let parts = pieces(s, ',');
    let all = parts.map_values(trim);
    lemma_filter_keeps_order(all, keep, i, j);
    let (p, q) = choose|p: int, q: int|
        0 <= p < q < all.len() && all.filter(keep)[i] == #[trigger] all[p] && all.filter(keep)[j]
            == #[trigger] all[q];
    assert(entries(s)[i] == trimmed(parts[p]) && entries(s)[j] == trimmed(parts[q]));
}

proof fn lemma_filter_keeps_order(
    u: Seq<Seq<char>>,
    keep: spec_fn(Seq<char>) -> bool,
    i: int,
    j: int,
)
    requires
        0 <= i < j < u.filter(keep).len(),
    ensures
        exists|p: int, q: int|
            0 <= p < q < u.len() && u.filter(keep)[i] == #[trigger] u[p] && u.filter(keep)[j]
                == #[trigger] u[q],
    decreases u.len(),
{
    reveal(Seq::filter);
    let front = u.drop_last();
    let sub = front.filter(keep);
    if j < sub.len() {
        lemma_filter_keeps_order(front, keep, i, j);
        let (p, q) = choose|p: int, q: int|
            0 <= p < q < front.len() && sub[i] == #[trigger] front[p] && sub[j]
                == #[trigger] front[q];
        assert(u[p] == front[p] && u[q] == front[q]);
    } else {
        front.lemma_filter_contains_rev(keep, sub[i]);
        let p = choose|p: int| 0 <= p < front.len() && front[p] == sub[i];
        assert(u[p] == sub[i] && u.filter(keep)[j] == u[u.len() - 1]);
    }
}

/// The entries of a comma-joined field, in order.
fn split_entries(text: &str, chars: &Vec<char>) -> (out: Vec<String>)
    requires
        text@ == chars@,
    ensures
        out.deep_view() == entries(text@),
{
    let n = chars.len();
    let mut out: Vec<String> = Vec::new();
    let mut start: usize = 0;
    let mut done = false;
    proof {
        assert(chars@.skip(0) =~= chars@);
    }
    while !done
        invariant
            n == chars.len(),
            text@ == chars@,
            start <= n,
            !done ==> entries(chars@) == out.deep_view() + entries(chars@.skip(start as int)),
            done ==> entries(chars@) == out.deep_view(),
        decreases (n - start) + (if done { 0int } else { 1int }),
    {
        let stop = find_from(chars, start, ',');
        let (a, b) = trim_bounds(chars, start, stop);
        let ghost rest = chars@.skip(start as int);
        let ghost before = out.deep_view();
        proof {
            lemma_entries_unfold(rest);
            assert(chars@.subrange(start as int, stop as int) =~= rest.take(stop - start));
            if stop < n {
                assert(rest.skip(stop - start + 1) =~= chars@.skip(stop + 1));
            }
        }
        if a < b {
            let entry = text.substring_char(a, b).to_owned();
            out.push(entry);
        }
        if stop >= n {
            done = true;
        } else {
            start = stop + 1;
        }
    }
    out
}

/// Resolves the comma-joined form of an address list.
///
/// A form field may hold `"a@x.org,b@x.org"` where a list of two addresses is
/// meant. Such a single element is split at the commas, each piece trimmed and
/// the empty pieces dropped. A list of any other shape is returned as it is.
pub fn extract_addrs(addrs: &Vec<String>) -> (out: Vec<String>)
    ensures
        out.deep_view() == normalized(addrs.deep_view()),
{
    if addrs.len() == 1 {
        let text = addrs[0].as_str();
        let chars = chars_of(text);
        if contains_char(&chars, ',') {
            return split_entries(text, &chars);
        }
    }
    copy_list(addrs)
}

/// A copy of a list of strings.
pub fn copy_list(list: &Vec<String>) -> (out: Vec<String>)
    ensures
        out.deep_view() == list.deep_view(),
{
    let mut out: Vec<String> = Vec::new();
    let mut i: usize = 0;
    while i < list.len()
        invariant
            i <= list.len(),
            out.deep_view() == list.deep_view().take(i as int),
        decreases list.len() - i,
    {
        let ghost before = out.deep_view();
        out.push(list[i].clone());
        proof {
            assert(out.deep_view() =~= before.push(list.deep_view()[i as int]));
        }
        i = i + 1;
    }
    out
}

} // verus!
