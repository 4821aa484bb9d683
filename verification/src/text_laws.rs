//! What searching, cutting and trimming come to: what was put together is taken apart again.
use crate::text::{
    after_prefix, before_suffix, contains, cut, equals, first_at, is_space, lemma_first_at,
    lemma_first_at_is, lemma_pieces_of_joined, lemma_pieces_of_one, occurs, occurs_at, pair_view,
    pieces, slice_view, slices_view, split, split_once, strip_prefix, strip_suffix, trim, trimmed,
    trimmed_end, trimmed_start, whitespace,
};
use vstd::prelude::*;

verus! {

/// `hay` is `needle` with something before and something behind it, or with nothing.
pub open spec fn stands_in(needle: Seq<char>, hay: Seq<char>) -> bool {
    exists|front: Seq<char>, back: Seq<char>| hay == #[trigger] (front + needle + back)
}

/// The parts, with `c` between them.
pub open spec fn joined(parts: Seq<Seq<char>>, c: char) -> Seq<char>
    decreases parts.len(),
{
    if parts.len() == 0 {
        Seq::empty()
    } else if parts.len() == 1 {
        parts[0]
    } else {
        parts[0] + seq![c] + joined(parts.skip(1), c)
    }
}

/// No part holds `c`.
pub open spec fn none_holds(parts: Seq<Seq<char>>, c: char) -> bool {
    forall|i: int| 0 <= i < parts.len() ==> !(#[trigger] parts[i]).contains(c)
}

/// Nothing but whitespace.
pub open spec fn blank(s: Seq<char>) -> bool {
    forall|k: int| 0 <= k < s.len() ==> is_space(#[trigger] s[k])
}

/// No whitespace at either end.
pub open spec fn bare(s: Seq<char>) -> bool {
    s.len() > 0 ==> !is_space(s[0]) && !is_space(s.last())
}

/// `s` is `text` with whitespace around it, or without.
pub open spec fn padded(s: Seq<char>, text: Seq<char>) -> bool {
    bare(text) && exists|front: Seq<char>, back: Seq<char>|
        blank(front) && blank(back) && s == #[trigger] (front + text + back)
}

/// `field` holds `value`: the same characters, or nothing where there is nothing.
pub open spec fn shows(field: Option<String>, value: Option<Seq<char>>) -> bool {
    match (field, value) {
        (Some(s), Some(v)) => s@ == v,
        (None, None) => true,
        _ => false,
    }
}

/// `field` holds `value`: the same characters, or nothing where there is nothing.
pub open spec fn shows_slice(field: Option<&str>, value: Option<Seq<char>>) -> bool {
    match (field, value) {
        (Some(s), Some(v)) => s@ == v,
        (None, None) => true,
        _ => false,
    }
}

/// Standing in a string at some position is standing in it.
pub proof fn lemma_occurs(needle: Seq<char>, hay: Seq<char>)
    ensures
        occurs(needle, hay) <==> stands_in(needle, hay),
{
    if occurs(needle, hay) {
        let at = choose|at: int| occurs_at(needle, hay, at);
        let front = hay.take(at);
        let back = hay.skip(at + needle.len());
        assert(hay =~= front + needle + back);
    }
    if stands_in(needle, hay) {
        let (front, back) = choose|front: Seq<char>, back: Seq<char>|
            hay == #[trigger] (front + needle + back);
        let at = front.len() as int;
        assert(hay.subrange(at, at + needle.len()) =~= needle);
        assert(occurs_at(needle, hay, at));
    }
}

/// A string contains exactly what stands in it.
pub proof fn strings_contain_what_stands_in_them(hay: &str, needle: &str, found: bool)
    requires
        call_ensures(contains, (hay, needle), found),
    ensures
        found <==> stands_in(needle@, hay@),
{
    lemma_occurs(needle@, hay@);
}

/// Strings are equal where they are as long as each other and agree at every position.
pub proof fn equal_strings_agree_everywhere(a: &str, b: &str, same: bool)
    requires
        call_ensures(equals, (a, b), same),
    ensures
        same <==> a@.len() == b@.len() && forall|k: int| 0 <= k < a@.len() ==> a@[k] == b@[k],
{
    if a@.len() == b@.len() && (forall|k: int| 0 <= k < a@.len() ==> a@[k] == b@[k]) {
        assert(a@ =~= b@);
    }
}

/// The halves of a cut, with the separator between them, are the string; the separator is
/// not in the first half, and where there is no cut it is nowhere.
pub proof fn lemma_cut(s: Seq<char>, c: char)
    ensures
        match cut(s, c) {
            Some((head, tail)) => s == head + seq![c] + tail && !head.contains(c),
            None => !s.contains(c),
        },
{
    lemma_first_at(s, c);
    let at = first_at(s, c) as int;
    if at < s.len() {
        assert(s =~= s.take(at) + seq![c] + s.skip(at + 1));
    }
}

/// A string that was put together around its first `c` is cut there.
pub proof fn lemma_cut_is(head: Seq<char>, c: char, tail: Seq<char>)
    requires
        !head.contains(c),
    ensures
        cut(head + seq![c] + tail, c) == Some((head, tail)),
        cut(head, c) is None,
{
    let s = head + seq![c] + tail;
    assert forall|j: int| 0 <= j < head.len() implies s[j] != c by {
        assert(head[j] == s[j]);
    }
    lemma_first_at_is(s, c, head.len() as int);
    assert(s.take(head.len() as int) =~= head);
    assert(s.skip(head.len() as int + 1) =~= tail);
    lemma_first_at_is(head, c, head.len() as int);
}

/// A string is cut at its first `c` and nowhere else: the halves around it make up the
/// string, and the first half has no `c`. It is not cut where it has none.
pub proof fn strings_are_cut_once(s: &str, c: char, halves: Option<(&str, &str)>)
    requires
        call_ensures(split_once, (s, c), halves),
    ensures
        match halves {
            Some((head, tail)) => s@ == head@ + seq![c] + tail@ && !head@.contains(c),
            None => !s@.contains(c),
        },
{
    lemma_cut(s@, c);
    assert(pair_view(halves) == cut(s@, c));
}

/// The pieces, joined, are the string, and none holds the separator.
pub proof fn lemma_pieces(s: Seq<char>, c: char)
    ensures
        pieces(s, c).len() > 0,
        joined(pieces(s, c), c) == s,
        none_holds(pieces(s, c), c),
    decreases s.len(),
{
    lemma_first_at(s, c);
    let at = first_at(s, c) as int;
    if at < s.len() {
        let rest = s.skip(at + 1);
        lemma_pieces(rest, c);
        let all = pieces(s, c);
        assert(all == seq![s.take(at)] + pieces(rest, c));
        assert(all.skip(1) =~= pieces(rest, c));
        assert(s =~= s.take(at) + seq![c] + rest);
        assert forall|i: int| 0 <= i < all.len() implies !(#[trigger] all[i]).contains(c) by {
            if i > 0 {
                assert(all[i] == pieces(rest, c)[i - 1]);
            }
        }
    }
}

/// What was joined comes apart into the same pieces.
pub proof fn lemma_pieces_are(parts: Seq<Seq<char>>, c: char)
    requires
        parts.len() > 0,
        none_holds(parts, c),
    ensures
        pieces(joined(parts, c), c) == parts,
    decreases parts.len(),
{
    if parts.len() == 1 {
        lemma_pieces_of_one(parts[0], c);
        assert(parts =~= seq![parts[0]]);
    } else {
        let rest = parts.skip(1);
        assert forall|i: int| 0 <= i < rest.len() implies !(#[trigger] rest[i]).contains(c) by {
            assert(rest[i] == parts[i + 1]);
        }
        lemma_pieces_are(rest, c);
        lemma_pieces_of_joined(parts[0], c, joined(rest, c));
        assert(parts =~= seq![parts[0]] + rest);
    }
}

/// Splitting undoes joining: there is at least one part, none holds the separator, and
/// joined by it they are the string.
pub proof fn splitting_undoes_joining(s: &str, c: char, parts: Vec<&str>)
    requires
        call_ensures(split, (s, c), parts),
    ensures
        parts@.len() > 0,
        joined(Seq::new(parts@.len(), |i: int| parts@[i]@), c) == s@,
        forall|i: int| 0 <= i < parts@.len() ==> !(#[trigger] parts@[i])@.contains(c),
{
    lemma_pieces(s@, c);
    let views = Seq::new(parts@.len(), |i: int| parts@[i]@);
    assert(slices_view(parts@) =~= views);
    assert forall|i: int| 0 <= i < parts@.len() implies !(#[trigger] parts@[i])@.contains(c) by {
        assert(views[i] == parts@[i]@);
        assert(!views[i].contains(c));
    }
}

/// Whitespace in front is taken off.
proof fn lemma_trimmed_start_is(front: Seq<char>, s: Seq<char>)
    requires
        blank(front),
        s.len() > 0 ==> !is_space(s[0]),
    ensures
        trimmed_start(front + s) == s,
    decreases front.len(),
{
    let all = front + s;
    if front.len() == 0 {
        assert(all =~= s);
    } else {
        let rest = front.skip(1);
        assert(is_space(front[0]));
        assert(all[0] == front[0]);
        assert(all.skip(1) =~= rest + s);
        assert forall|k: int| 0 <= k < rest.len() implies is_space(#[trigger] rest[k]) by {
            assert(rest[k] == front[k + 1]);
        }
        lemma_trimmed_start_is(rest, s);
    }
}

/// Whitespace behind is taken off.
proof fn lemma_trimmed_end_is(s: Seq<char>, back: Seq<char>)
    requires
        blank(back),
        s.len() > 0 ==> !is_space(s.last()),
    ensures
        trimmed_end(s + back) == s,
    decreases back.len(),
{
    let all = s + back;
    if back.len() == 0 {
        assert(all =~= s);
    } else {
        let rest = back.drop_last();
        assert(is_space(back[back.len() - 1]));
        assert(all.last() == back[back.len() - 1]);
        assert(all.drop_last() =~= s + rest);
        assert forall|k: int| 0 <= k < rest.len() implies is_space(#[trigger] rest[k]) by {
            assert(rest[k] == back[k]);
        }
        lemma_trimmed_end_is(s, rest);
    }
}

/// What was padded is trimmed to what it was before.
pub proof fn lemma_trimmed_is(s: Seq<char>, text: Seq<char>)
    requires
        padded(s, text),
    ensures
        trimmed(s) == text,
{
    let (front, back) = choose|front: Seq<char>, back: Seq<char>|
        blank(front) && blank(back) && s == #[trigger] (front + text + back);
    if text.len() == 0 {
        let space = front + back;
        assert(s =~= space + text);
        assert forall|k: int| 0 <= k < space.len() implies is_space(#[trigger] space[k]) by {
            if k < front.len() {
                assert(space[k] == front[k]);
            } else {
                assert(space[k] == back[k - front.len()]);
            }
        }
        lemma_trimmed_start_is(space, text);
        assert(text =~= Seq::<char>::empty());
    } else {
        assert(s =~= front + (text + back));
        assert((text + back)[0] == text[0]);
        lemma_trimmed_start_is(front, text + back);
        lemma_trimmed_end_is(text, back);
    }
}

/// The whitespace that is taken off the front, and the rest.
proof fn lemma_front(s: Seq<char>) -> (front: Seq<char>)
    ensures
        blank(front),
        s == front + trimmed_start(s),
        trimmed_start(s).len() > 0 ==> !is_space(trimmed_start(s)[0]),
    decreases s.len(),
{
    if s.len() > 0 && is_space(s[0]) {
        let front = lemma_front(s.skip(1));
        let all = seq![s[0]] + front;
        assert(s =~= all + trimmed_start(s)) by {
            assert(s =~= seq![s[0]] + s.skip(1));
        }
        assert forall|k: int| 0 <= k < all.len() implies is_space(#[trigger] all[k]) by {
            if k > 0 {
                assert(all[k] == front[k - 1]);
            }
        }
        all
    } else {
        assert(s =~= Seq::<char>::empty() + s);
        Seq::empty()
    }
}

/// The whitespace that is taken off the end, and the rest.
proof fn lemma_back(s: Seq<char>) -> (back: Seq<char>)
    ensures
        blank(back),
        s == trimmed_end(s) + back,
        trimmed_end(s).len() > 0 ==> !is_space(trimmed_end(s).last()),
    decreases s.len(),
{
    if s.len() > 0 && is_space(s.last()) {
        let back = lemma_back(s.drop_last());
        let all = back.push(s.last());
        assert(s =~= trimmed_end(s) + all) by {
            assert(s =~= s.drop_last().push(s.last()));
        }
        assert forall|k: int| 0 <= k < all.len() implies is_space(#[trigger] all[k]) by {
            if k < back.len() {
                assert(all[k] == back[k]);
            }
        }
        all
    } else {
        assert(s =~= s + Seq::<char>::empty());
        Seq::empty()
    }
}

/// Every string is what it is trimmed to, with whitespace around it.
pub proof fn lemma_padded(s: Seq<char>)
    ensures
        padded(s, trimmed(s)),
{
    let front = lemma_front(s);
    let body = trimmed_start(s);
    let back = lemma_back(body);
    let text = trimmed(s);
    assert(s =~= front + text + back);
    if text.len() > 0 {
        assert(text[0] == body[0]);
    }
    assert(blank(front) && blank(back) && s == front + text + back);
}

/// Trimming takes off the whitespace around a text, all of it, and nothing else.
pub proof fn trimming_undoes_padding(s: &str, t: &str, text: Seq<char>)
    requires
        call_ensures(trim, (s,), t),
    ensures
        padded(s@, t@),
        padded(s@, text) ==> t@ == text,
{
    lemma_padded(s@);
    if padded(s@, text) {
        lemma_trimmed_is(s@, text);
    }
}

/// No letter, digit or mark of the forms that are read here is whitespace; the space and
/// the control characters that move the line are.
pub proof fn spaces_are_no_marks(c: char, b: bool)
    requires
        call_ensures(whitespace, (c,), b),
    ensures
        '!' <= c <= '~' ==> !b,
        c == ' ' || c == '\t' || c == '\n' || c == '\r' ==> b,
{
}

/// A prefix is taken off exactly where it is one, and what is left follows it.
pub proof fn prefixes_are_taken_off(
    s: &str,
    prefix: &str,
    rest: Option<&str>,
    other: Seq<char>,
)
    requires
        call_ensures(strip_prefix, (s, prefix), rest),
    ensures
        rest matches Some(r) ==> s@ == prefix@ + r@,
        s@ == prefix@ + other ==> shows_slice(rest, Some(other)),
{
    assert(slice_view(rest) == after_prefix(s@, prefix@));
    if prefix@.is_prefix_of(s@) {
        assert(s@ =~= prefix@ + s@.skip(prefix@.len() as int));
    }
    if s@ == prefix@ + other {
        assert(s@.take(prefix@.len() as int) =~= prefix@);
        assert(prefix@.is_prefix_of(s@));
        assert(s@.skip(prefix@.len() as int) =~= other);
    }
}

/// A suffix is taken off exactly where it is one, and what is left precedes it.
pub proof fn suffixes_are_taken_off(
    s: &str,
    suffix: &str,
    rest: Option<&str>,
    other: Seq<char>,
)
    requires
        call_ensures(strip_suffix, (s, suffix), rest),
    ensures
        rest matches Some(r) ==> s@ == r@ + suffix@,
        s@ == other + suffix@ ==> shows_slice(rest, Some(other)),
{
    assert(slice_view(rest) == before_suffix(s@, suffix@));
    if suffix@.is_suffix_of(s@) {
        assert(s@ =~= s@.take(s@.len() - suffix@.len()) + suffix@);
    }
    if s@ == other + suffix@ {
        assert(s@.skip(s@.len() - suffix@.len()) =~= suffix@);
        assert(suffix@.is_suffix_of(s@));
        assert(s@.take(s@.len() - suffix@.len()) =~= other);
    }
}

} // verus!
