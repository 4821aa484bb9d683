//! Searching, cutting and trimming of strings, stated over their characters.
use vstd::prelude::*;

verus! {

/// The characters with the Unicode property `White_Space`.
pub open spec fn is_space(c: char) -> bool {
    ||| '\u{9}' <= c <= '\u{d}'
    ||| c == ' '
    ||| c == '\u{85}'
    ||| c == '\u{a0}'
    ||| c == '\u{1680}'
    ||| '\u{2000}' <= c <= '\u{200a}'
    ||| c == '\u{2028}'
    ||| c == '\u{2029}'
    ||| c == '\u{202f}'
    ||| c == '\u{205f}'
    ||| c == '\u{3000}'
}

/// `needle` stands in `hay` at position `at`.
pub open spec fn occurs_at(needle: Seq<char>, hay: Seq<char>, at: int) -> bool {
    &&& 0 <= at <= hay.len() - needle.len()
    &&& hay.subrange(at, at + needle.len()) == needle
}

/// `needle` stands somewhere in `hay`.
pub open spec fn occurs(needle: Seq<char>, hay: Seq<char>) -> bool {
    exists|at: int| occurs_at(needle, hay, at)
}

/// The position of the first `c` in `s`, or the length of `s` where there is none.
pub open spec fn first_at(s: Seq<char>, c: char) -> nat
    decreases s.len(),
{
    if s.len() == 0 || s[0] == c {
        0
    } else {
        1 + first_at(s.skip(1), c)
    }
}

/// What stands before and after the first `c`.
pub open spec fn cut(s: Seq<char>, c: char) -> Option<(Seq<char>, Seq<char>)> {
    let at = first_at(s, c);
    if at < s.len() {
        Some((s.take(at as int), s.skip((at + 1) as int)))
    } else {
        None
    }
}

/// The pieces of `s` between the separators `c`: one more than there are separators.
pub open spec fn pieces(s: Seq<char>, c: char) -> Seq<Seq<char>>
    decreases s.len(),
{
    let at = first_at(s, c);
    if at < s.len() {
        seq![s.take(at as int)] + pieces(s.skip((at + 1) as int), c)
    } else {
        seq![s]
    }
}

/// `s` without its leading whitespace.
pub open spec fn trimmed_start(s: Seq<char>) -> Seq<char>
    decreases s.len(),
{
    if s.len() > 0 && is_space(s[0]) {
        trimmed_start(s.skip(1))
    } else {
        s
    }
}

/// `s` without its trailing whitespace.
pub open spec fn trimmed_end(s: Seq<char>) -> Seq<char>
    decreases s.len(),
{
    if s.len() > 0 && is_space(s.last()) {
        trimmed_end(s.drop_last())
    } else {
        s
    }
}

/// `s` without whitespace at either end.
pub open spec fn trimmed(s: Seq<char>) -> Seq<char> {
    trimmed_end(trimmed_start(s))
}

/// What follows `prefix`, where `s` begins with it.
pub open spec fn after_prefix(s: Seq<char>, prefix: Seq<char>) -> Option<Seq<char>> {
    if prefix.is_prefix_of(s) {
        Some(s.skip(prefix.len() as int))
    } else {
        None
    }
}

/// What precedes `suffix`, where `s` ends with it.
pub open spec fn before_suffix(s: Seq<char>, suffix: Seq<char>) -> Option<Seq<char>> {
    if suffix.is_suffix_of(s) {
        Some(s.take(s.len() - suffix.len()))
    } else {
        None
    }
}

/// The views of the two halves of a cut.
pub open spec fn pair_view(p: Option<(&str, &str)>) -> Option<(Seq<char>, Seq<char>)> {
    match p {
        Some((a, b)) => Some((a@, b@)),
        None => None,
    }
}

/// The view of an optional string slice.
pub open spec fn slice_view(s: Option<&str>) -> Option<Seq<char>> {
    match s {
        Some(t) => Some(t@),
        None => None,
    }
}

/// The view of an optional string.
pub open spec fn string_view(s: Option<String>) -> Option<Seq<char>> {
    match s {
        Some(t) => Some(t@),
        None => None,
    }
}

/// The views of a list of string slices.
pub open spec fn slices_view(list: Seq<&str>) -> Seq<Seq<char>> {
    list.map_values(|s: &str| s@)
}

/// The first occurrence is the only position of `c` with none before it.
pub proof fn lemma_first_at(s: Seq<char>, c: char)
    ensures
        first_at(s, c) <= s.len(),
        forall|j: int| 0 <= j < first_at(s, c) ==> s[j] != c,
        first_at(s, c) < s.len() ==> s[first_at(s, c) as int] == c,
    decreases s.len(),
{
    if s.len() != 0 && s[0] != c {
        lemma_first_at(s.skip(1), c);
        assert forall|j: int| 0 <= j < first_at(s, c) implies s[j] != c by {
            if j > 0 {
                assert(s.skip(1)[j - 1] == s[j]);
            }
        }
    }
}

/// A position that holds `c` with none before it is the first one.
pub proof fn lemma_first_at_is(s: Seq<char>, c: char, at: int)
    requires
        0 <= at <= s.len(),
        forall|j: int| 0 <= j < at ==> s[j] != c,
        at < s.len() ==> s[at] == c,
    ensures
        first_at(s, c) == at,
{
    lemma_first_at(s, c);
}

/// Cutting at the first `c` after a piece that holds none gives back the piece.
pub proof fn lemma_pieces_of_joined(head: Seq<char>, c: char, tail: Seq<char>)
    requires
        !head.contains(c),
    ensures
        pieces(head + seq![c] + tail, c) == seq![head] + pieces(tail, c),
{
    let s = head + seq![c] + tail;
    assert forall|j: int| 0 <= j < head.len() implies s[j] != c by {
        assert(head[j] == s[j]);
    }
    lemma_first_at_is(s, c, head.len() as int);
    assert(s.take(head.len() as int) =~= head);
    assert(s.skip(head.len() as int + 1) =~= tail);
}

/// A string without separators is one piece.
pub proof fn lemma_pieces_of_one(s: Seq<char>, c: char)
    requires
        !s.contains(c),
    ensures
        pieces(s, c) == seq![s],
{
    lemma_first_at_is(s, c, s.len() as int);
}

/// A space in front does not survive trimming.
pub proof fn lemma_trimmed_skips_space(s: Seq<char>)
    ensures
        trimmed(seq![' '] + s) == trimmed(s),
{
    assert((seq![' '] + s).skip(1) =~= s);
}

/// Trimming the front leaves an end of the string that does not begin with whitespace.
proof fn lemma_trimmed_start(s: Seq<char>)
    ensures
        trimmed_start(s).is_suffix_of(s),
        trimmed_start(s).len() > 0 ==> !is_space(trimmed_start(s)[0]),
    decreases s.len(),
{
    if s.len() > 0 && is_space(s[0]) {
        lemma_trimmed_start(s.skip(1));
        let t = trimmed_start(s);
        assert(s.skip(1).skip(s.skip(1).len() - t.len()) =~= s.skip(s.len() - t.len()));
    } else {
        assert(s.skip(0) =~= s);
    }
}

/// Trimming the end leaves a beginning of the string that does not end with whitespace.
proof fn lemma_trimmed_end(s: Seq<char>)
    ensures
        trimmed_end(s).is_prefix_of(s),
        trimmed_end(s).len() > 0 ==> !is_space(trimmed_end(s).last()),
    decreases s.len(),
{
    if s.len() > 0 && is_space(s.last()) {
        lemma_trimmed_end(s.drop_last());
        let t = trimmed_end(s);
        assert(s.drop_last().take(t.len() as int) =~= s.take(t.len() as int));
    } else {
        assert(s.take(s.len() as int) =~= s);
    }
}

/// What is trimmed stands in the string, and neither begins nor ends with whitespace.
pub proof fn lemma_trimmed(s: Seq<char>)
    ensures
        occurs(trimmed(s), s),
        trimmed(s).len() > 0 ==> !is_space(trimmed(s)[0]) && !is_space(trimmed(s).last()),
{
    lemma_trimmed_start(s);
    let body = trimmed_start(s);
    lemma_trimmed_end(body);
    let t = trimmed(s);
    let at = s.len() - body.len();
    assert forall|k: int| 0 <= k < t.len() implies s[at + k] == t[k] by {
        assert(body.take(t.len() as int)[k] == t[k]);
        assert(s.skip(at)[k] == body[k]);
    }
    assert(s.subrange(at, at + t.len()) =~= t);
    assert(occurs_at(t, s, at));
}

/// Whether `c` is whitespace.
pub fn whitespace(c: char) -> (b: bool)
    ensures
        b == is_space(c),
{
    ('\u{9}' <= c && c <= '\u{d}') || c == ' ' || c == '\u{85}' || c == '\u{a0}' || c == '\u{1680}'
        || ('\u{2000}' <= c && c <= '\u{200a}') || c == '\u{2028}' || c == '\u{2029}' || c
        == '\u{202f}' || c == '\u{205f}' || c == '\u{3000}'
}

/// The characters of a string, in order.
fn chars_of(s: &str) -> (v: Vec<char>)
    ensures
        v@ == s@,
{
    let mut v: Vec<char> = Vec::new();
    let it = s.chars();
    for c in iter: it
        invariant
            iter.seq() == s@,
            v@ == s@.take(iter.index()),
    {
        v.push(c);
    }
    v
}

/// Whether two strings hold the same characters.
pub fn equals(a: &str, b: &str) -> (same: bool)
    ensures
        same == (a@ == b@),
{
    let x = chars_of(a);
    let y = chars_of(b);
    if x.len() != y.len() {
        return false;
    }
    let n: usize = x.len();
    for i in 0..n
        invariant
            n == x.len(),
            n == y.len(),
            x@ == a@,
            y@ == b@,
            forall|j: int| 0 <= j < i ==> x[j] == y[j],
    {
        if x[i] != y[i] {
            assert(a@[i as int] != b@[i as int]);
            return false;
        }
    }
    assert(a@ =~= b@);
    true
}

/// Whether `needle` stands somewhere in `hay`.
pub fn contains(hay: &str, needle: &str) -> (found: bool)
    ensures
        found == occurs(needle@, hay@),
{
    let h = chars_of(hay);
    let p = chars_of(needle);
    if p.len() > h.len() {
        return false;
    }
    let last: usize = h.len() - p.len();
    let mut at: usize = 0;
    while at <= last
        invariant
            h@ == hay@,
            p@ == needle@,
            p.len() <= h.len(),
            last == h.len() - p.len(),
            at <= last + 1,
            forall|k: int| 0 <= k < at ==> !occurs_at(needle@, hay@, k),
        decreases last + 1 - at,
    {
        if matches_at(&h, &p, at) {
            assert(occurs_at(needle@, hay@, at as int));
            return true;
        }
        if at == last {
            return false;
        }
        at += 1;
    }
    false
}

/// Whether the characters `p` stand in `h` at position `at`.
fn matches_at(h: &Vec<char>, p: &Vec<char>, at: usize) -> (found: bool)
    requires
        at + p.len() <= h.len(),
    ensures
        found == occurs_at(p@, h@, at as int),
{
    let n: usize = p.len();
    for i in 0..n
        invariant
            n == p.len(),
            at + p.len() <= h.len(),
            forall|j: int| 0 <= j < i ==> h[at + j] == p[j],
    {
        if h[at + i] != p[i] {
            assert(h@.subrange(at as int, at + p.len())[i as int] != p@[i as int]);
            return false;
        }
    }
    assert(h@.subrange(at as int, at + p.len()) =~= p@);
    true
}

/// The position of the first `c`, or the length where there is none.
fn find(h: &Vec<char>, c: char) -> (at: usize)
    ensures
        at == first_at(h@, c),
{
    let n: usize = h.len();
    for i in 0..n
        invariant
            n == h.len(),
            forall|j: int| 0 <= j < i ==> h[j] != c,
    {
        if h[i] == c {
            proof {
                lemma_first_at_is(h@, c, i as int);
            }
            return i;
        }
    }
    proof {
        lemma_first_at_is(h@, c, n as int);
    }
    n
}

/// Cuts a string at the first `c`, leaving the `c` out.
pub fn split_once<'a>(s: &'a str, c: char) -> (halves: Option<(&'a str, &'a str)>)
    ensures
        pair_view(halves) == cut(s@, c),
{
    let h = chars_of(s);
    let at = find(&h, c);
    if at < h.len() {
        Some((s.substring_char(0, at), s.substring_char(at + 1, h.len())))
    } else {
        None
    }
}

/// Splits a string at every `c`.
pub fn split<'a>(s: &'a str, c: char) -> (parts: Vec<&'a str>)
    ensures
        slices_view(parts@) == pieces(s@, c),
{
    let mut parts: Vec<&'a str> = Vec::new();
    let mut rest: &'a str = s;
    assert(slices_view(parts@) + pieces(rest@, c) =~= pieces(s@, c));
    loop
        invariant
            slices_view(parts@) + pieces(rest@, c) == pieces(s@, c),
        decreases rest@.len(),
    {
        let ghost before = slices_view(parts@);
        let ghost whole = rest@;
        proof {
            lemma_first_at(whole, c);
        }
        match split_once(rest, c) {
            Some((head, tail)) => {
                parts.push(head);
                rest = tail;
                assert(slices_view(parts@) =~= before.push(head@));
                assert(before + pieces(whole, c) =~= before.push(head@) + pieces(tail@, c));
            },
            None => {
                parts.push(rest);
                assert(slices_view(parts@) =~= before + pieces(whole, c));
                return parts;
            },
        }
    }
}

/// Takes the whitespace off both ends.
pub fn trim<'a>(s: &'a str) -> (t: &'a str)
    ensures
        t@ == trimmed(s@),
{
    let h = chars_of(s);
    let mut from: usize = 0;
    assert(s@.skip(0) =~= s@);
    while from < h.len() && whitespace(h[from])
        invariant
            h@ == s@,
            from <= h.len(),
            trimmed_start(s@.skip(from as int)) == trimmed_start(s@),
        decreases h.len() - from,
    {
        assert(s@.skip(from as int).skip(1) =~= s@.skip(from + 1));
        from += 1;
    }
    let ghost body = s@.skip(from as int);
    let mut to: usize = h.len();
    assert(body.take(body.len() as int) =~= body);
    while from < to && whitespace(h[to - 1])
        invariant
            h@ == s@,
            from <= to <= h.len(),
            body == s@.skip(from as int),
            trimmed_end(body.take(to - from)) == trimmed_end(body),
        decreases to,
    {
        assert(body.take(to - from).last() == h[to - 1]);
        assert(body.take(to - from).drop_last() =~= body.take(to - 1 - from));
        to -= 1;
    }
    assert(s@.subrange(from as int, to as int) =~= body.take(to - from));
    s.substring_char(from, to)
}

/// Takes `prefix` off the front of a string that begins with it.
pub fn strip_prefix<'a>(s: &'a str, prefix: &str) -> (rest: Option<&'a str>)
    ensures
        slice_view(rest) == after_prefix(s@, prefix@),
{
    let h = chars_of(s);
    let p = chars_of(prefix);
    if p.len() <= h.len() && matches_at(&h, &p, 0) {
        Some(s.substring_char(p.len(), h.len()))
    } else {
        None
    }
}

/// Takes `suffix` off the end of a string that ends with it.
pub fn strip_suffix<'a>(s: &'a str, suffix: &str) -> (rest: Option<&'a str>)
    ensures
        slice_view(rest) == before_suffix(s@, suffix@),
{
    let h = chars_of(s);
    let p = chars_of(suffix);
    if p.len() <= h.len() && matches_at(&h, &p, h.len() - p.len()) {
        Some(s.substring_char(0, h.len() - p.len()))
    } else {
        None
    }
}

} // verus!
