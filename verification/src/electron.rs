//! Finding the application among the products that an Electron user agent lists.
use crate::text::{cut, equals, first_at, lemma_first_at_is, pair_view, slices_view, split_once};
use vstd::prelude::*;

verus! {

/// The form of the products that an Electron application lists: `name/version`.
pub const ELECTRON_PRODUCT: &'static str = r"(?m)\w+/[\w.]+";

/// Whether `\w` holds a character that is not ASCII: one that Unicode counts as
/// alphabetic, a mark, a decimal number, connector punctuation or a join control.
pub uninterp spec fn word_beyond_ascii(c: char) -> bool;

/// The characters that `\w` stands for.
pub open spec fn is_word(c: char) -> bool {
    if c <= '\u{7f}' {
        'a' <= c <= 'z' || 'A' <= c <= 'Z' || '0' <= c <= '9' || c == '_'
    } else {
        word_beyond_ascii(c)
    }
}

/// The characters that a product's version is made of.
pub open spec fn is_version_char(c: char) -> bool {
    is_word(c) || c == '.'
}

/// A product stands in `s` from `from` to `to`, with its slash at `slash`: a name of word
/// characters, and a version that runs as far as it can.
pub open spec fn product_at(s: Seq<char>, from: int, slash: int, to: int) -> bool {
    &&& 0 <= from < slash < to - 1 < s.len()
    &&& forall|k: int| from <= k < slash ==> is_word(#[trigger] s[k])
    &&& s[slash] == '/'
    &&& forall|k: int| slash < k < to ==> is_version_char(#[trigger] s[k])
    &&& to < s.len() ==> !is_version_char(s[to])
}

/// The products in `s` from position `from` on: the first that begins there or later, then
/// those after its end.
pub open spec fn products(s: Seq<char>, from: int) -> Seq<Seq<char>>
    decreases s.len() - from,
{
    if from >= s.len() {
        Seq::empty()
    } else if exists|slash: int, to: int| product_at(s, from, slash, to) {
        let (slash, to) = choose|slash: int, to: int| product_at(s, from, slash, to);
        seq![s.subrange(from, to)] + products(s, to)
    } else {
        products(s, from + 1)
    }
}

/// Lists the matches of [`ELECTRON_PRODUCT`] in a user agent, with `regex::Regex::new` and
/// `regex::Regex::find_iter`.
///
/// Taken on trust: the pattern is well formed, so that no call panics; matches are found
/// from left to right, do not overlap and take as much as they can; and of the ASCII
/// characters `\w` holds the letters, the digits and the underscore.
#[verifier::external_body]
pub(crate) fn find_products<'a>(pattern: &str, user_agent: &'a str) -> (found: Vec<&'a str>)
    requires
        pattern@ == ELECTRON_PRODUCT@,
    ensures
        slices_view(found@) == products(user_agent@, 0),
        forall|i: int, k: int|
            0 <= i < found@.len() && 0 <= k < found@[i]@.len() && #[trigger] found@[i]@[k]
                > '\u{7f}' ==> word_beyond_ascii(found@[i]@[k]),
{
    let regex = regex::Regex::new(pattern).unwrap();
    regex.find_iter(user_agent).map(|found| found.as_str()).collect()
}

/// A product ends where it ends: nothing else begins at the same place.
pub proof fn product_is_unique(
    s: Seq<char>,
    from: int,
    slash1: int,
    to1: int,
    slash2: int,
    to2: int,
)
    requires
        product_at(s, from, slash1, to1),
        product_at(s, from, slash2, to2),
    ensures
        slash1 == slash2,
        to1 == to2,
{
    assert(!is_word('/'));
    if slash1 < slash2 {
        assert(is_word(s[slash1]));
    }
    if slash2 < slash1 {
        assert(is_word(s[slash2]));
    }
    if to1 < to2 {
        assert(is_version_char(s[to1]));
    }
    if to2 < to1 {
        assert(is_version_char(s[to2]));
    }
}

/// `p` is a product that stands in `s`.
pub open spec fn is_product_of(p: Seq<char>, s: Seq<char>) -> bool {
    exists|from: int, slash: int, to: int|
        #[trigger] product_at(s, from, slash, to) && p == s.subrange(from, to)
}

/// Every product that is found stands in the string.
pub proof fn products_stand_in(s: Seq<char>, from: int)
    requires
        0 <= from,
    ensures
        forall|i: int|
            0 <= i < products(s, from).len() ==> is_product_of(#[trigger] products(s, from)[i], s),
    decreases s.len() - from,
{
    if from >= s.len() {
    } else if exists|slash: int, to: int| product_at(s, from, slash, to) {
        let (slash, to) = choose|slash: int, to: int| product_at(s, from, slash, to);
        products_stand_in(s, to);
        let head = s.subrange(from, to);
        assert(is_product_of(head, s));
        assert(products(s, from) == seq![head] + products(s, to));
        assert forall|i: int| 0 <= i < products(s, from).len() implies is_product_of(
            #[trigger] products(s, from)[i],
            s,
        ) by {
            if i > 0 {
                assert(products(s, from)[i] == products(s, to)[i - 1]);
            }
        }
    } else {
        products_stand_in(s, from + 1);
        assert(products(s, from) == products(s, from + 1));
    }
}

/// A product has a slash, with a name before it and a version behind.
pub proof fn products_have_two_sides(p: Seq<char>, s: Seq<char>)
    requires
        is_product_of(p, s),
    ensures
        p.contains('/'),
        0 < first_at(p, '/') < p.len() - 1,
{
    let (from, slash, to) = choose|from: int, slash: int, to: int|
        #[trigger] product_at(s, from, slash, to) && p == s.subrange(from, to);
    let at = slash - from;
    assert(p[at] == '/');
    assert(!is_word('/'));
    assert forall|k: int| 0 <= k < at implies p[k] != '/' by {
        assert(is_word(s[from + k]));
    }
    lemma_first_at_is(p, '/', at);
}

/// The products that every Electron application lists, beside its own.
pub open spec fn is_runtime(name: Seq<char>) -> bool {
    ||| name == "Mozilla"@
    ||| name == "AppleWebKit"@
    ||| name == "Chrome"@
    ||| name == "Electron"@
    ||| name == "Safari"@
}

/// The name and version of the first product that is not part of the runtime. What has no
/// slash is no product.
pub open spec fn application(list: Seq<Seq<char>>) -> Option<(Seq<char>, Seq<char>)>
    decreases list.len(),
{
    if list.len() == 0 {
        None
    } else {
        match cut(list[0], '/') {
            Some((name, version)) if !is_runtime(name) => Some((name, version)),
            _ => application(list.skip(1)),
        }
    }
}

/// Whether a product is part of the Electron runtime.
fn runtime(name: &str) -> (b: bool)
    ensures
        b == is_runtime(name@),
{
    equals(name, "Mozilla") || equals(name, "AppleWebKit") || equals(name, "Chrome") || equals(
        name,
        "Electron",
    ) || equals(name, "Safari")
}

/// Picks the application out of the products that it lists.
pub fn select_application<'a>(list: &Vec<&'a str>) -> (app: Option<(&'a str, &'a str)>)
    ensures
        pair_view(app) == application(slices_view(list@)),
{
    let ghost all = slices_view(list@);
    let n: usize = list.len();
    assert(all.skip(0) =~= all);
    for i in 0..n
        invariant
            n == list.len(),
            all == slices_view(list@),
            application(all.skip(i as int)) == application(all),
    {
        assert(all.skip(i as int)[0] == list[i as int]@);
        assert(all.skip(i as int).skip(1) =~= all.skip(i + 1));
        if let Some((name, version)) = split_once(list[i], '/') {
            if !runtime(name) {
                return Some((name, version));
            }
        }
    }
    None
}

} // verus!
