//! Which product of an Electron user agent names the application.
use crate::electron::{
    application, is_runtime, is_word, product_at, product_is_unique, products, select_application,
};
use crate::text::{cut, pair_view, slices_view};
use crate::text_laws::{lemma_cut, lemma_cut_is};
use crate::user_agent::{electron_application, UserAgent};
use vstd::prelude::*;

verus! {

/// The five products that come with Electron.
pub open spec fn comes_with_electron(name: Seq<char>) -> bool {
    seq!["Mozilla"@, "AppleWebKit"@, "Chrome"@, "Electron"@, "Safari"@].contains(name)
}

/// The products that `raw` lists, each by where it begins, where its slash is and where it
/// ends: one after the other, and each other product that could be read begins within one
/// of them.
pub open spec fn is_listing(raw: Seq<char>, spans: Seq<(int, int, int)>) -> bool {
    is_listing_from(raw, 0, spans)
}

/// `at` is within one of the spans.
#[verifier::opaque]
pub open spec fn is_within(spans: Seq<(int, int, int)>, at: int) -> bool {
    exists|i: int| 0 <= i < spans.len() && (#[trigger] spans[i]).0 <= at < spans[i].2
}

/// The products that `raw` lists from a position on.
pub open spec fn is_listing_from(
    raw: Seq<char>,
    start: int,
    spans: Seq<(int, int, int)>,
) -> bool {
    &&& forall|i: int|
        0 <= i < spans.len() ==> product_at(
            raw,
            (#[trigger] spans[i]).0,
            spans[i].1,
            spans[i].2,
        ) && start <= spans[i].0
    &&& forall|i: int, j: int|
        0 <= i < j < spans.len() ==> (#[trigger] spans[i]).2 <= (#[trigger] spans[j]).0
    &&& forall|from: int, slash: int, to: int|
        start <= from && #[trigger] product_at(raw, from, slash, to) ==> is_within(spans, from)
}

/// The name of a product.
pub open spec fn name_in(raw: Seq<char>, span: (int, int, int)) -> Seq<char> {
    raw.subrange(span.0, span.1)
}

/// The version of a product.
pub open spec fn version_in(raw: Seq<char>, span: (int, int, int)) -> Seq<char> {
    raw.subrange(span.1 + 1, span.2)
}

/// The listed product at `at` is the first that does not come with Electron.
pub open spec fn names_application(
    raw: Seq<char>,
    spans: Seq<(int, int, int)>,
    at: int,
) -> bool {
    &&& 0 <= at < spans.len()
    &&& !comes_with_electron(name_in(raw, spans[at]))
    &&& forall|j: int| 0 <= j < at ==> comes_with_electron(name_in(raw, #[trigger] spans[j]))
}

/// All listed products come with Electron.
pub open spec fn names_no_application(raw: Seq<char>, spans: Seq<(int, int, int)>) -> bool {
    forall|j: int| 0 <= j < spans.len() ==> comes_with_electron(name_in(raw, #[trigger] spans[j]))
}

/// `p` is not an application's product: it comes with Electron, or is no product.
pub open spec fn is_passed_over(p: Seq<char>) -> bool {
    ||| !p.contains('/')
    ||| exists|name: Seq<char>, version: Seq<char>|
        comes_with_electron(name) && p == #[trigger] (name + seq!['/'] + version)
}

/// The runtime is what comes with Electron, and none of that has a slash in its name.
proof fn lemma_runtime(name: Seq<char>)
    ensures
        is_runtime(name) <==> comes_with_electron(name),
        comes_with_electron(name) ==> !name.contains('/'),
{
    let five = seq!["Mozilla"@, "AppleWebKit"@, "Chrome"@, "Electron"@, "Safari"@];
    assert(five[0] == "Mozilla"@ && five[1] == "AppleWebKit"@ && five[2] == "Chrome"@ && five[3]
        == "Electron"@ && five[4] == "Safari"@);
    reveal_strlit("Mozilla");
    reveal_strlit("AppleWebKit");
    reveal_strlit("Chrome");
    reveal_strlit("Electron");
    reveal_strlit("Safari");
}

/// What is passed over does not change which application there is.
proof fn lemma_passed_over(list: Seq<Seq<char>>)
    requires
        list.len() > 0,
        is_passed_over(list[0]),
    ensures
        application(list) == application(list.skip(1)),
{
    let p = list[0];
    lemma_cut(p, '/');
    if p.contains('/') {
        let (name, version) = choose|name: Seq<char>, version: Seq<char>|
            comes_with_electron(name) && p == #[trigger] (name + seq!['/'] + version);
        lemma_runtime(name);
        lemma_cut_is(name, '/', version);
    } else if let Some((head, tail)) = cut(p, '/') {
        assert(p[head.len() as int] == '/');
    }
}

/// The first that is not passed over names the application.
proof fn lemma_application(
    list: Seq<Seq<char>>,
    at: int,
    name: Seq<char>,
    version: Seq<char>,
)
    requires
        0 <= at < list.len(),
        list[at] == name + seq!['/'] + version,
        !name.contains('/'),
        !comes_with_electron(name),
        forall|j: int| 0 <= j < at ==> is_passed_over(#[trigger] list[j]),
    ensures
        application(list) == Some((name, version)),
    decreases at,
{
    if at == 0 {
        lemma_runtime(name);
        lemma_cut_is(name, '/', version);
    } else {
        assert(is_passed_over(list[0]));
        lemma_passed_over(list);
        let rest = list.skip(1);
        assert forall|j: int| 0 <= j < at - 1 implies is_passed_over(#[trigger] rest[j]) by {
            assert(rest[j] == list[j + 1]);
        }
        lemma_application(rest, at - 1, name, version);
    }
}

/// Where all are passed over there is no application.
proof fn lemma_no_application(list: Seq<Seq<char>>)
    requires
        forall|j: int| 0 <= j < list.len() ==> is_passed_over(#[trigger] list[j]),
    ensures
        application(list) is None,
    decreases list.len(),
{
    if list.len() > 0 {
        assert(is_passed_over(list[0]));
        lemma_passed_over(list);
        let rest = list.skip(1);
        assert forall|j: int| 0 <= j < rest.len() implies is_passed_over(#[trigger] rest[j]) by {
            assert(rest[j] == list[j + 1]);
        }
        lemma_no_application(rest);
    }
}

/// The application is the first of a list of products that does not come with Electron,
/// wherever it stands in the list; there is none where all come with it.
pub proof fn the_first_of_its_own_is_the_application(
    list: Vec<&str>,
    app: Option<(&str, &str)>,
    at: int,
    name: Seq<char>,
    version: Seq<char>,
)
    requires
        call_ensures(select_application, (&list,), app),
    ensures
        ({
            &&& 0 <= at < list@.len()
            &&& list@[at]@ == name + seq!['/'] + version
            &&& !name.contains('/')
            &&& !comes_with_electron(name)
            &&& forall|j: int| 0 <= j < at ==> is_passed_over((#[trigger] list@[j])@)
        }) ==> (app matches Some(a) && a.0@ == name && a.1@ == version),
        (forall|j: int| 0 <= j < list@.len() ==> is_passed_over((#[trigger] list@[j])@)) ==> app
            is None,
{
    let views = slices_view(list@);
    assert(pair_view(app) == application(views));
    assert(forall|j: int| 0 <= j < list@.len() ==> views[j] == (#[trigger] list@[j])@);
    if 0 <= at < list@.len() && list@[at]@ == name + seq!['/'] + version && !name.contains('/')
        && !comes_with_electron(name) && (forall|j: int|
        0 <= j < at ==> is_passed_over((#[trigger] list@[j])@)) {
        assert forall|j: int| 0 <= j < at implies is_passed_over(#[trigger] views[j]) by {
            assert(is_passed_over(list@[j]@));
        }
        assert(views[at] == list@[at]@);
        lemma_application(views, at, name, version);
    }
    if forall|j: int| 0 <= j < list@.len() ==> is_passed_over((#[trigger] list@[j])@) {
        assert forall|j: int| 0 <= j < views.len() implies is_passed_over(#[trigger] views[j]) by {
            assert(is_passed_over(list@[j]@));
        }
        lemma_no_application(views);
    }
}

/// The span that a position is within.
proof fn lemma_within(spans: Seq<(int, int, int)>, at: int) -> (i: int)
    requires
        is_within(spans, at),
    ensures
        0 <= i < spans.len(),
        spans[i].0 <= at < spans[i].2,
{
    reveal(is_within);
    choose|i: int| 0 <= i < spans.len() && (#[trigger] spans[i]).0 <= at < spans[i].2
}

/// A position that is within a span.
proof fn lemma_is_within(spans: Seq<(int, int, int)>, at: int, i: int)
    requires
        0 <= i < spans.len(),
        spans[i].0 <= at < spans[i].2,
    ensures
        is_within(spans, at),
{
    reveal(is_within);
}

/// The listed products are those that are found, from a position on.
proof fn lemma_listed(raw: Seq<char>, start: int, spans: Seq<(int, int, int)>)
    requires
        0 <= start,
        is_listing_from(raw, start, spans),
    ensures
        products(raw, start).len() == spans.len(),
        forall|i: int|
            0 <= i < spans.len() ==> #[trigger] products(raw, start)[i] == raw.subrange(
                spans[i].0,
                spans[i].2,
            ),
    decreases raw.len() - start,
{
    if start >= raw.len() {
        if spans.len() > 0 {
            assert(product_at(raw, spans[0].0, spans[0].1, spans[0].2));
        }
    } else if exists|slash: int, to: int| product_at(raw, start, slash, to) {
        let (slash, to) = choose|slash: int, to: int| product_at(raw, start, slash, to);
        let i = lemma_within(spans, start);
        assert(spans[i].0 == start);
        if i > 0 {
            assert(spans[0].2 <= spans[i].0);
            assert(product_at(raw, spans[0].0, spans[0].1, spans[0].2));
        }
        product_is_unique(raw, start, slash, to, spans[0].1, spans[0].2);
        let rest = spans.skip(1);
        assert forall|k: int| 0 <= k < rest.len() implies product_at(
            raw,
            (#[trigger] rest[k]).0,
            rest[k].1,
            rest[k].2,
        ) && to <= rest[k].0 by {
            assert(rest[k] == spans[k + 1]);
            assert(spans[0].2 <= spans[k + 1].0);
        }
        assert forall|k: int, l: int| 0 <= k < l < rest.len() implies (#[trigger] rest[k]).2 <= (
        #[trigger] rest[l]).0 by {
            assert(rest[k] == spans[k + 1] && rest[l] == spans[l + 1]);
        }
        assert forall|f: int, s: int, t: int|
            to <= f && #[trigger] product_at(raw, f, s, t) implies is_within(rest, f) by {
            let k = lemma_within(spans, f);
            assert(rest[k - 1] == spans[k]);
            lemma_is_within(rest, f, k - 1);
        }
        lemma_listed(raw, to, rest);
        let found = products(raw, start);
        assert(found == seq![raw.subrange(start, to)] + products(raw, to));
        assert forall|k: int| 0 <= k < spans.len() implies #[trigger] found[k] == raw.subrange(
            spans[k].0,
            spans[k].2,
        ) by {
            if k > 0 {
                assert(found[k] == products(raw, to)[k - 1]);
                assert(rest[k - 1] == spans[k]);
            }
        }
    } else {
        assert forall|k: int| 0 <= k < spans.len() implies product_at(
            raw,
            (#[trigger] spans[k]).0,
            spans[k].1,
            spans[k].2,
        ) && start + 1 <= spans[k].0 by {
            if spans[k].0 == start {
                assert(product_at(raw, start, spans[k].1, spans[k].2));
            }
        }
        assert(is_listing_from(raw, start + 1, spans));
        lemma_listed(raw, start + 1, spans);
        assert(products(raw, start) == products(raw, start + 1));
    }
}

/// A listing from a position on.
proof fn lemma_listing(raw: Seq<char>, start: int) -> (spans: Seq<(int, int, int)>)
    requires
        0 <= start,
    ensures
        is_listing_from(raw, start, spans),
    decreases raw.len() - start,
{
    if start >= raw.len() {
        Seq::empty()
    } else if exists|slash: int, to: int| product_at(raw, start, slash, to) {
        let (slash, to) = choose|slash: int, to: int| product_at(raw, start, slash, to);
        let rest = lemma_listing(raw, to);
        let spans = seq![(start, slash, to)] + rest;
        assert forall|k: int| 0 <= k < spans.len() implies product_at(
            raw,
            (#[trigger] spans[k]).0,
            spans[k].1,
            spans[k].2,
        ) && start <= spans[k].0 by {
            if k > 0 {
                assert(spans[k] == rest[k - 1]);
            }
        }
        assert forall|k: int, l: int| 0 <= k < l < spans.len() implies (#[trigger] spans[k]).2 <= (
        #[trigger] spans[l]).0 by {
            assert(spans[l] == rest[l - 1]);
            if k > 0 {
                assert(spans[k] == rest[k - 1]);
            }
        }
        assert forall|f: int, s: int, t: int|
            start <= f && #[trigger] product_at(raw, f, s, t) implies is_within(spans, f) by {
            if f < to {
                lemma_is_within(spans, f, 0);
            } else {
                let k = lemma_within(rest, f);
                assert(spans[k + 1] == rest[k]);
                lemma_is_within(spans, f, k + 1);
            }
        }
        spans
    } else {
        let spans = lemma_listing(raw, start + 1);
        assert forall|f: int, s: int, t: int|
            start <= f && #[trigger] product_at(raw, f, s, t) implies is_within(spans, f) by {
            assert(f != start);
        }
        spans
    }
}

/// Every header lists its products in some way, and either one of them names an
/// application or none does.
pub proof fn headers_list_their_products(raw: Seq<char>)
    ensures
        exists|spans: Seq<(int, int, int)>| #[trigger]
            is_listing(raw, spans) && (names_no_application(raw, spans) || exists|at: int|
                names_application(raw, spans, at)),
{
    let spans = lemma_listing(raw, 0);
    if !names_no_application(raw, spans) {
        let j = choose|j: int|
            0 <= j < spans.len() && !comes_with_electron(name_in(raw, #[trigger] spans[j]));
        lemma_first(raw, spans, j);
    }
    assert(is_listing(raw, spans));
}

/// Where one product does not come with Electron, one is the first.
proof fn lemma_first(raw: Seq<char>, spans: Seq<(int, int, int)>, j: int)
    requires
        0 <= j < spans.len(),
        !comes_with_electron(name_in(raw, spans[j])),
    ensures
        exists|at: int| names_application(raw, spans, at),
    decreases j,
{
    if forall|k: int| 0 <= k < j ==> comes_with_electron(name_in(raw, #[trigger] spans[k])) {
        assert(names_application(raw, spans, j));
    } else {
        let k = choose|k: int|
            0 <= k < j && !comes_with_electron(name_in(raw, #[trigger] spans[k]));
        lemma_first(raw, spans, k);
    }
}

/// A product is its name, a slash and its version.
proof fn lemma_span(raw: Seq<char>, span: (int, int, int))
    requires
        product_at(raw, span.0, span.1, span.2),
    ensures
        raw.subrange(span.0, span.2) == name_in(raw, span) + seq!['/'] + version_in(raw, span),
        !name_in(raw, span).contains('/'),
{
    let name = name_in(raw, span);
    assert(raw.subrange(span.0, span.2) =~= name + seq!['/'] + version_in(raw, span));
    assert(!is_word('/'));
    assert forall|k: int| 0 <= k < name.len() implies name[k] != '/' by {
        assert(is_word(raw[span.0 + k]));
    }
}

/// The application of a header is the first that it lists.
pub proof fn lemma_electron_application(raw: Seq<char>, spans: Seq<(int, int, int)>, at: int)
    requires
        is_listing(raw, spans),
    ensures
        names_application(raw, spans, at) ==> electron_application(raw) == Some(
            (name_in(raw, spans[at]), version_in(raw, spans[at])),
        ),
        names_no_application(raw, spans) ==> electron_application(raw) is None,
{
    lemma_listed(raw, 0, spans);
    let list = products(raw, 0);
    assert forall|j: int|
        0 <= j < spans.len() && comes_with_electron(
            name_in(raw, #[trigger] spans[j]),
        ) implies is_passed_over(list[j]) by {
        lemma_span(raw, spans[j]);
        let name = name_in(raw, spans[j]);
        let version = version_in(raw, spans[j]);
        assert(comes_with_electron(name) && list[j] == name + seq!['/'] + version);
    }
    if names_application(raw, spans, at) {
        lemma_span(raw, spans[at]);
        assert forall|j: int| 0 <= j < at implies is_passed_over(#[trigger] list[j]) by {
            assert(comes_with_electron(name_in(raw, spans[j])));
        }
        lemma_application(list, at, name_in(raw, spans[at]), version_in(raw, spans[at]));
    }
    if names_no_application(raw, spans) {
        assert forall|j: int| 0 <= j < list.len() implies is_passed_over(#[trigger] list[j]) by {
            assert(comes_with_electron(name_in(raw, spans[j])));
        }
        lemma_no_application(list);
    }
}

/// The application in a header is the first product that it lists and that does not come
/// with Electron; there is none where all come with it.
pub proof fn headers_name_their_application(
    user_agent: &str,
    app: Option<(&str, &str)>,
    spans: Seq<(int, int, int)>,
    at: int,
)
    requires
        call_ensures(UserAgent::parse_electron, (user_agent,), app),
        is_listing(user_agent@, spans),
    ensures
        names_application(user_agent@, spans, at) ==> (app matches Some(a) && a.0@ == name_in(
            user_agent@,
            spans[at],
        ) && a.1@ == version_in(user_agent@, spans[at])),
        names_no_application(user_agent@, spans) ==> app is None,
{
    lemma_electron_application(user_agent@, spans, at);
    assert(pair_view(app) == electron_application(user_agent@));
}

} // verus!
