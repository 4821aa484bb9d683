//! What is read of the user agents that applications build for themselves: what was written
//! comes back, however it was padded and whatever follows it.
use crate::custom::{
    custom_parts, custom_parts_are_unique, model_name, platform, platform_view, read_segments,
    reads_as_custom, segment_list, split_custom, system_name,
};
use crate::detection::DetectionView;
use crate::text::{before_suffix, cut, lemma_pieces_of_one, pieces, slice_view, trimmed};
use crate::text_laws::{
    bare, blank, joined, lemma_cut, lemma_cut_is, lemma_occurs, lemma_padded, lemma_pieces,
    lemma_pieces_are, lemma_trimmed_is, none_holds, padded, shows, shows_slice, stands_in,
};
use crate::user_agent::{agent, custom_fields, detected_agent, UserAgent};
use vstd::prelude::*;

verus! {

/// `raw` is written `name/version (segments)`, on the lines that this form allows.
pub open spec fn written(
    raw: Seq<char>,
    name: Seq<char>,
    version: Seq<char>,
    segments: Seq<char>,
) -> bool {
    &&& raw == name + seq!['/'] + version + seq![' ', '('] + segments + seq![')']
    &&& name.len() > 0 && !name.contains('/')
    &&& version.len() > 0 && !version.contains(' ')
    &&& segments.len() > 0 && !segments.contains('\n')
}

/// `segments` is the texts, with whitespace around each or without, and semicolons between.
pub open spec fn separated(segments: Seq<char>, texts: Seq<Seq<char>>) -> bool {
    exists|parts: Seq<Seq<char>>|
        {
            &&& parts.len() == texts.len() > 0
            &&& #[trigger] none_holds(parts, ';')
            &&& joined(parts, ';') == segments
            &&& forall|i: int| 0 <= i < parts.len() ==> padded(#[trigger] parts[i], texts[i])
        }
}

/// Nothing, or what a slash begins.
pub open spec fn is_tail(s: Seq<char>) -> bool {
    s.len() == 0 || s[0] == '/'
}

/// `text` is a model, and behind it a build, if any: what a slash begins, or the word
/// `Build` and what a slash begins behind that.
pub open spec fn names_model(text: Seq<char>, model: Seq<char>) -> bool {
    &&& bare(model) && !model.contains('/')
    &&& exists|gap: Seq<char>, build: Seq<char>|
        {
            &&& blank(gap)
            &&& text == #[trigger] (model + gap + build)
            &&& {
                ||| is_tail(build) && !"Build"@.is_suffix_of(model + gap)
                ||| exists|tail: Seq<char>| is_tail(tail) && build == #[trigger] ("Build"@ + tail)
            }
        }
}

/// `text` is a system's name, and behind the first space its version, if any.
pub open spec fn names_system(text: Seq<char>, os: Seq<char>, version: Option<Seq<char>>) -> bool {
    &&& !os.contains(' ')
    &&& match version {
        Some(v) => text == os + seq![' '] + v,
        None => text == os,
    }
}

/// The list begins with `Linux; U`, and goes on for two texts at least.
pub open spec fn begins_like_android(texts: Seq<Seq<char>>) -> bool {
    texts.len() >= 4 && texts[0] == "Linux"@ && texts[1] == "U"@
}

/// The segments say which model it is, and which system it runs.
pub open spec fn says(
    segments: Seq<char>,
    model: Seq<char>,
    os: Seq<char>,
    os_version: Option<Seq<char>>,
) -> bool {
    exists|texts: Seq<Seq<char>>|
        {
            &&& #[trigger] separated(segments, texts)
            &&& texts.len() >= 2
            &&& if begins_like_android(texts) {
                names_model(texts[3], model) && names_system(texts[2], os, os_version)
            } else {
                names_model(texts[0], model) && names_system(texts[1], os, os_version)
            }
        }
}

/// A custom user agent that says what it runs on, and does not claim to be a browser.
pub open spec fn is_custom(raw: Seq<char>) -> bool {
    &&& !stands_in("Mozilla/"@, raw)
    &&& exists|name: Seq<char>, version: Seq<char>, segments: Seq<char>|
        #[trigger] written(raw, name, version, segments) && segments.contains(';')
}

/// The texts are what the segments are taken apart into.
proof fn lemma_segments(segments: Seq<char>, texts: Seq<Seq<char>>)
    requires
        separated(segments, texts),
    ensures
        segment_list(segments) == texts,
{
    let parts = choose|parts: Seq<Seq<char>>|
        {
            &&& parts.len() == texts.len() > 0
            &&& #[trigger] none_holds(parts, ';')
            &&& joined(parts, ';') == segments
            &&& forall|i: int| 0 <= i < parts.len() ==> padded(#[trigger] parts[i], texts[i])
        };
    lemma_pieces_are(parts, ';');
    assert forall|i: int| 0 <= i < parts.len() implies segment_list(segments)[i] == texts[i] by {
        assert(padded(parts[i], texts[i]));
        lemma_trimmed_is(parts[i], texts[i]);
    }
    assert(segment_list(segments) =~= texts);
}

/// What the segments are taken apart into are their texts.
proof fn lemma_separated(segments: Seq<char>)
    ensures
        separated(segments, segment_list(segments)),
{
    let parts = pieces(segments, ';');
    let texts = segment_list(segments);
    lemma_pieces(segments, ';');
    assert forall|i: int| 0 <= i < parts.len() implies padded(#[trigger] parts[i], texts[i]) by {
        lemma_padded(parts[i]);
        assert(texts[i] == trimmed(parts[i]));
    }
    assert(none_holds(parts, ';'));
}

/// There is more than one text exactly where there is a semicolon.
proof fn lemma_semicolons(segments: Seq<char>)
    ensures
        segment_list(segments).len() >= 2 <==> segments.contains(';'),
{
    let parts = pieces(segments, ';');
    lemma_pieces(segments, ';');
    if !segments.contains(';') {
        lemma_pieces_of_one(segments, ';');
    } else if parts.len() == 1 {
        assert(joined(parts, ';') == parts[0]);
    }
}

/// A model's name is what stands before the build.
proof fn lemma_model(text: Seq<char>, model: Seq<char>)
    requires
        names_model(text, model),
    ensures
        model_name(text) == model,
{
    let (gap, build) = choose|gap: Seq<char>, build: Seq<char>|
        {
            &&& blank(gap)
            &&& text == #[trigger] (model + gap + build)
            &&& {
                ||| is_tail(build) && !"Build"@.is_suffix_of(model + gap)
                ||| exists|tail: Seq<char>| is_tail(tail) && build == #[trigger] ("Build"@ + tail)
            }
        };
    let named = model + gap;
    assert(trimmed(named) == model) by {
        let none = Seq::<char>::empty();
        assert(named =~= none + model + gap);
        assert(blank(none) && blank(gap) && named == none + model + gap);
        lemma_trimmed_is(named, model);
    }
    assert(!named.contains('/')) by {
        assert forall|k: int| 0 <= k < named.len() implies named[k] != '/' by {
            if k < model.len() {
                assert(model[k] == named[k]);
            } else {
                assert(gap[k - model.len()] == named[k]);
            }
        }
    }
    if is_tail(build) && !"Build"@.is_suffix_of(named) {
        if build.len() == 0 {
            assert(text =~= named);
            lemma_cut_is(text, '/', text);
        } else {
            assert(text =~= named + seq!['/'] + build.skip(1));
            lemma_cut_is(named, '/', build.skip(1));
        }
    } else {
        let tail = choose|tail: Seq<char>| is_tail(tail) && build == #[trigger] ("Build"@ + tail);
        let head = named + "Build"@;
        reveal_strlit("Build");
        assert(!head.contains('/')) by {
            assert forall|k: int| 0 <= k < head.len() implies head[k] != '/' by {
                if k < named.len() {
                    assert(named[k] == head[k]);
                }
            }
        }
        if tail.len() == 0 {
            assert(text =~= head);
            lemma_cut_is(head, '/', head);
        } else {
            assert(text =~= head + seq!['/'] + tail.skip(1));
            lemma_cut_is(head, '/', tail.skip(1));
        }
        assert(head.skip(head.len() - "Build"@.len()) =~= "Build"@);
        assert("Build"@.is_suffix_of(head));
        assert(head.take(head.len() - "Build"@.len()) =~= named);
    }
}

/// Every text names a model.
proof fn lemma_names_model(text: Seq<char>)
    requires
        bare(text),
    ensures
        names_model(text, model_name(text)),
{
    lemma_cut(text, '/');
    let (head, tail) = match cut(text, '/') {
        Some((head, rest)) => (head, seq!['/'] + rest),
        None => (text, Seq::<char>::empty()),
    };
    assert(text =~= head + tail);
    let (named, build) = match before_suffix(head, "Build"@) {
        Some(bare) => (bare, "Build"@ + tail),
        None => (head, tail),
    };
    if "Build"@.is_suffix_of(head) {
        assert(head =~= named + "Build"@);
    }
    assert(text =~= named + build);
    let model = model_name(text);
    assert(model == trimmed(named));
    lemma_padded(named);
    let (front, gap) = choose|front: Seq<char>, back: Seq<char>|
        blank(front) && blank(back) && named == #[trigger] (front + model + back);
    if front.len() > 0 {
        assert(text[0] == front[0]);
    }
    assert(named =~= model + gap);
    assert(text =~= model + gap + build);
    assert forall|k: int| 0 <= k < model.len() implies model[k] != '/' by {
        assert(head[k] == model[k]);
    }
    if !"Build"@.is_suffix_of(head) {
        assert(is_tail(build) && !"Build"@.is_suffix_of(model + gap));
    } else {
        assert(is_tail(tail) && build == "Build"@ + tail);
    }
}

/// A system's name is what stands before the first space.
proof fn lemma_system(text: Seq<char>, os: Seq<char>, version: Option<Seq<char>>)
    requires
        names_system(text, os, version),
    ensures
        system_name(text) == (os, version),
{
    match version {
        Some(v) => lemma_cut_is(os, ' ', v),
        None => lemma_cut_is(os, ' ', os),
    }
}

/// What the segments say is what they are read as.
proof fn lemma_platform(
    segments: Seq<char>,
    model: Seq<char>,
    os: Seq<char>,
    os_version: Option<Seq<char>>,
)
    requires
        says(segments, model, os, os_version),
    ensures
        platform(segments) == Some((model, os, os_version)),
{
    let texts = choose|texts: Seq<Seq<char>>|
        {
            &&& #[trigger] separated(segments, texts)
            &&& texts.len() >= 2
            &&& if begins_like_android(texts) {
                names_model(texts[3], model) && names_system(texts[2], os, os_version)
            } else {
                names_model(texts[0], model) && names_system(texts[1], os, os_version)
            }
        };
    lemma_segments(segments, texts);
    if begins_like_android(texts) {
        lemma_model(texts[3], model);
        lemma_system(texts[2], os, os_version);
    } else {
        lemma_model(texts[0], model);
        lemma_system(texts[1], os, os_version);
    }
}

/// Segments with a semicolon always say something, and never two things.
pub proof fn segments_say_one_thing(segments: Seq<char>)
    requires
        segments.contains(';'),
    ensures
        exists|model: Seq<char>, os: Seq<char>, os_version: Option<Seq<char>>|
            says(segments, model, os, os_version),
        forall|
            m1: Seq<char>,
            o1: Seq<char>,
            v1: Option<Seq<char>>,
            m2: Seq<char>,
            o2: Seq<char>,
            v2: Option<Seq<char>>,
        |
            #[trigger] says(segments, m1, o1, v1) && #[trigger] says(segments, m2, o2, v2) ==> m1
                == m2 && o1 == o2 && v1 == v2,
{
    let texts = segment_list(segments);
    lemma_separated(segments);
    lemma_semicolons(segments);
    let (m, o) = if begins_like_android(texts) {
        (texts[3], texts[2])
    } else {
        (texts[0], texts[1])
    };
    assert(bare(m)) by {
        let i = if begins_like_android(texts) {
            3int
        } else {
            0int
        };
        lemma_padded(pieces(segments, ';')[i]);
    }
    lemma_names_model(m);
    lemma_cut(o, ' ');
    let (os, version) = system_name(o);
    if cut(o, ' ') is None {
        assert(names_system(o, os, None));
    }
    assert(names_system(o, os, version));
    assert(says(segments, model_name(m), os, version));
    assert forall|
        m1: Seq<char>,
        o1: Seq<char>,
        v1: Option<Seq<char>>,
        m2: Seq<char>,
        o2: Seq<char>,
        v2: Option<Seq<char>>,
    |
        #[trigger] says(segments, m1, o1, v1) && #[trigger] says(
            segments,
            m2,
            o2,
            v2,
        ) implies m1 == m2 && o1 == o2 && v1 == v2 by {
        lemma_platform(segments, m1, o1, v1);
        lemma_platform(segments, m2, o2, v2);
    }
}

/// Of a list of two texts or more, of any length, that does not begin with `Linux; U` and
/// two more, the first is the model and the second the system, whatever follows.
pub proof fn lists_begin_with_the_model(
    segments: &str,
    found: Option<(&str, &str, Option<&str>)>,
    texts: Seq<Seq<char>>,
    model: Seq<char>,
    os: Seq<char>,
    os_version: Option<Seq<char>>,
)
    requires
        call_ensures(read_segments, (segments,), found),
        separated(segments@, texts),
        texts.len() >= 2,
        texts.len() >= 4 ==> texts[0] != "Linux"@ || texts[1] != "U"@,
        names_model(texts[0], model),
        names_system(texts[1], os, os_version),
    ensures
        found matches Some(f) && f.0@ == model && f.1@ == os && shows_slice(f.2, os_version),
{
    assert(says(segments@, model, os, os_version));
    lemma_platform(segments@, model, os, os_version);
    assert(platform_view(found) == Some((model, os, os_version)));
}

/// Of a list of four texts or more, of any length, that begins with `Linux; U`, the third
/// is the system and the fourth the model, whatever follows.
pub proof fn android_lists_begin_with_the_system(
    segments: &str,
    found: Option<(&str, &str, Option<&str>)>,
    texts: Seq<Seq<char>>,
    model: Seq<char>,
    os: Seq<char>,
    os_version: Option<Seq<char>>,
)
    requires
        call_ensures(read_segments, (segments,), found),
        separated(segments@, texts),
        texts.len() >= 4,
        texts[0] == "Linux"@,
        texts[1] == "U"@,
        names_model(texts[3], model),
        names_system(texts[2], os, os_version),
    ensures
        found matches Some(f) && f.0@ == model && f.1@ == os && shows_slice(f.2, os_version),
{
    assert(says(segments@, model, os, os_version));
    lemma_platform(segments@, model, os, os_version);
    assert(platform_view(found) == Some((model, os, os_version)));
}

/// Something is read off the segments exactly where there is more than one.
pub proof fn one_segment_is_not_enough(
    segments: &str,
    found: Option<(&str, &str, Option<&str>)>,
)
    requires
        call_ensures(read_segments, (segments,), found),
    ensures
        found is Some <==> segments@.contains(';'),
{
    lemma_semicolons(segments@);
    assert(platform_view(found) == platform(segments@));
}

/// What is read off the segments does not change with what follows the texts that are read,
/// nor with the whitespace around any of them.
pub proof fn the_rest_of_a_list_does_not_matter(
    one: &str,
    other: &str,
    a: Option<(&str, &str, Option<&str>)>,
    b: Option<(&str, &str, Option<&str>)>,
    texts: Seq<Seq<char>>,
    more: Seq<Seq<char>>,
)
    requires
        call_ensures(read_segments, (one,), a),
        call_ensures(read_segments, (other,), b),
        texts.len() >= 4 || texts.len() >= 2 && (texts[0] != "Linux"@ || texts[1] != "U"@),
        separated(one@, texts),
        separated(other@, texts + more),
    ensures
        a matches Some(x) && b matches Some(y) && x.0@ == y.0@ && x.1@ == y.1@ && slice_view(x.2)
            == slice_view(y.2),
{
    lemma_segments(one@, texts);
    lemma_segments(other@, texts + more);
    assert(platform_view(a) == platform(one@));
    assert(platform_view(b) == platform(other@));
}

/// A user agent is split exactly where it is written `name/version (segments)`, and into
/// those parts.
pub proof fn splitting_undoes_writing(
    user_agent: &str,
    parts: Option<(&str, &str, &str)>,
    name: Seq<char>,
    version: Seq<char>,
    segments: Seq<char>,
)
    requires
        call_ensures(split_custom, (user_agent,), parts),
    ensures
        parts matches Some(p) ==> written(user_agent@, p.0@, p.1@, p.2@),
        written(user_agent@, name, version, segments) ==> (parts matches Some(p) && p.0@ == name
            && p.1@ == version && p.2@ == segments),
{
    if let Some(p) = parts {
        lemma_written(user_agent@, p.0@, p.1@, p.2@);
    }
    if written(user_agent@, name, version, segments) {
        custom_parts_are_unique(user_agent@, name, version, segments);
    }
}

/// The parts of a custom user agent are those that it was written from.
proof fn lemma_written(
    raw: Seq<char>,
    name: Seq<char>,
    version: Seq<char>,
    segments: Seq<char>,
)
    requires
        custom_parts(raw) == Some((name, version, segments)),
    ensures
        written(raw, name, version, segments),
{
    let (n, v, g) = choose|n: Seq<char>, v: Seq<char>, g: Seq<char>| reads_as_custom(raw, n, v, g);
    assert(reads_as_custom(raw, n, v, g));
    custom_parts_are_unique(raw, n, v, g);
}

/// A custom user agent gives what it was written from.
pub proof fn custom_fields_undo_writing(
    user_agent: &str,
    fields: Option<(&str, &str, &str, &str, Option<&str>)>,
    name: Seq<char>,
    version: Seq<char>,
    segments: Seq<char>,
    model: Seq<char>,
    os: Seq<char>,
    os_version: Option<Seq<char>>,
)
    requires
        call_ensures(UserAgent::parse_custom, (user_agent,), fields),
        written(user_agent@, name, version, segments),
    ensures
        fields is Some <==> segments.contains(';'),
        says(segments, model, os, os_version) ==> (fields matches Some(f) && f.0@ == name && f.1@
            == version && f.2@ == model && f.3@ == os && shows_slice(f.4, os_version)),
{
    custom_parts_are_unique(user_agent@, name, version, segments);
    lemma_semicolons(segments);
    if says(segments, model, os, os_version) {
        lemma_platform(segments, model, os, os_version);
    }
}

/// What is not written as a custom user agent gives nothing of the kind.
pub proof fn only_custom_agents_have_custom_fields(
    user_agent: &str,
    fields: Option<(&str, &str, &str, &str, Option<&str>)>,
)
    requires
        call_ensures(UserAgent::parse_custom, (user_agent,), fields),
    ensures
        fields matches Some(f) ==> exists|segments: Seq<char>| #[trigger]
            written(user_agent@, f.0@, f.1@, segments) && segments.contains(';'),
{
    if let Some(f) = fields {
        let (name, version, segments) = custom_parts(user_agent@)->0;
        lemma_written(user_agent@, name, version, segments);
        lemma_semicolons(segments);
        assert(written(user_agent@, f.0@, f.1@, segments) && segments.contains(';'));
    }
}

/// An application that does not claim to be a browser is reported as it was written,
/// whatever a detector would make of it. Where the model says `iPad` it is a tablet; else
/// on Android and iOS it is mobile; else the device is not known.
pub proof fn custom_agents_are_reported_as_written(
    user_agent: String,
    parsed: UserAgent,
    name: Seq<char>,
    version: Seq<char>,
    segments: Seq<char>,
    model: Seq<char>,
    os: Seq<char>,
    os_version: Option<Seq<char>>,
)
    requires
        call_ensures(UserAgent::parse, (user_agent,), parsed),
        !stands_in("Mozilla/"@, user_agent@),
        written(user_agent@, name, version, segments),
        says(segments, model, os, os_version),
    ensures
        shows(parsed.name, Some(name)),
        shows(parsed.version, Some(version)),
        shows(parsed.model, Some(model)),
        shows(parsed.os, Some(os)),
        shows(parsed.os_version, os_version),
        parsed.raw@ == user_agent@,
        parsed.device_type is Tablet <==> stands_in("iPad"@, model),
        parsed.device_type is Mobile <==> !stands_in("iPad"@, model) && (os == "Android"@ || os
            == "iOS"@),
        !(parsed.device_type is Pc),
{
    lemma_occurs("Mozilla/"@, user_agent@);
    lemma_occurs("iPad"@, model);
    custom_parts_are_unique(user_agent@, name, version, segments);
    lemma_platform(segments, model, os, os_version);
    let told = parsed@;
    assert(told.name == Some(name) && told.version == Some(version) && told.os == Some(os));
    assert(told.model == Some(model) && told.os_version == os_version);
}

/// What is not a custom user agent is left to the detector.
pub proof fn lemma_not_custom(raw: Seq<char>, found: Option<DetectionView>)
    requires
        !is_custom(raw),
    ensures
        agent(raw, found) == detected_agent(raw, found),
{
    lemma_occurs("Mozilla/"@, raw);
    if !stands_in("Mozilla/"@, raw) {
        if custom_fields(raw) is Some {
            let (name, version, segments) = custom_parts(raw)->0;
            lemma_written(raw, name, version, segments);
            lemma_semicolons(segments);
            assert(platform(segments) is Some);
            assert(written(raw, name, version, segments) && segments.contains(';'));
        }
    }
}

} // verus!
