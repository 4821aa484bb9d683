//! The user agents that applications build for themselves:
//! `name/version (segment; segment; ...)`.
use crate::text::{
    before_suffix, cut, equals, pieces, slice_view, slices_view, split, split_once, strip_suffix,
    trim, trimmed,
};
use vstd::prelude::*;

verus! {

/// The form of the agents that applications build for themselves:
/// `name/version (segment; segment; ...)`.
pub const CUSTOM_USER_AGENT: &'static str =
    r"^(?P<name>[^/]+)/(?P<version>[^ ]+) \((?P<segments>.+)\)$";

/// `s` reads `name/version (segments)`, where the name runs to the first slash, the
/// version to the first space after it, and the segments fill the rest of one line.
pub open spec fn reads_as_custom(
    s: Seq<char>,
    name: Seq<char>,
    version: Seq<char>,
    segments: Seq<char>,
) -> bool {
    &&& s == name + seq!['/'] + version + seq![' ', '('] + segments + seq![')']
    &&& name.len() > 0 && !name.contains('/')
    &&& version.len() > 0 && !version.contains(' ')
    &&& segments.len() > 0 && !segments.contains('\n')
}

/// Matches a user agent against [`CUSTOM_USER_AGENT`] with `regex::Regex::new` and
/// `regex::Regex::captures`, and hands out the three groups (`regex::Captures::extract`).
///
/// Taken on trust: the pattern is well formed and has three groups, so that none of the
/// calls panics; the match spans the whole string; `[^/]` and `[^ ]` stand for any
/// character but the one named, and `.` for any character but a line feed. So there is a
/// match exactly where the string reads as `name/version (segments)`, and its groups are
/// those three parts.
#[verifier::external_body]
fn capture<'a>(pattern: &str, user_agent: &'a str) -> (groups: Option<
    (&'a str, &'a str, &'a str),
>)
    requires
        pattern@ == CUSTOM_USER_AGENT@,
    ensures
        match groups {
            Some((name, version, segments)) => reads_as_custom(
                user_agent@,
                name@,
                version@,
                segments@,
            ),
            None => forall|name: Seq<char>, version: Seq<char>, segments: Seq<char>|
                !reads_as_custom(user_agent@, name, version, segments),
        },
{
    let regex = regex::Regex::new(pattern).unwrap();
    let captures = regex.captures(user_agent)?;
    let (_, [name, version, segments]) = captures.extract();
    Some((name, version, segments))
}

/// The parts of a user agent that reads as custom.
pub open spec fn custom_parts(s: Seq<char>) -> Option<(Seq<char>, Seq<char>, Seq<char>)> {
    if exists|name: Seq<char>, version: Seq<char>, segments: Seq<char>|
        reads_as_custom(s, name, version, segments) {
        Some(
            choose|name: Seq<char>, version: Seq<char>, segments: Seq<char>|
                reads_as_custom(s, name, version, segments),
        )
    } else {
        None
    }
}

/// A user agent reads as custom in one way only.
pub proof fn custom_parts_are_unique(
    s: Seq<char>,
    name: Seq<char>,
    version: Seq<char>,
    segments: Seq<char>,
)
    requires
        reads_as_custom(s, name, version, segments),
    ensures
        custom_parts(s) == Some((name, version, segments)),
{
    let (n, v, g) = choose|n: Seq<char>, v: Seq<char>, g: Seq<char>| reads_as_custom(s, n, v, g);
    assert(reads_as_custom(s, n, v, g));
    assert(s[name.len() as int] == '/');
    assert(s[n.len() as int] == '/');
    if n.len() < name.len() {
        assert(name[n.len() as int] == '/');
    }
    if name.len() < n.len() {
        assert(n[name.len() as int] == '/');
    }
    assert(n =~= s.take(n.len() as int));
    assert(name =~= s.take(name.len() as int));
    let base = n.len() as int + 1;
    assert(s[base + version.len()] == ' ');
    assert(s[base + v.len()] == ' ');
    if v.len() < version.len() {
        assert(version[v.len() as int] == s[base + v.len()]);
    }
    if version.len() < v.len() {
        assert(v[version.len() as int] == s[base + version.len()]);
    }
    assert(v =~= s.subrange(base, base + v.len()));
    assert(version =~= s.subrange(base, base + version.len()));
    let from: int = base + v.len() + 2;
    assert(g =~= s.subrange(from, s.len() - 1));
    assert(segments =~= s.subrange(from, s.len() - 1));
}

/// A device's model, without the build that follows a slash or the word `Build`, and
/// without whitespace around it.
pub open spec fn model_name(s: Seq<char>) -> Seq<char> {
    let head = match cut(s, '/') {
        Some((model, _)) => model,
        None => s,
    };
    match before_suffix(head, "Build"@) {
        Some(bare) => trimmed(bare),
        None => trimmed(head),
    }
}

/// A system and, behind the first space, its version.
pub open spec fn system_name(s: Seq<char>) -> (Seq<char>, Option<Seq<char>>) {
    match cut(s, ' ') {
        Some((os, version)) => (os, Some(version)),
        None => (s, None),
    }
}

/// The segments between the semicolons, without the whitespace around them.
pub open spec fn segment_list(segments: Seq<char>) -> Seq<Seq<char>> {
    pieces(segments, ';').map_values(|p: Seq<char>| trimmed(p))
}

/// What a device's model, system and system version are: the first two segments give the
/// model and the system, unless the list begins with `Linux; U`, where the system and
/// then the model follow.
pub open spec fn platform(segments: Seq<char>) -> Option<
    (Seq<char>, Seq<char>, Option<Seq<char>>),
> {
    let list = segment_list(segments);
    if list.len() >= 4 && list[0] == "Linux"@ && list[1] == "U"@ {
        Some((model_name(list[3]), system_name(list[2]).0, system_name(list[2]).1))
    } else if list.len() >= 2 {
        Some((model_name(list[0]), system_name(list[1]).0, system_name(list[1]).1))
    } else {
        None
    }
}

/// The view of a platform.
pub open spec fn platform_view(p: Option<(&str, &str, Option<&str>)>) -> Option<
    (Seq<char>, Seq<char>, Option<Seq<char>>),
> {
    match p {
        Some((model, os, os_version)) => Some((model@, os@, slice_view(os_version))),
        None => None,
    }
}

/// Splits a user agent into its name, its version and its segments, where it reads as
/// custom.
pub fn split_custom<'a>(user_agent: &'a str) -> (parts: Option<(&'a str, &'a str, &'a str)>)
    ensures
        match parts {
            Some((name, version, segments)) => custom_parts(user_agent@) == Some(
                (name@, version@, segments@),
            ),
            None => custom_parts(user_agent@) is None,
        },
{
    let parts = capture(CUSTOM_USER_AGENT, user_agent);
    proof {
        if let Some((name, version, segments)) = parts {
            custom_parts_are_unique(user_agent@, name@, version@, segments@);
        }
    }
    parts
}

/// Reads the model, the system and its version off the segments.
pub fn read_segments<'a>(segments: &'a str) -> (found: Option<(&'a str, &'a str, Option<&'a str>)>)
    ensures
        platform_view(found) == platform(segments@),
{
    let parts = split(segments, ';');
    let mut list: Vec<&'a str> = Vec::new();
    let n: usize = parts.len();
    for i in 0..n
        invariant
            n == parts.len(),
            list.len() == i,
            forall|j: int| 0 <= j < i ==> (#[trigger] list[j])@ == trimmed(parts[j]@),
    {
        list.push(trim(parts[i]));
    }
    assert(slices_view(list@) =~= segment_list(segments@)) by {
        assert forall|j: int| 0 <= j < n implies slices_view(list@)[j] == segment_list(
            segments@,
        )[j] by {
            assert(slices_view(parts@)[j] == parts[j]@);
        }
    }
    let ghost views = slices_view(list@);
    assert(forall|j: int| 0 <= j < n ==> views[j] == (#[trigger] list[j])@);
    if n >= 4 && equals(list[0], "Linux") && equals(list[1], "U") {
        Some(describe(list[3], list[2]))
    } else if n >= 2 {
        Some(describe(list[0], list[1]))
    } else {
        None
    }
}

/// Cleans up a model and parts a system from its version.
fn describe<'a>(model: &'a str, os: &'a str) -> (found: (&'a str, &'a str, Option<&'a str>))
    ensures
        found.0@ == model_name(model@),
        found.1@ == system_name(os@).0,
        slice_view(found.2) == system_name(os@).1,
{
    let model = match split_once(model, '/') {
        Some((head, _)) => head,
        None => model,
    };
    let model = match strip_suffix(model, "Build") {
        Some(head) => head,
        None => model,
    };
    let model = trim(model);
    match split_once(os, ' ') {
        Some((os, version)) => (model, os, Some(version)),
        None => (model, os, None),
    }
}

} // verus!
