//! What holds of every user agent that is read.
use crate::custom::{
    custom_parts, custom_parts_are_unique, model_name, platform, reads_as_custom, segment_list,
    system_name,
};
use crate::detection::{
    device_of, frozen, known, nothing_detected, renamed, system, DetectionView,
};
use crate::electron::{
    application, is_product_of, is_runtime, products, products_have_two_sides, products_stand_in,
};
use crate::text::{
    before_suffix, cut, first_at, is_space, lemma_first_at, lemma_first_at_is,
    lemma_pieces_of_joined, lemma_pieces_of_one, lemma_trimmed, lemma_trimmed_skips_space, occurs,
    occurs_at, pieces, trimmed,
};
use crate::user_agent::{
    agent, custom_device, custom_fields, detected_agent, electron_application, AgentView,
    DeviceType,
};
use vstd::prelude::*;

verus! {

/// The header itself is kept as it came.
pub proof fn raw_is_kept(raw: Seq<char>, found: Option<DetectionView>)
    ensures
        agent(raw, found).raw == raw,
{
}

/// An agent that claims to be a browser is never taken for a custom one.
pub proof fn browsers_are_detected(raw: Seq<char>, found: Option<DetectionView>)
    requires
        occurs("Mozilla/"@, raw),
    ensures
        agent(raw, found) == detected_agent(raw, found),
{
}

/// What was not detected is left out, never reported by the detector's placeholder.
pub proof fn placeholders_are_not_reported(raw: Seq<char>, found: Option<DetectionView>)
    ensures
        detected_agent(raw, found).name != Some("UNKNOWN"@),
        detected_agent(raw, found).version != Some("UNKNOWN"@),
        detected_agent(raw, found).os != Some("UNKNOWN"@),
        detected_agent(raw, found).os_version != Some("UNKNOWN"@),
        detected_agent(raw, found).model != Some("UNKNOWN"@),
{
    reveal_strlit("UNKNOWN");
    reveal_strlit("iPhone");
    reveal_strlit("iPod");
    reveal_strlit("iPad");
    assert("UNKNOWN"@.len() == 7);
    assert("iPhone"@.len() == 6);
    assert("iPod"@.len() == 4);
    assert("iPad"@.len() == 4);
}


/// The detector's names for Apple's devices and systems, and its Windows releases, are
/// never reported as systems.
pub proof fn systems_are_renamed(raw: Seq<char>, found: DetectionView)
    ensures
        detected_agent(raw, Some(found)).os matches Some(os) ==> {
            &&& os != "iPhone"@
            &&& os != "iPod"@
            &&& os != "iPad"@
            &&& os != "Mac OSX"@
            &&& !"Windows "@.is_prefix_of(os)
        },
{
    reveal_names();
    let named = renamed(raw, found);
    assert(system(raw, found).os == "Windows"@ || system(raw, found).os == named.os);
}

/// A version that the browser has frozen is left out, and the system is reported by name.
pub proof fn frozen_versions_are_dropped(raw: Seq<char>, found: DetectionView, name: Seq<char>)
    requires
        frozen(raw, found.os, found.os_version) == Some(name),
    ensures
        detected_agent(raw, Some(found)).os == Some(name),
        detected_agent(raw, Some(found)).os_version is None,
        detected_agent(raw, Some(found)).model is None,
{
    reveal_names();
}

/// A release of Windows is reported as the version of a system named `Windows`.
pub proof fn windows_releases_are_versions(
    raw: Seq<char>,
    found: DetectionView,
    release: Seq<char>,
)
    requires
        frozen(raw, found.os, found.os_version) is None,
        found.os == "Windows "@ + release,
    ensures
        detected_agent(raw, Some(found)).os == Some("Windows"@),
        detected_agent(raw, Some(found)).os_version == known(release),
{
    reveal_names();
    assert("Windows "@.is_prefix_of(found.os)) by {
        assert(found.os.take("Windows "@.len() as int) =~= "Windows "@);
    }
    assert(found.os.skip("Windows "@.len() as int) =~= release);
}

/// Of detected devices the iPads are tablets, and only they; the others are what their
/// category says. Apple's portable devices, and only they, have a model.
pub proof fn devices_follow_their_category(raw: Seq<char>, found: DetectionView)
    ensures
        detected_agent(raw, Some(found)).device_type == (if found.os == "iPad"@ {
            DeviceType::Tablet
        } else {
            device_of(found.category)
        }),
        detected_agent(raw, Some(found)).model == (if found.os == "iPad"@ || found.os == "iPhone"@
            || found.os == "iPod"@ {
            Some(found.os)
        } else {
            None
        }),
{
    reveal_names();
}

/// From an empty header, and from a single dash, nothing is read.
pub proof fn nothing_is_read_from_nothing(raw: Seq<char>)
    requires
        raw == ""@ || raw == "-"@,
    ensures
        agent(raw, Some(nothing_detected())) == (AgentView {
            name: None,
            version: None,
            os: None,
            os_version: None,
            model: None,
            device_type: DeviceType::Unknown,
            raw,
        }),
{
    reveal_names();
    reveal_strlit("");
    reveal_strlit("-");
    reveal_strlit("Electron/");
    assert(raw.len() <= 1);
    assert(custom_fields(raw) is None) by {
        if let Some((name, version, segments)) = custom_parts(raw) {
            assert(reads_as_custom(raw, name, version, segments));
            assert(raw.len() > 1);
        }
    }
    assert(device_of("UNKNOWN"@) == DeviceType::Unknown) by {
        reveal_strlit("pc");
        reveal_strlit("smartphone");
        reveal_strlit("mobilephone");
        assert("pc"@.len() != "UNKNOWN"@.len());
        assert("smartphone"@.len() != "UNKNOWN"@.len());
        assert("mobilephone"@.len() != "UNKNOWN"@.len());
    }
}

/// What sets the names of systems apart.
proof fn reveal_names()
    ensures
        "UNKNOWN"@.len() == 7 && "UNKNOWN"@[0] == 'U',
        "Windows "@.len() == 8 && "Windows "@[0] == 'W',
        "Windows"@.len() == 7 && "Windows"@[0] == 'W',
        "Windows 10"@.len() == 10,
        "Linux"@.len() == 5 && "Linux"@[0] == 'L',
        "ChromeOS"@.len() == 8 && "ChromeOS"@[0] == 'C',
        "Chrome OS"@.len() == 9 && "Chrome OS"@[0] == 'C',
        "Android"@.len() == 7 && "Android"@[0] == 'A',
        "Mac OSX"@.len() == 7 && "Mac OSX"@[0] == 'M',
        "macOS"@.len() == 5 && "macOS"@[0] == 'm',
        "iOS"@.len() == 3,
        "iPadOS"@.len() == 6 && "iPadOS"@[2] == 'a',
        "iPhone"@.len() == 6 && "iPhone"@[0] == 'i' && "iPhone"@[2] == 'h',
        "iPod"@.len() == 4 && "iPod"@[2] == 'o',
        "iPad"@.len() == 4 && "iPad"@[2] == 'a',
{
    reveal_strlit("UNKNOWN");
    reveal_strlit("Windows ");
    reveal_strlit("Windows");
    reveal_strlit("Windows 10");
    reveal_strlit("Linux");
    reveal_strlit("ChromeOS");
    reveal_strlit("Chrome OS");
    reveal_strlit("Android");
    reveal_strlit("Mac OSX");
    reveal_strlit("macOS");
    reveal_strlit("iOS");
    reveal_strlit("iPadOS");
    reveal_strlit("iPhone");
    reveal_strlit("iPod");
    reveal_strlit("iPad");
}

/// Where the products name an application, it is the first that is not part of the
/// runtime; where they name none, all of them are.
pub proof fn application_is_the_first(list: Seq<Seq<char>>)
    requires
        forall|i: int| 0 <= i < list.len() ==> (#[trigger] list[i]).contains('/'),
    ensures
        match application(list) {
            Some((name, version)) => {
                &&& !is_runtime(name)
                &&& !name.contains('/')
                &&& exists|i: int|
                    {
                        &&& 0 <= i < list.len()
                        &&& #[trigger] list[i] == name + seq!['/'] + version
                        &&& forall|j: int|
                            0 <= j < i ==> is_runtime((#[trigger] cut(list[j], '/')->0).0)
                    }
            },
            None => forall|j: int|
                0 <= j < list.len() ==> is_runtime((#[trigger] cut(list[j], '/')->0).0),
        },
    decreases list.len(),
{
    if list.len() > 0 {
        let first = list[0];
        lemma_first_at(first, '/');
        let at = first_at(first, '/') as int;
        assert(at < first.len()) by {
            let k = choose|k: int| 0 <= k < first.len() && first[k] == '/';
            assert(first[k] == '/');
        }
        assert(cut(first, '/') == Some((first.take(at), first.skip(at + 1))));
        let rest = list.skip(1);
        if !is_runtime(first.take(at)) {
            assert(first =~= first.take(at) + seq!['/'] + first.skip(at + 1));
            assert(list[0] == first.take(at) + seq!['/'] + first.skip(at + 1));
        } else {
            application_is_the_first(rest);
            assert(application(list) == application(rest));
            match application(list) {
                Some((name, version)) => {
                    let i = choose|i: int|
                        {
                            &&& 0 <= i < rest.len()
                            &&& #[trigger] rest[i] == name + seq!['/'] + version
                            &&& forall|j: int|
                                0 <= j < i ==> is_runtime((#[trigger] cut(rest[j], '/')->0).0)
                        };
                    assert(list[i + 1] == name + seq!['/'] + version);
                    assert forall|j: int| 0 <= j < i + 1 implies is_runtime(
                        (#[trigger] cut(list[j], '/')->0).0,
                    ) by {
                        if j > 0 {
                            assert(rest[j - 1] == list[j]);
                            assert(is_runtime((cut(rest[j - 1], '/')->0).0));
                        }
                    }
                },
                None => {
                    assert forall|j: int| 0 <= j < list.len() implies is_runtime(
                        (#[trigger] cut(list[j], '/')->0).0,
                    ) by {
                        if j > 0 {
                            assert(rest[j - 1] == list[j]);
                            assert(is_runtime((cut(rest[j - 1], '/')->0).0));
                        }
                    }
                },
            }
        }
    }
}


/// The application that an Electron user agent is reported by stands in the header as
/// `name/version`, and is not part of the runtime.
pub proof fn electron_applications_stand_in_the_header(raw: Seq<char>)
    ensures
        electron_application(raw) matches Some((name, version)) ==> {
            &&& is_product_of(name + seq!['/'] + version, raw)
            &&& !is_runtime(name)
            &&& name.len() > 0 && version.len() > 0
        },
{
    let list = products(raw, 0);
    products_stand_in(raw, 0);
    assert forall|i: int| 0 <= i < list.len() implies (#[trigger] list[i]).contains('/') by {
        products_have_two_sides(list[i], raw);
    }
    application_is_the_first(list);
    if let Some((name, version)) = electron_application(raw) {
        let i = choose|i: int|
            0 <= i < list.len() && #[trigger] list[i] == name + seq!['/'] + version;
        let p = list[i];
        products_have_two_sides(p, raw);
        assert forall|k: int| 0 <= k < name.len() implies p[k] != '/' by {
            assert(p[k] == name[k]);
        }
        lemma_first_at_is(p, '/', name.len() as int);
    }
}

/// What an application writes as `name/version (segments)` is read back as those parts.
pub proof fn custom_agents_read_back(name: Seq<char>, version: Seq<char>, segments: Seq<char>)
    requires
        name.len() > 0 && !name.contains('/'),
        version.len() > 0 && !version.contains(' '),
        segments.len() > 0 && !segments.contains('\n'),
    ensures
        custom_parts(name + seq!['/'] + version + seq![' ', '('] + segments + seq![')']) == Some(
            (name, version, segments),
        ),
{
    custom_parts_are_unique(
        name + seq!['/'] + version + seq![' ', '('] + segments + seq![')'],
        name,
        version,
        segments,
    );
}

/// A model that carries no build, and has no whitespace around it, is kept as it is.
proof fn lemma_plain_model(model: Seq<char>)
    requires
        !model.contains('/'),
        !"Build"@.is_suffix_of(model),
        trimmed(model) == model,
    ensures
        model_name(model) == model,
{
    lemma_first_at_is(model, '/', model.len() as int);
}

/// The segments `model; os` are read as that model and that system.
pub proof fn platforms_read_back(model: Seq<char>, os: Seq<char>)
    requires
        !model.contains(';') && !os.contains(';'),
        !model.contains('/'),
        !"Build"@.is_suffix_of(model),
        trimmed(model) == model,
        trimmed(os) == os,
    ensures
        platform(model + seq![';'] + (seq![' '] + os)) == Some(
            (model, system_name(os).0, system_name(os).1),
        ),
{
    let segments = model + seq![';'] + (seq![' '] + os);
    let spaced = seq![' '] + os;
    assert(!spaced.contains(';')) by {
        assert forall|k: int| 0 <= k < spaced.len() implies spaced[k] != ';' by {
            if k > 0 {
                assert(os[k - 1] == spaced[k]);
            }
        }
    }
    lemma_pieces_of_joined(model, ';', spaced);
    lemma_pieces_of_one(spaced, ';');
    lemma_trimmed_skips_space(os);
    lemma_plain_model(model);
    assert(pieces(segments, ';') =~= seq![model, spaced]);
    assert(segment_list(segments) =~= seq![model, os]);
}

/// The segments `Linux; U; os; model`, as Android writes them, are read as that model and
/// that system.
pub proof fn android_platforms_read_back(os: Seq<char>, model: Seq<char>)
    requires
        !model.contains(';') && !os.contains(';'),
        !model.contains('/'),
        !"Build"@.is_suffix_of(model),
        trimmed(model) == model,
        trimmed(os) == os,
    ensures
        platform(
            "Linux"@ + seq![';'] + (seq![' '] + "U"@ + seq![';'] + (seq![' '] + os + seq![';'] + (
            seq![' '] + model))),
        ) == Some((model, system_name(os).0, system_name(os).1)),
{
    let last = seq![' '] + model;
    let third = seq![' '] + os;
    let second = seq![' '] + "U"@;
    let tail2 = third + seq![';'] + last;
    let tail1 = second + seq![';'] + tail2;
    let segments = "Linux"@ + seq![';'] + tail1;
    reveal_strlit("Linux");
    reveal_strlit("U");
    assert(!last.contains(';')) by {
        assert forall|k: int| 0 <= k < last.len() implies last[k] != ';' by {
            if k > 0 {
                assert(model[k - 1] == last[k]);
            }
        }
    }
    assert(!third.contains(';')) by {
        assert forall|k: int| 0 <= k < third.len() implies third[k] != ';' by {
            if k > 0 {
                assert(os[k - 1] == third[k]);
            }
        }
    }
    lemma_pieces_of_joined("Linux"@, ';', tail1);
    lemma_pieces_of_joined(second, ';', tail2);
    lemma_pieces_of_joined(third, ';', last);
    lemma_pieces_of_one(last, ';');
    lemma_trimmed_skips_space("U"@);
    lemma_trimmed_skips_space(os);
    lemma_trimmed_skips_space(model);
    lemma_plain_model(model);
    assert(trimmed("Linux"@) == "Linux"@);
    assert(trimmed("U"@) == "U"@);
    assert(pieces(segments, ';') =~= seq!["Linux"@, second, third, last]);
    assert(segment_list(segments) =~= seq!["Linux"@, "U"@, os, model]);
}

/// A model holds no build number: no slash, and no whitespace at its ends.
pub proof fn models_are_clean(s: Seq<char>)
    ensures
        !model_name(s).contains('/'),
        model_name(s).len() > 0 ==> !is_space(model_name(s)[0]) && !is_space(model_name(s).last()),
{
    lemma_first_at(s, '/');
    let head = match cut(s, '/') {
        Some((model, _)) => model,
        None => s,
    };
    assert(!head.contains('/')) by {
        assert forall|k: int| 0 <= k < head.len() implies head[k] != '/' by {
            assert(head[k] == s[k]);
        }
    }
    let bare = match before_suffix(head, "Build"@) {
        Some(b) => b,
        None => head,
    };
    assert(!bare.contains('/')) by {
        assert forall|k: int| 0 <= k < bare.len() implies bare[k] != '/' by {
            assert(bare[k] == head[k]);
        }
    }
    lemma_trimmed(bare);
    let t = trimmed(bare);
    let at = choose|at: int| occurs_at(t, bare, at);
    assert forall|k: int| 0 <= k < t.len() implies t[k] != '/' by {
        assert(bare.subrange(at, at + t.len())[k] == bare[at + k]);
    }
}

/// What an application writes as `name/version (model; os)` is reported as it was written,
/// whatever a detector would make of it.
pub proof fn custom_agents_are_reported(
    name: Seq<char>,
    version: Seq<char>,
    model: Seq<char>,
    os: Seq<char>,
    raw: Seq<char>,
    found: Option<DetectionView>,
)
    requires
        raw == name + seq!['/'] + version + seq![' ', '('] + (model + seq![';'] + (seq![' '] + os))
            + seq![')'],
        name.len() > 0 && !name.contains('/'),
        version.len() > 0 && !version.contains(' '),
        !model.contains('\n') && !os.contains('\n'),
        !model.contains(';') && !os.contains(';'),
        !model.contains('/'),
        !"Build"@.is_suffix_of(model),
        trimmed(model) == model,
        trimmed(os) == os,
        !occurs("Mozilla/"@, raw),
    ensures
        agent(raw, found) == (AgentView {
            name: Some(name),
            version: Some(version),
            os: Some(system_name(os).0),
            os_version: system_name(os).1,
            model: Some(model),
            device_type: custom_device(model, system_name(os).0),
            raw,
        }),
{
    let segments = model + seq![';'] + (seq![' '] + os);
    assert(!segments.contains('\n')) by {
        assert forall|k: int| 0 <= k < segments.len() implies segments[k] != '\n' by {
            if k < model.len() {
                assert(model[k] == segments[k]);
            } else if k >= model.len() + 2 {
                assert(os[k - model.len() - 2] == segments[k]);
            }
        }
    }
    custom_agents_read_back(name, version, segments);
    platforms_read_back(model, os);
}

} // verus!
