//! What is reported of the user agents that a detector has looked at.
use crate::custom_laws::{is_custom, lemma_not_custom};
use crate::detection::{
    detected_by_woothee, detection_view, device_type, frozen, frozen_system, known_value, renamed,
    report_system, system, Detection, DetectionView, System,
};
use crate::electron_laws::{
    is_listing, lemma_electron_application, name_in, names_application, names_no_application,
    version_in,
};
use crate::text_laws::{lemma_occurs, shows, stands_in};
use crate::user_agent::{detected_agent, DeviceType, UserAgent};
use vstd::prelude::*;

verus! {

/// `parsed` is what is reported of a user agent in which `found` was detected: by hand, or
/// by `woothee` where the user agent is not a custom one.
pub open spec fn reported(
    user_agent: String,
    found: Option<DetectionView>,
    parsed: UserAgent,
) -> bool {
    ||| exists|f: Option<Detection>| #[trigger]
        detection_view(f) == found && call_ensures(
            UserAgent::from_detection,
            (user_agent, f),
            parsed,
        )
    ||| !is_custom(user_agent@) && found == detected_by_woothee(user_agent@) && call_ensures(
        UserAgent::parse,
        (user_agent,),
        parsed,
    )
}

/// `field` holds what was detected, and nothing where that is the placeholder `UNKNOWN`.
pub open spec fn tells(field: Option<String>, value: Seq<char>) -> bool {
    if value == "UNKNOWN"@ {
        field is None
    } else {
        shows(field, Some(value))
    }
}

/// Browsers that write `marker` give this version of the system whatever the real one is.
/// On Linux and on Chrome OS that is so of every version.
pub open spec fn freezes(os: Seq<char>, version: Seq<char>, marker: Seq<char>) -> bool {
    ||| os == "Windows 10"@ && version == "NT 10.0"@ && marker == "Windows NT 10.0; Win64; x64"@
    ||| os == "Linux"@ && marker == "X11; Linux x86_64"@
    ||| os == "ChromeOS"@ && marker == "X11; CrOS x86_64 14541.0.0"@
    ||| os == "Android"@ && version == "10"@ && marker == "Linux; Android 10; K"@
    ||| os == "Mac OSX"@ && version == "10.15.7"@ && marker == "Macintosh; Intel Mac OS X 10_15_7"@
}

/// The header says that the version is not the real one.
pub open spec fn is_frozen(raw: Seq<char>, os: Seq<char>, version: Seq<char>) -> bool {
    exists|marker: Seq<char>| #[trigger] freezes(os, version, marker) && stands_in(marker, raw)
}

/// The detector's name for a device of Apple's that it takes for a system.
pub open spec fn is_apple_device(os: Seq<char>) -> bool {
    os == "iPhone"@ || os == "iPod"@ || os == "iPad"@
}

/// A view keeps every field of what was detected.
pub proof fn detections_are_kept(d: Detection)
    ensures
        detection_view(Some(d)) matches Some(v) && v.name == d.name@ && v.category == d.category@
            && v.os == d.os@ && v.os_version == d.os_version@ && v.version == d.version@,
        detection_view(None) is None,
{
}

/// What is reported, as it is told at once.
proof fn lemma_reported(user_agent: String, found: Option<DetectionView>, parsed: UserAgent)
    requires
        reported(user_agent, found, parsed),
    ensures
        parsed@ == detected_agent(user_agent@, found),
{
    if !is_custom(user_agent@) {
        lemma_not_custom(user_agent@, found);
    }
}

/// What sets the names apart.
proof fn reveal_names()
    ensures
        "UNKNOWN"@.len() == 7 && "UNKNOWN"@[0] == 'U',
        "Windows "@.len() == 8 && "Windows "@[0] == 'W' && "Windows "@[7] == ' ',
        "Windows"@.len() == 7 && "Windows"@[0] == 'W',
        "Windows 10"@.len() == 10 && "Windows 10"@[0] == 'W',
        "Linux"@.len() == 5 && "Linux"@[0] == 'L',
        "ChromeOS"@.len() == 8 && "ChromeOS"@[0] == 'C',
        "Chrome OS"@.len() == 9 && "Chrome OS"@[0] == 'C',
        "Android"@.len() == 7 && "Android"@[0] == 'A',
        "Mac OSX"@.len() == 7 && "Mac OSX"@[0] == 'M',
        "macOS"@.len() == 5 && "macOS"@[0] == 'm',
        "iOS"@.len() == 3 && "iOS"@[0] == 'i',
        "iPadOS"@.len() == 6 && "iPadOS"@[0] == 'i' && "iPadOS"@[2] == 'a',
        "iPhone"@.len() == 6 && "iPhone"@[0] == 'i' && "iPhone"@[2] == 'h',
        "iPod"@.len() == 4 && "iPod"@[0] == 'i' && "iPod"@[2] == 'o',
        "iPad"@.len() == 4 && "iPad"@[0] == 'i' && "iPad"@[2] == 'a',
        "pc"@.len() == 2,
        "smartphone"@.len() == 10 && "smartphone"@[0] == 's',
        "mobilephone"@.len() == 11,
{
    reveal_strlit("UNKNOWN");
    reveal_strlit("Windows ");
    reveal_strlit("Windows");
    reveal_strlit("Windows 10");
    reveal_strlit("Linux");
    reveal_strlit("ChromeOS");
    reveal_strlit("Chrome OS");
    reveal_strlit("Android");
    reveal_strlit("Mac OSX");
    reveal_strlit("macOS");
    reveal_strlit("iOS");
    reveal_strlit("iPadOS");
    reveal_strlit("iPhone");
    reveal_strlit("iPod");
    reveal_strlit("iPad");
    reveal_strlit("pc");
    reveal_strlit("smartphone");
    reveal_strlit("mobilephone");
}

/// A version is frozen exactly where a marker says so.
proof fn lemma_frozen(raw: Seq<char>, os: Seq<char>, version: Seq<char>)
    ensures
        frozen(raw, os, version) is Some <==> is_frozen(raw, os, version),
        frozen(raw, os, version) matches Some(name) ==> {
            &&& os == "Windows 10"@ ==> name == "Windows"@
            &&& os == "ChromeOS"@ ==> name == "Chrome OS"@
            &&& os == "Mac OSX"@ ==> name == "macOS"@
            &&& os == "Linux"@ || os == "Android"@ ==> name == os
        },
{
    reveal_names();
    lemma_occurs("Windows NT 10.0; Win64; x64"@, raw);
    lemma_occurs("X11; Linux x86_64"@, raw);
    lemma_occurs("X11; CrOS x86_64 14541.0.0"@, raw);
    lemma_occurs("Linux; Android 10; K"@, raw);
    lemma_occurs("Macintosh; Intel Mac OS X 10_15_7"@, raw);
    if frozen(raw, os, version) is Some {
        if os == "Windows 10"@ {
            assert(freezes(os, version, "Windows NT 10.0; Win64; x64"@));
        } else if os == "Linux"@ {
            assert(freezes(os, version, "X11; Linux x86_64"@));
        } else if os == "ChromeOS"@ {
            assert(freezes(os, version, "X11; CrOS x86_64 14541.0.0"@));
        } else if os == "Android"@ {
            assert(freezes(os, version, "Linux; Android 10; K"@));
        } else {
            assert(freezes(os, version, "Macintosh; Intel Mac OS X 10_15_7"@));
        }
    }
}

/// What is told of the system, its version, the model and the device.
proof fn lemma_system(raw: Seq<char>, d: DetectionView, release: Seq<char>)
    ensures
        ({
            let on = system(raw, d);
            &&& d.os == "iPhone"@ || d.os == "iPod"@ ==> on.os == "iOS"@
            &&& d.os == "iPad"@ ==> on.os == "iPadOS"@
            &&& d.os == "Mac OSX"@ ==> on.os == "macOS"@
            &&& d.os == "ChromeOS"@ && is_frozen(raw, d.os, d.os_version) ==> on.os == "Chrome OS"@
            &&& d.os == "Windows "@ + release ==> on.os == "Windows"@
            &&& !is_apple_device(d.os) && d.os != "Mac OSX"@ && !"Windows "@.is_prefix_of(d.os) && (
            d.os == "ChromeOS"@ ==> !is_frozen(raw, d.os, d.os_version)) ==> on.os == d.os
            &&& is_frozen(raw, d.os, d.os_version) ==> on.os_version == "UNKNOWN"@
            &&& !is_frozen(raw, d.os, d.os_version) && d.os == "Windows "@ + release
                ==> on.os_version == release
            &&& !is_frozen(raw, d.os, d.os_version) && !"Windows "@.is_prefix_of(d.os)
                ==> on.os_version == d.os_version
            &&& on.model == if is_apple_device(d.os) {
                Some(d.os)
            } else {
                None
            }
            &&& on.device_type is Tablet <==> d.os == "iPad"@
            &&& on.device_type is Pc <==> d.os != "iPad"@ && d.category == "pc"@
            &&& on.device_type is Mobile <==> d.os != "iPad"@ && (d.category == "smartphone"@
                || d.category == "mobilephone"@)
        }),
{
    reveal_names();
    lemma_frozen(raw, d.os, d.os_version);
    let named = renamed(raw, d);
    assert("Windows "@.is_prefix_of("Windows 10"@)) by {
        reveal_strlit("Windows ");
        reveal_strlit("Windows 10");
        assert("Windows 10"@.take(8) =~= "Windows "@);
    }
    if d.os == "Windows "@ + release {
        assert(d.os.take(8) =~= "Windows "@);
        assert("Windows "@.is_prefix_of(d.os));
        assert(d.os.skip(8) =~= release);
        assert(d.os[0] == 'W');
    }
    if "Windows "@.is_prefix_of(named.os) {
        assert(named.os[0] == 'W' && named.os[7] == ' ');
        assert(named.os == d.os);
    }
    if "Windows "@.is_prefix_of(d.os) {
        assert(d.os[0] == 'W');
        assert(d.os == "Windows 10"@ || named.os == d.os);
    }
}

/// Of a user agent in which nothing at all was detected, nothing is told.
pub proof fn nothing_detected_is_nothing_told(user_agent: String, parsed: UserAgent)
    requires
        reported(user_agent, None, parsed),
    ensures
        parsed.name is None && parsed.version is None,
        parsed.os is None && parsed.os_version is None,
        parsed.model is None,
        parsed.device_type is Unknown,
{
    lemma_reported(user_agent, None, parsed);
    let told = parsed@;
    assert(told.name is None && told.version is None && told.os is None);
    assert(told.os_version is None && told.model is None);
}

/// The header itself is kept as it came, however it was read.
pub proof fn headers_are_kept(
    user_agent: String,
    found: Option<Detection>,
    one: UserAgent,
    other: UserAgent,
)
    requires
        call_ensures(UserAgent::parse, (user_agent,), one),
        call_ensures(UserAgent::from_detection, (user_agent, found), other),
    ensures
        one.raw@ == user_agent@,
        other.raw@ == user_agent@,
{
    assert(one@.raw == user_agent@);
    assert(other@.raw == user_agent@);
}

/// Whatever is known of it, a user agent stands for its header.
pub proof fn agents_stand_for_their_header(agent: UserAgent, raw: &str)
    requires
        call_ensures(<UserAgent as std::ops::Deref>::deref, (&agent,), raw),
    ensures
        raw@ == agent.raw@,
{
}

/// Outside of Electron, the name and the version are those that were detected, whatever the
/// system, the device and the rest of the header are.
pub proof fn browsers_are_named_as_detected(
    user_agent: String,
    d: DetectionView,
    parsed: UserAgent,
)
    requires
        reported(user_agent, Some(d), parsed),
        !stands_in("Electron/"@, user_agent@),
    ensures
        tells(parsed.name, d.name),
        tells(parsed.version, d.version),
{
    lemma_reported(user_agent, Some(d), parsed);
    lemma_occurs("Electron/"@, user_agent@);
    let told = parsed@;
    assert(d.name == "UNKNOWN"@ ==> told.name is None);
    assert(d.version == "UNKNOWN"@ ==> told.version is None);
    assert(d.name != "UNKNOWN"@ ==> told.name == Some(d.name));
    assert(d.version != "UNKNOWN"@ ==> told.version == Some(d.version));
}

/// An Electron user agent that lists no product of its own is named as it was detected, on
/// every system.
pub proof fn bare_runtimes_are_named_as_detected(
    user_agent: String,
    d: DetectionView,
    parsed: UserAgent,
    spans: Seq<(int, int, int)>,
)
    requires
        reported(user_agent, Some(d), parsed),
        is_listing(user_agent@, spans),
        names_no_application(user_agent@, spans),
    ensures
        tells(parsed.name, d.name),
        tells(parsed.version, d.version),
{
    lemma_reported(user_agent, Some(d), parsed);
    lemma_electron_application(user_agent@, spans, 0);
    let told = parsed@;
    assert(d.name == "UNKNOWN"@ ==> told.name is None);
    assert(d.version == "UNKNOWN"@ ==> told.version is None);
    assert(d.name != "UNKNOWN"@ ==> told.name == Some(d.name));
    assert(d.version != "UNKNOWN"@ ==> told.version == Some(d.version));
}

/// An Electron user agent is named by the first product that it lists and that does not
/// come with Electron, on every system and whatever was detected.
pub proof fn applications_are_named_on_every_system(
    user_agent: String,
    d: DetectionView,
    parsed: UserAgent,
    spans: Seq<(int, int, int)>,
    at: int,
)
    requires
        reported(user_agent, Some(d), parsed),
        stands_in("Electron/"@, user_agent@),
        is_listing(user_agent@, spans),
        names_application(user_agent@, spans, at),
    ensures
        tells(parsed.name, name_in(user_agent@, spans[at])),
        tells(parsed.version, version_in(user_agent@, spans[at])),
{
    lemma_reported(user_agent, Some(d), parsed);
    lemma_occurs("Electron/"@, user_agent@);
    lemma_electron_application(user_agent@, spans, at);
    let name = name_in(user_agent@, spans[at]);
    let version = version_in(user_agent@, spans[at]);
    let told = parsed@;
    assert(name == "UNKNOWN"@ ==> told.name is None);
    assert(version == "UNKNOWN"@ ==> told.version is None);
    assert(name != "UNKNOWN"@ ==> told.name == Some(name));
    assert(version != "UNKNOWN"@ ==> told.version == Some(version));
}

/// The name and the version do not depend on the system or the category, nor the system,
/// the model and the device on the name or the version.
pub proof fn names_and_systems_do_not_mix(
    user_agent: String,
    d: DetectionView,
    e: DetectionView,
    one: UserAgent,
    other: UserAgent,
)
    requires
        reported(user_agent, Some(d), one),
        reported(user_agent, Some(e), other),
    ensures
        d.name == e.name && d.version == e.version ==> (forall|v: Option<Seq<char>>|
            #[trigger] shows(one.name, v) == shows(other.name, v)) && (forall|
            v: Option<Seq<char>>,
        | #[trigger]
            shows(one.version, v) == shows(other.version, v)),
        d.os == e.os && d.os_version == e.os_version ==> (forall|v: Option<Seq<char>>|
            #[trigger] shows(one.os, v) == shows(other.os, v)) && (forall|v: Option<Seq<char>>|
            #[trigger] shows(one.os_version, v) == shows(other.os_version, v)) && (forall|
            v: Option<Seq<char>>,
        | #[trigger]
            shows(one.model, v) == shows(other.model, v)),
{
    lemma_reported(user_agent, Some(d), one);
    lemma_reported(user_agent, Some(e), other);
    let a = one@;
    let b = other@;
    if d.name == e.name && d.version == e.version {
        assert(a.name == b.name && a.version == b.version);
    }
    if d.os == e.os && d.os_version == e.os_version {
        assert(a.os == b.os && a.os_version == b.os_version && a.model == b.model);
    }
}

/// Apple's devices and systems go by Apple's names, every Windows is `Windows`, Chrome OS is
/// written out where its version is frozen, and all other systems keep their names.
pub proof fn systems_go_by_their_names(
    user_agent: String,
    d: DetectionView,
    parsed: UserAgent,
    release: Seq<char>,
)
    requires
        reported(user_agent, Some(d), parsed),
    ensures
        d.os == "iPhone"@ || d.os == "iPod"@ ==> shows(parsed.os, Some("iOS"@)),
        d.os == "iPad"@ ==> shows(parsed.os, Some("iPadOS"@)),
        d.os == "Mac OSX"@ ==> shows(parsed.os, Some("macOS"@)),
        d.os == "Windows "@ + release ==> shows(parsed.os, Some("Windows"@)),
        d.os == "ChromeOS"@ && is_frozen(user_agent@, d.os, d.os_version) ==> shows(
            parsed.os,
            Some("Chrome OS"@),
        ),
        !is_apple_device(d.os) && d.os != "Mac OSX"@ && !"Windows "@.is_prefix_of(d.os) && (d.os
            == "ChromeOS"@ ==> !is_frozen(user_agent@, d.os, d.os_version)) ==> tells(
            parsed.os,
            d.os,
        ),
{
    lemma_reported(user_agent, Some(d), parsed);
    lemma_system(user_agent@, d, release);
    reveal_names();
    let on = system(user_agent@, d);
    assert(on.os == "UNKNOWN"@ ==> parsed@.os is None);
    assert(on.os != "UNKNOWN"@ ==> parsed@.os == Some(on.os));
}

/// A version that the browser has frozen is left out; a release of Windows that is not
/// frozen is its version; all other versions are kept as they were detected.
pub proof fn versions_are_told_unless_frozen(
    user_agent: String,
    d: DetectionView,
    parsed: UserAgent,
    release: Seq<char>,
)
    requires
        reported(user_agent, Some(d), parsed),
    ensures
        is_frozen(user_agent@, d.os, d.os_version) ==> parsed.os_version is None,
        !is_frozen(user_agent@, d.os, d.os_version) && d.os == "Windows "@ + release ==> tells(
            parsed.os_version,
            release,
        ),
        !is_frozen(user_agent@, d.os, d.os_version) && !"Windows "@.is_prefix_of(d.os) ==> tells(
            parsed.os_version,
            d.os_version,
        ),
{
    lemma_reported(user_agent, Some(d), parsed);
    lemma_system(user_agent@, d, release);
    let on = system(user_agent@, d);
    assert(on.os_version == "UNKNOWN"@ ==> parsed@.os_version is None);
    assert(on.os_version != "UNKNOWN"@ ==> parsed@.os_version == Some(on.os_version));
}

/// Apple's devices are models, and nothing else is. The iPads are tablets, and nothing else
/// is; the category tells the other devices apart.
pub proof fn devices_are_told_by_category(
    user_agent: String,
    d: DetectionView,
    parsed: UserAgent,
)
    requires
        reported(user_agent, Some(d), parsed),
    ensures
        is_apple_device(d.os) ==> shows(parsed.model, Some(d.os)),
        !is_apple_device(d.os) ==> parsed.model is None,
        parsed.device_type is Tablet <==> d.os == "iPad"@,
        parsed.device_type is Pc <==> d.os != "iPad"@ && d.category == "pc"@,
        parsed.device_type is Mobile <==> d.os != "iPad"@ && (d.category == "smartphone"@
            || d.category == "mobilephone"@),
{
    lemma_reported(user_agent, Some(d), parsed);
    lemma_system(user_agent@, d, d.os);
    let on = system(user_agent@, d);
    assert(parsed@.model == on.model);
}

/// A system is reported by the same rules before placeholders are left out.
pub proof fn systems_are_reported(raw: &str, d: Detection, on: System, release: Seq<char>)
    requires
        call_ensures(report_system, (raw, &d), on),
    ensures
        d.os@ == "iPhone"@ || d.os@ == "iPod"@ ==> on.os@ == "iOS"@,
        d.os@ == "iPad"@ ==> on.os@ == "iPadOS"@,
        d.os@ == "Mac OSX"@ ==> on.os@ == "macOS"@,
        d.os@ == "Windows "@ + release ==> on.os@ == "Windows"@,
        d.os@ == "ChromeOS"@ && is_frozen(raw@, d.os@, d.os_version@) ==> on.os@ == "Chrome OS"@,
        !is_apple_device(d.os@) && d.os@ != "Mac OSX"@ && !"Windows "@.is_prefix_of(d.os@) && (
        d.os@ == "ChromeOS"@ ==> !is_frozen(raw@, d.os@, d.os_version@)) ==> on.os@ == d.os@,
        is_frozen(raw@, d.os@, d.os_version@) ==> on.os_version@ == "UNKNOWN"@,
        !is_frozen(raw@, d.os@, d.os_version@) && d.os@ == "Windows "@ + release
            ==> on.os_version@ == release,
        !is_frozen(raw@, d.os@, d.os_version@) && !"Windows "@.is_prefix_of(d.os@)
            ==> on.os_version@ == d.os_version@,
        is_apple_device(d.os@) ==> shows(on.model, Some(d.os@)),
        !is_apple_device(d.os@) ==> on.model is None,
        on.device_type is Tablet <==> d.os@ == "iPad"@,
        on.device_type is Pc <==> d.os@ != "iPad"@ && d.category@ == "pc"@,
        on.device_type is Mobile <==> d.os@ != "iPad"@ && (d.category@ == "smartphone"@
            || d.category@ == "mobilephone"@),
{
    lemma_system(raw@, d@, release);
    assert(on@ == system(raw@, d@));
    assert(on@.os == on.os@ && on@.os_version == on.os_version@);
    assert(is_apple_device(d.os@) ==> on@.model == Some(d.os@));
    assert(!is_apple_device(d.os@) ==> on@.model is None);
}

/// A frozen system is named exactly where the version is frozen, and then by its own name
/// without a version.
pub proof fn frozen_systems_are_named(
    raw: &str,
    os: &str,
    os_version: &str,
    name: Option<&'static str>,
)
    requires
        call_ensures(frozen_system, (raw, os, os_version), name),
    ensures
        name is Some <==> is_frozen(raw@, os@, os_version@),
        name matches Some(n) ==> {
            &&& os@ == "Windows 10"@ ==> n@ == "Windows"@
            &&& os@ == "ChromeOS"@ ==> n@ == "Chrome OS"@
            &&& os@ == "Mac OSX"@ ==> n@ == "macOS"@
            &&& os@ == "Linux"@ || os@ == "Android"@ ==> n@ == os@
        },
{
    lemma_frozen(raw@, os@, os_version@);
}

/// The placeholder is left out, and every other value is kept.
pub proof fn placeholders_are_left_out(value: &str, kept: Option<String>)
    requires
        call_ensures(known_value, (value,), kept),
    ensures
        tells(kept, value@),
{
}

/// Computers and telephones of both kinds are told apart; no category stands for a tablet.
pub proof fn categories_are_told_apart(category: &str, kind: DeviceType)
    requires
        call_ensures(device_type, (category,), kind),
    ensures
        kind is Pc <==> category@ == "pc"@,
        kind is Mobile <==> category@ == "smartphone"@ || category@ == "mobilephone"@,
        !(kind is Tablet),
{
    reveal_names();
}

} // verus!
