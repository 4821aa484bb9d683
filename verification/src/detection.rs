//! What a general-purpose detector makes of a user agent, and how that is corrected.
use crate::text::{after_prefix, contains, equals, occurs, string_view, strip_prefix};
use crate::user_agent::DeviceType;
use vstd::prelude::*;

verus! {

/// What the detector found: a field holds a placeholder, `UNKNOWN`, where it found nothing.
#[derive(Debug, Clone, PartialEq, Eq)]
pub struct Detection {
    pub name: String,
    pub category: String,
    pub os: String,
    pub os_version: String,
    pub version: String,
}

/// A [`Detection`] as a mathematical value.
pub struct DetectionView {
    pub name: Seq<char>,
    pub category: Seq<char>,
    pub os: Seq<char>,
    pub os_version: Seq<char>,
    pub version: Seq<char>,
}

impl View for Detection {
    type V = DetectionView;

    open spec fn view(&self) -> DetectionView {
        DetectionView {
            name: self.name@,
            category: self.category@,
            os: self.os@,
            os_version: self.os_version@,
            version: self.version@,
        }
    }
}

/// The view of an optional detection.
pub open spec fn detection_view(d: Option<Detection>) -> Option<DetectionView> {
    match d {
        Some(found) => Some(found@),
        None => None,
    }
}

/// A detection in which nothing was found.
pub open spec fn nothing_detected() -> DetectionView {
    DetectionView {
        name: "UNKNOWN"@,
        category: "UNKNOWN"@,
        os: "UNKNOWN"@,
        os_version: "UNKNOWN"@,
        version: "UNKNOWN"@,
    }
}

/// What `woothee::parser::Parser::parse` finds in a user agent.
pub uninterp spec fn detected_by_woothee(user_agent: Seq<char>) -> Option<DetectionView>;

/// Runs `woothee::parser::Parser::parse` and keeps the five fields that matter here.
///
/// Taken on trust: it does not panic; what it finds depends on the user agent alone; and
/// where the user agent is empty or a single dash, it finds nothing in any field.
#[verifier::external_body]
pub(crate) fn detect(user_agent: &str) -> (found: Option<Detection>)
    ensures
        detection_view(found) == detected_by_woothee(user_agent@),
        user_agent@ == ""@ || user_agent@ == "-"@ ==> detection_view(found) == Some(
            nothing_detected(),
        ),
{
    let found = woothee::parser::Parser::new().parse(user_agent)?;
    Some(
        Detection {
            name: found.name.to_owned(),
            category: found.category.to_owned(),
            os: found.os.to_owned(),
            os_version: found.os_version.into_owned(),
            version: found.version.to_owned(),
        },
    )
}

/// Reads the constant `woothee::woothee::VALUE_UNKNOWN`, which stands in a detection for
/// what was not found.
///
/// Taken on trust: it is the string `UNKNOWN`.
#[verifier::external_body]
fn unknown() -> (value: &'static str)
    ensures
        value@ == "UNKNOWN"@,
{
    woothee::woothee::VALUE_UNKNOWN
}

/// A detected value, unless nothing was detected.
pub open spec fn known(value: Seq<char>) -> Option<Seq<char>> {
    if value == "UNKNOWN"@ {
        None
    } else {
        Some(value)
    }
}

/// The kind of device that a detected category stands for.
pub open spec fn device_of(category: Seq<char>) -> DeviceType {
    if category == "pc"@ {
        DeviceType::Pc
    } else if category == "smartphone"@ || category == "mobilephone"@ {
        DeviceType::Mobile
    } else {
        DeviceType::Unknown
    }
}

/// The system's name where the browser reports a fixed version in place of the real one
/// (see <https://www.chromium.org/updates/ua-reduction/>; Safari does so too).
pub open spec fn frozen(raw: Seq<char>, os: Seq<char>, os_version: Seq<char>) -> Option<Seq<char>> {
    if os == "Windows 10"@ && os_version == "NT 10.0"@ && occurs(
        "Windows NT 10.0; Win64; x64"@,
        raw,
    ) {
        Some("Windows"@)
    } else if os == "Linux"@ && occurs("X11; Linux x86_64"@, raw) {
        Some("Linux"@)
    } else if os == "ChromeOS"@ && occurs("X11; CrOS x86_64 14541.0.0"@, raw) {
        Some("Chrome OS"@)
    } else if os == "Android"@ && os_version == "10"@ && occurs("Linux; Android 10; K"@, raw) {
        Some("Android"@)
    } else if os == "Mac OSX"@ && os_version == "10.15.7"@ && occurs(
        "Macintosh; Intel Mac OS X 10_15_7"@,
        raw,
    ) {
        Some("macOS"@)
    } else {
        None
    }
}

/// A system as it is reported, with the model and the kind of device that it implies.
pub struct SystemView {
    pub os: Seq<char>,
    pub os_version: Seq<char>,
    pub model: Option<Seq<char>>,
    pub device_type: DeviceType,
}

/// The detected system with a frozen version dropped, and with Apple's devices, which the
/// detector takes for systems, moved to the model.
pub open spec fn renamed(raw: Seq<char>, found: DetectionView) -> SystemView {
    let device_type = device_of(found.category);
    match frozen(raw, found.os, found.os_version) {
        Some(os) => SystemView { os, os_version: "UNKNOWN"@, model: None, device_type },
        None => if found.os == "iPhone"@ || found.os == "iPod"@ {
            SystemView {
                os: "iOS"@,
                os_version: found.os_version,
                model: Some(found.os),
                device_type,
            }
        } else if found.os == "iPad"@ {
            SystemView {
                os: "iPadOS"@,
                os_version: found.os_version,
                model: Some(found.os),
                device_type: DeviceType::Tablet,
            }
        } else if found.os == "Mac OSX"@ {
            SystemView { os: "macOS"@, os_version: found.os_version, model: None, device_type }
        } else {
            SystemView { os: found.os, os_version: found.os_version, model: None, device_type }
        },
    }
}

/// The system as it is reported: the detector puts the version of Windows into the
/// system's name.
pub open spec fn system(raw: Seq<char>, found: DetectionView) -> SystemView {
    let named = renamed(raw, found);
    match after_prefix(named.os, "Windows "@) {
        Some(version) => SystemView {
            os: "Windows"@,
            os_version: version,
            model: named.model,
            device_type: named.device_type,
        },
        None => named,
    }
}

/// A system as it is reported.
pub struct System {
    pub os: String,
    pub os_version: String,
    pub model: Option<String>,
    pub device_type: DeviceType,
}

impl View for System {
    type V = SystemView;

    open spec fn view(&self) -> SystemView {
        SystemView {
            os: self.os@,
            os_version: self.os_version@,
            model: string_view(self.model),
            device_type: self.device_type,
        }
    }
}

/// Keeps a detected value, unless nothing was detected.
pub fn known_value(value: &str) -> (kept: Option<String>)
    ensures
        string_view(kept) == known(value@),
{
    if equals(value, unknown()) {
        None
    } else {
        Some(value.to_owned())
    }
}

/// Finds the kind of device that a detected category stands for.
pub fn device_type(category: &str) -> (kind: DeviceType)
    ensures
        kind == device_of(category@),
{
    if equals(category, "pc") {
        DeviceType::Pc
    } else if equals(category, "smartphone") || equals(category, "mobilephone") {
        DeviceType::Mobile
    } else {
        DeviceType::Unknown
    }
}

/// Names the system whose version the browser has frozen, if it has.
pub fn frozen_system(raw: &str, os: &str, os_version: &str) -> (name: Option<&'static str>)
    ensures
        match name {
            Some(n) => frozen(raw@, os@, os_version@) == Some(n@),
            None => frozen(raw@, os@, os_version@) is None,
        },
{
    if equals(os, "Windows 10") && equals(os_version, "NT 10.0") && contains(
        raw,
        "Windows NT 10.0; Win64; x64",
    ) {
        Some("Windows")
    } else if equals(os, "Linux") && contains(raw, "X11; Linux x86_64") {
        Some("Linux")
    } else if equals(os, "ChromeOS") && contains(raw, "X11; CrOS x86_64 14541.0.0") {
        Some("Chrome OS")
    } else if equals(os, "Android") && equals(os_version, "10") && contains(
        raw,
        "Linux; Android 10; K",
    ) {
        Some("Android")
    } else if equals(os, "Mac OSX") && equals(os_version, "10.15.7") && contains(
        raw,
        "Macintosh; Intel Mac OS X 10_15_7",
    ) {
        Some("macOS")
    } else {
        None
    }
}

/// Reports the system that was detected in a user agent.
pub fn report_system(raw: &str, found: &Detection) -> (reported: System)
    ensures
        reported@ == system(raw@, found@),
{
    let os = found.os.as_str();
    let mut named = System {
        os: os.to_owned(),
        os_version: found.os_version.as_str().to_owned(),
        model: None,
        device_type: device_type(found.category.as_str()),
    };
    if let Some(name) = frozen_system(raw, os, found.os_version.as_str()) {
        named.os = name.to_owned();
        named.os_version = unknown().to_owned();
    } else if equals(os, "iPhone") || equals(os, "iPod") {
        named.model = Some(os.to_owned());
        named.os = "iOS".to_owned();
    } else if equals(os, "iPad") {
        named.model = Some(os.to_owned());
        named.device_type = DeviceType::Tablet;
        named.os = "iPadOS".to_owned();
    } else if equals(os, "Mac OSX") {
        named.os = "macOS".to_owned();
    }
    assert(named@ == renamed(raw@, found@));
    let release = match strip_prefix(named.os.as_str(), "Windows ") {
        Some(version) => Some(version.to_owned()),
        None => None,
    };
    if let Some(version) = release {
        named.os = "Windows".to_owned();
        named.os_version = version;
    }
    named
}

} // verus!
