//! Reading a `User-Agent` header: what runs, on which system, on what kind of device.
use crate::agent_laws::nothing_is_read_from_nothing;
use crate::custom::{custom_parts, platform, read_segments, split_custom};
use crate::detection::{
    detect, detected_by_woothee, detection_view, known, known_value, report_system, system,
    Detection, DetectionView,
};
use crate::electron::{application, find_products, products, select_application, ELECTRON_PRODUCT};
use crate::text::{contains, equals, occurs, pair_view, slice_view, string_view};
use vstd::prelude::*;

verus! {

/// The kind of device an agent runs on.
#[derive(Debug, Clone, Copy, PartialEq, Eq, Structural)]
pub enum DeviceType {
    Pc,
    Mobile,
    Tablet,
    Unknown,
}

/// What is known of a user agent.
#[derive(Debug, Clone, PartialEq, Eq)]
pub struct UserAgent {
    pub name: Option<String>,
    pub version: Option<String>,
    pub os: Option<String>,
    pub os_version: Option<String>,
    pub model: Option<String>,
    pub device_type: DeviceType,
    pub raw: String,
}

/// A [`UserAgent`] as a mathematical value.
pub struct AgentView {
    pub name: Option<Seq<char>>,
    pub version: Option<Seq<char>>,
    pub os: Option<Seq<char>>,
    pub os_version: Option<Seq<char>>,
    pub model: Option<Seq<char>>,
    pub device_type: DeviceType,
    pub raw: Seq<char>,
}

impl View for UserAgent {
    type V = AgentView;

    open spec fn view(&self) -> AgentView {
        AgentView {
            name: string_view(self.name),
            version: string_view(self.version),
            os: string_view(self.os),
            os_version: string_view(self.os_version),
            model: string_view(self.model),
            device_type: self.device_type,
            raw: self.raw@,
        }
    }
}

/// The name, the version, the model, the system and the system's version that a custom
/// user agent gives.
pub open spec fn custom_fields(raw: Seq<char>) -> Option<
    (Seq<char>, Seq<char>, Seq<char>, Seq<char>, Option<Seq<char>>),
> {
    match custom_parts(raw) {
        Some((name, version, segments)) => match platform(segments) {
            Some((model, os, os_version)) => Some((name, version, model, os, os_version)),
            None => None,
        },
        None => None,
    }
}

/// The kind of device that a custom user agent runs on.
pub open spec fn custom_device(model: Seq<char>, os: Seq<char>) -> DeviceType {
    if occurs("iPad"@, model) {
        DeviceType::Tablet
    } else if os == "Android"@ || os == "iOS"@ {
        DeviceType::Mobile
    } else {
        DeviceType::Unknown
    }
}

/// The application that an Electron user agent names.
pub open spec fn electron_application(raw: Seq<char>) -> Option<(Seq<char>, Seq<char>)> {
    application(products(raw, 0))
}

/// What is reported of a user agent in which `found` was detected.
pub open spec fn detected_agent(raw: Seq<char>, found: Option<DetectionView>) -> AgentView {
    match found {
        None => AgentView {
            name: None,
            version: None,
            os: None,
            os_version: None,
            model: None,
            device_type: DeviceType::Unknown,
            raw,
        },
        Some(d) => {
            let on = system(raw, d);
            let (name, version) = if occurs("Electron/"@, raw) && electron_application(
                raw,
            ) is Some {
                electron_application(raw)->0
            } else {
                (d.name, d.version)
            };
            AgentView {
                name: known(name),
                version: known(version),
                os: known(on.os),
                os_version: known(on.os_version),
                model: on.model,
                device_type: on.device_type,
                raw,
            }
        },
    }
}

/// What is reported of a user agent: its own fields where it is custom and does not claim
/// to be a browser, and otherwise what was detected.
pub open spec fn agent(raw: Seq<char>, found: Option<DetectionView>) -> AgentView {
    if !occurs("Mozilla/"@, raw) && custom_fields(raw) is Some {
        let (name, version, model, os, os_version) = custom_fields(raw)->0;
        AgentView {
            name: Some(name),
            version: Some(version),
            os: Some(os),
            os_version,
            model: Some(model),
            device_type: custom_device(model, os),
            raw,
        }
    } else {
        detected_agent(raw, found)
    }
}

impl std::ops::Deref for UserAgent {
    type Target = str;

    fn deref(&self) -> (raw: &str)
        ensures
            raw@ == self@.raw,
    {
        self.raw.as_str()
    }
}

impl UserAgent {
    /// Reads the name, the version, the model, the system and the system's version off a
    /// custom user agent.
    pub fn parse_custom<'a>(user_agent: &'a str) -> (fields: Option<
        (&'a str, &'a str, &'a str, &'a str, Option<&'a str>),
    >)
        ensures
            match fields {
                Some((name, version, model, os, os_version)) => custom_fields(user_agent@) == Some(
                    (name@, version@, model@, os@, slice_view(os_version)),
                ),
                None => custom_fields(user_agent@) is None,
            },
    {
        let (name, version, segments) = match split_custom(user_agent) {
            Some(parts) => parts,
            None => {
                return None;
            },
        };
        match read_segments(segments) {
            Some((model, os, os_version)) => Some((name, version, model, os, os_version)),
            None => None,
        }
    }

    /// Finds the name and the version of the application in an Electron user agent.
    pub fn parse_electron<'a>(user_agent: &'a str) -> (app: Option<(&'a str, &'a str)>)
        ensures
            pair_view(app) == electron_application(user_agent@),
    {
        let list = find_products(ELECTRON_PRODUCT, user_agent);
        select_application(&list)
    }

    /// Reports a user agent in which `found` was detected.
    pub fn from_detection(user_agent: String, found: Option<Detection>) -> (agent: Self)
        ensures
            agent@ == detected_agent(user_agent@, detection_view(found)),
    {
        let found = match found {
            Some(found) => found,
            None => {
                return UserAgent {
                    raw: user_agent,
                    name: None,
                    version: None,
                    os: None,
                    os_version: None,
                    model: None,
                    device_type: DeviceType::Unknown,
                };
            },
        };
        let on = report_system(user_agent.as_str(), &found);
        let app = if contains(user_agent.as_str(), "Electron/") {
            UserAgent::parse_electron(user_agent.as_str())
        } else {
            None
        };
        let (name, version) = match app {
            Some((name, version)) => (known_value(name), known_value(version)),
            None => (known_value(found.name.as_str()), known_value(found.version.as_str())),
        };
        UserAgent {
            name,
            version,
            os: known_value(on.os.as_str()),
            os_version: known_value(on.os_version.as_str()),
            model: on.model,
            device_type: on.device_type,
            raw: user_agent,
        }
    }

    /// Reads a user agent.
    #[must_use]
    pub fn parse(user_agent: String) -> (parsed: Self)
        ensures
            parsed@ == agent(user_agent@, detected_by_woothee(user_agent@)),
            user_agent@ == ""@ || user_agent@ == "-"@ ==> parsed@ == (AgentView {
                name: None,
                version: None,
                os: None,
                os_version: None,
                model: None,
                device_type: DeviceType::Unknown,
                raw: user_agent@,
            }),
    {
        proof {
            if user_agent@ == ""@ || user_agent@ == "-"@ {
                nothing_is_read_from_nothing(user_agent@);
            }
        }
        if !contains(user_agent.as_str(), "Mozilla/") {
            if let Some((name, version, model, os, os_version)) = UserAgent::parse_custom(
                user_agent.as_str(),
            ) {
                let mut device_type = DeviceType::Unknown;
                if equals(os, "Android") || equals(os, "iOS") {
                    device_type = DeviceType::Mobile;
                }
                if contains(model, "iPad") {
                    device_type = DeviceType::Tablet;
                }
                let os_version = match os_version {
                    Some(version) => Some(version.to_owned()),
                    None => None,
                };
                return UserAgent {
                    name: Some(name.to_owned()),
                    version: Some(version.to_owned()),
                    os: Some(os.to_owned()),
                    os_version,
                    model: Some(model.to_owned()),
                    device_type,
                    raw: user_agent,
                };
            }
        }
        let found = detect(user_agent.as_str());
        UserAgent::from_detection(user_agent, found)
    }
}

} // verus!
