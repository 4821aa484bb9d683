use mas_graphql::custom::{read_segments, split_custom, CUSTOM_USER_AGENT};
use mas_graphql::detection::{
    device_type, frozen_system, known_value, report_system, Detection,
};
use mas_graphql::electron::{select_application, ELECTRON_PRODUCT};
use mas_graphql::text;
use mas_graphql::user_agent::{DeviceType, UserAgent};

fn agent(
    raw: &str,
    name: Option<&str>,
    version: Option<&str>,
    os: Option<&str>,
    os_version: Option<&str>,
    model: Option<&str>,
    device_type: DeviceType,
) -> UserAgent {
    UserAgent {
        name: name.map(str::to_owned),
        version: version.map(str::to_owned),
        os: os.map(str::to_owned),
        os_version: os_version.map(str::to_owned),
        model: model.map(str::to_owned),
        device_type,
        raw: raw.to_owned(),
    }
}

fn detection(name: &str, category: &str, os: &str, os_version: &str, version: &str) -> Detection {
    Detection {
        name: name.to_owned(),
        category: category.to_owned(),
        os: os.to_owned(),
        os_version: os_version.to_owned(),
        version: version.to_owned(),
    }
}

#[test]
fn whitespace_agrees_with_unicode() {
    for c in '\0'..=char::MAX {
        assert_eq!(text::whitespace(c), c.is_whitespace(), "{c:?}");
    }
}

#[test]
fn strings_are_cut_like_the_standard_library_does() {
    let samples = [
        "", " ", "/", ";", "a", "a/b", "/a", "a/", "a/b/c", " a ; b;c ", ";;", "\u{3000}x\u{2003}",
        "Build", "xBuild", "Buildx", "Windows ", "Windows 10", "é/ü é", "ab/abab",
    ];
    for s in samples {
        assert_eq!(text::trim(s), s.trim());
        for c in ['/', ';', ' ', 'é'] {
            assert_eq!(text::split_once(s, c), s.split_once(c));
            assert_eq!(text::split(s, c), s.split(c).collect::<Vec<_>>());
        }
        for t in samples {
            assert_eq!(text::contains(s, t), s.contains(t));
            assert_eq!(text::equals(s, t), s == t);
            assert_eq!(text::strip_prefix(s, t), s.strip_prefix(t));
            assert_eq!(text::strip_suffix(s, t), s.strip_suffix(t));
        }
    }
}

#[test]
fn patterns_are_kept() {
    assert_eq!(
        CUSTOM_USER_AGENT,
        "^(?P<name>[^/]+)/(?P<version>[^ ]+) \\((?P<segments>.+)\\)$"
    );
    assert_eq!(ELECTRON_PRODUCT, "(?m)\\w+/[\\w.]+");
}

/// The grammar of custom user agents, written out by hand.
fn custom_by_hand(s: &str) -> Option<(&str, &str, &str)> {
    let (name, rest) = s.split_once('/')?;
    let (version, rest) = rest.split_once(' ')?;
    let segments = rest.strip_prefix('(')?.strip_suffix(')')?;
    let fits = !name.is_empty()
        && !version.is_empty()
        && !segments.is_empty()
        && !segments.contains('\n');
    fits.then_some((name, version, segments))
}

#[test]
fn custom_agents_are_split_by_their_grammar() {
    let samples = [
        "Element X/1.6.8 (iPhone XS Max; iOS 15.5; Scale/3.00)",
        "a/b (c)",
        "a/b (c",
        "a/b c)",
        "a/b ()",
        "/b (c)",
        "a/ (c)",
        "a/b/c (d)",
        "a/b (c) (d)",
        "a/b  (c)",
        "a b/c (d)",
        "a/b (c\nd)",
        "a\nb/c (d)",
        "a/b\nc (d)",
        "a/b (c)\n",
        "a/b (c) ",
        "a/b (c\rd)",
        "ä/ö (ü; ß)",
        "",
        "/",
        "a",
        "a/b",
        "a/b (",
        "a/b )",
        "a/b ())",
        "a/b (()",
    ];
    for s in samples {
        assert_eq!(split_custom(s), custom_by_hand(s), "{s:?}");
    }
    assert_eq!(split_custom("a/b/c (d; e)"), Some(("a", "b/c", "d; e")));
    assert_eq!(split_custom("a/b (c) (d)"), Some(("a", "b", "c) (d")));
}

#[test]
fn segments_give_model_and_system() {
    assert_eq!(
        read_segments("iPhone XS Max; iOS 15.5; Scale/3.00"),
        Some(("iPhone XS Max", "iOS", Some("15.5")))
    );
    assert_eq!(
        read_segments("Linux; U; Android 7.1.2; SM-J510FN Build/N2G48B; Flavour GPlay"),
        Some(("SM-J510FN", "Android", Some("7.1.2")))
    );
    // Three segments are too few for the longer form
    assert_eq!(read_segments("Linux; U; Android 9"), Some(("Linux", "U", None)));
    assert_eq!(read_segments("Linux;U;Android 9;P"), Some(("P", "Android", Some("9"))));
    assert_eq!(read_segments("m;o"), Some(("m", "o", None)));
    assert_eq!(read_segments("m;o 1 2"), Some(("m", "o", Some("1 2"))));
    assert_eq!(read_segments("only"), None);
    assert_eq!(read_segments(";"), Some(("", "", None)));
    // A build goes whether a slash or the word marks it
    assert_eq!(read_segments("Pixel 4 Build; x"), Some(("Pixel 4", "x", None)));
    assert_eq!(read_segments("Pixel 4/Build; x"), Some(("Pixel 4", "x", None)));
    assert_eq!(read_segments("PixelBuild/1; x"), Some(("Pixel", "x", None)));
    assert_eq!(read_segments("BuildBuild; x"), Some(("Build", "x", None)));
}

#[test]
fn custom_phone() {
    let raw = "Element X/1.6.8 (iPhone XS Max; iOS 15.5; Scale/3.00)";
    assert_eq!(
        UserAgent::parse(raw.to_owned()),
        agent(
            raw,
            Some("Element X"),
            Some("1.6.8"),
            Some("iOS"),
            Some("15.5"),
            Some("iPhone XS Max"),
            DeviceType::Mobile
        )
    );
    assert_eq!(
        UserAgent::parse_custom(raw),
        Some(("Element X", "1.6.8", "iPhone XS Max", "iOS", Some("15.5")))
    );
}

#[test]
fn custom_android() {
    let raw = "Element/1.5.0 (Xiaomi Mi 9T; Android 11; RKQ1.200826.002; Flavour GooglePlay; MatrixAndroidSdk2 1.5.2)";
    assert_eq!(
        UserAgent::parse(raw.to_owned()),
        agent(
            raw,
            Some("Element"),
            Some("1.5.0"),
            Some("Android"),
            Some("11"),
            Some("Xiaomi Mi 9T"),
            DeviceType::Mobile
        )
    );
    let raw = "Element/1.0.0 (Linux; U; Android 6.0.1; SM-A510F Build/MMB29; Flavour GPlay; MatrixAndroidSdk2 1.0)";
    assert_eq!(
        UserAgent::parse(raw.to_owned()),
        agent(
            raw,
            Some("Element"),
            Some("1.0.0"),
            Some("Android"),
            Some("6.0.1"),
            Some("SM-A510F"),
            DeviceType::Mobile
        )
    );
}

#[test]
fn custom_tablet_and_unknown_device() {
    let raw = "Element/1.9.3 (iPad Pro (12.9-inch) (3rd generation); iOS 15.5; Scale/3.00)";
    let parsed = UserAgent::parse(raw.to_owned());
    assert_eq!(parsed.device_type, DeviceType::Tablet);
    assert_eq!(parsed.model.as_deref(), Some("iPad Pro (12.9-inch) (3rd generation)"));

    let raw = "thing/1 (box; Plan9)";
    assert_eq!(
        UserAgent::parse(raw.to_owned()),
        agent(raw, Some("thing"), Some("1"), Some("Plan9"), None, Some("box"), DeviceType::Unknown)
    );
}

#[test]
fn custom_reports_what_was_written() {
    // Even the detector's own placeholder, where an application writes it
    let raw = "UNKNOWN/2 (UNKNOWN; UNKNOWN UNKNOWN)";
    assert_eq!(
        UserAgent::parse(raw.to_owned()),
        agent(
            raw,
            Some("UNKNOWN"),
            Some("2"),
            Some("UNKNOWN"),
            Some("UNKNOWN"),
            Some("UNKNOWN"),
            DeviceType::Unknown
        )
    );
}

#[test]
fn browsers_are_never_custom() {
    let raw = "x/1 (m; Android) Mozilla/5.0)";
    let parsed = UserAgent::parse(raw.to_owned());
    assert!(UserAgent::parse_custom(raw).is_some());
    assert_ne!(parsed.name.as_deref(), Some("x"));
    assert_eq!(parsed.model, None);
}

#[test]
fn chrome_on_windows() {
    let raw = "Mozilla/5.0 (Windows NT 10.0; Win64; x64) AppleWebKit/537.36 (KHTML, like Gecko) Chrome/109.0.5414.87 Safari/537.36";
    assert_eq!(
        UserAgent::parse(raw.to_owned()),
        agent(
            raw,
            Some("Chrome"),
            Some("109.0.5414.87"),
            Some("Windows"),
            None,
            None,
            DeviceType::Pc
        )
    );
}

#[test]
fn old_windows_keeps_its_release() {
    let raw = "Mozilla/5.0 (Windows NT 6.1; WOW64; rv:40.0) Gecko/20100101 Firefox/40.0";
    assert_eq!(
        UserAgent::parse(raw.to_owned()),
        agent(
            raw,
            Some("Firefox"),
            Some("40.0"),
            Some("Windows"),
            Some("7"),
            None,
            DeviceType::Pc
        )
    );
}

#[test]
fn frozen_linux_chrome_os_android_and_macos() {
    let raw = "Mozilla/5.0 (X11; Linux x86_64) AppleWebKit/537.36 (KHTML, like Gecko) Chrome/100.0.0.0 Safari/537.36";
    let parsed = UserAgent::parse(raw.to_owned());
    assert_eq!((parsed.os.as_deref(), parsed.os_version.as_deref()), (Some("Linux"), None));

    let raw = "Mozilla/5.0 (X11; CrOS x86_64 14541.0.0) AppleWebKit/537.36 (KHTML, like Gecko) Chrome/107.0.0.0 Safari/537.36";
    let parsed = UserAgent::parse(raw.to_owned());
    assert_eq!((parsed.os.as_deref(), parsed.os_version.as_deref()), (Some("Chrome OS"), None));

    let raw = "Mozilla/5.0 (Linux; Android 10; K) AppleWebKit/537.36 (KHTML, like Gecko) Chrome/100.0.0.0 Mobile Safari/537.36";
    let parsed = UserAgent::parse(raw.to_owned());
    assert_eq!((parsed.os.as_deref(), parsed.os_version.as_deref()), (Some("Android"), None));
    assert_eq!(parsed.device_type, DeviceType::Mobile);

    let raw = "Mozilla/5.0 (Macintosh; Intel Mac OS X 10_15_7) AppleWebKit/605.1.15 (KHTML, like Gecko) Version/17.3.1 Safari/605.1.15";
    let parsed = UserAgent::parse(raw.to_owned());
    assert_eq!(
        parsed,
        agent(raw, Some("Safari"), Some("17.3.1"), Some("macOS"), None, None, DeviceType::Pc)
    );
}

#[test]
fn other_mac_versions_are_kept() {
    let raw = "Mozilla/5.0 (Macintosh; Intel Mac OS X 10_14_6) AppleWebKit/605.1.15 (KHTML, like Gecko) Version/13.1 Safari/605.1.15";
    let parsed = UserAgent::parse(raw.to_owned());
    assert_eq!(parsed.os.as_deref(), Some("macOS"));
    assert_eq!(parsed.os_version.as_deref(), Some("10.14.6"));
}

#[test]
fn apple_devices_are_models() {
    let raw = "Mozilla/5.0 (iPhone; CPU iPhone OS 8_4_1 like Mac OS X) AppleWebKit/600.1.4 (KHTML, like Gecko) Version/8.0 Mobile/12H321 Safari/600.1.4";
    assert_eq!(
        UserAgent::parse(raw.to_owned()),
        agent(
            raw,
            Some("Safari"),
            Some("8.0"),
            Some("iOS"),
            Some("8.4.1"),
            Some("iPhone"),
            DeviceType::Mobile
        )
    );
    let raw = "Mozilla/5.0 (iPad; CPU OS 8_4_1 like Mac OS X) AppleWebKit/600.1.4 (KHTML, like Gecko) Version/8.0 Mobile/12H321 Safari/600.1.4";
    assert_eq!(
        UserAgent::parse(raw.to_owned()),
        agent(
            raw,
            Some("Safari"),
            Some("8.0"),
            Some("iPadOS"),
            Some("8.4.1"),
            Some("iPad"),
            DeviceType::Tablet
        )
    );
}

#[test]
fn electron_application_is_named() {
    let raw = "Mozilla/5.0 (X11; Linux x86_64) AppleWebKit/537.36 (KHTML, like Gecko) ElementNightly/2022120201 Chrome/104.0.5112.124 Electron/20.1.1 Safari/537.36";
    assert_eq!(
        UserAgent::parse(raw.to_owned()),
        agent(
            raw,
            Some("ElementNightly"),
            Some("2022120201"),
            Some("Linux"),
            None,
            None,
            DeviceType::Pc
        )
    );
    assert_eq!(
        UserAgent::parse_electron(raw),
        Some(("ElementNightly", "2022120201"))
    );
}

#[test]
fn electron_without_application_keeps_the_browser() {
    let raw = "Mozilla/5.0 (X11; Linux x86_64) AppleWebKit/537.36 (KHTML, like Gecko) Chrome/104.0.5112.124 Electron/20.1.1 Safari/537.36";
    let parsed = UserAgent::parse(raw.to_owned());
    assert_eq!(UserAgent::parse_electron(raw), None);
    assert_eq!(parsed.name.as_deref(), Some("Chrome"));
    assert_eq!(parsed.version.as_deref(), Some("104.0.5112.124"));
}

/// The products in a user agent, found by hand.
fn products_by_hand(s: &str) -> Vec<String> {
    let word = |c: char| c.is_ascii_alphanumeric() || c == '_';
    let chars: Vec<char> = s.chars().collect();
    let mut found = Vec::new();
    let mut from = 0;
    while from < chars.len() {
        let mut slash = from;
        while slash < chars.len() && word(chars[slash]) {
            slash += 1;
        }
        let mut to = slash + 1;
        while to < chars.len() && (word(chars[to]) || chars[to] == '.') {
            to += 1;
        }
        if slash > from && slash < chars.len() && chars[slash] == '/' && to > slash + 1 {
            found.push(chars[from..to].iter().collect());
            from = to;
        } else {
            from += 1;
        }
    }
    found
}

#[test]
fn products_are_found_from_left_to_right() {
    let samples = [
        "", "/", "a/", "/b", "a/b", "a/b/c", "a/b.c/d", "a-b/c", "a/-b/c", "x a/.. y", "a.b/c",
        "Mozilla/5.0 Chrome/1 Safari/2 app/3", "_/_", "a//b", "a/b c/d", "a/b\nc/d", "Chrome/1/2",
        "Mozilla/x.y-z/1",
    ];
    for s in samples {
        let by_hand = products_by_hand(s);
        let list: Vec<&str> = by_hand.iter().map(String::as_str).collect();
        assert_eq!(UserAgent::parse_electron(s), select_application(&list), "{s:?}");
    }
    assert_eq!(UserAgent::parse_electron("a/b.c/d"), Some(("a", "b.c")));
    assert_eq!(UserAgent::parse_electron("x-y/1"), Some(("y", "1")));
    assert_eq!(UserAgent::parse_electron("Chrome/1/app/2"), Some(("app", "2")));
    assert_eq!(UserAgent::parse_electron("Chrome/app/2"), None);
    assert_eq!(UserAgent::parse_electron("äpp/1"), Some(("äpp", "1")));
    assert_eq!(UserAgent::parse_electron("☃/1"), None);
}

#[test]
fn first_application_is_selected() {
    assert_eq!(select_application(&vec![]), None);
    assert_eq!(select_application(&vec!["Mozilla/5.0", "Safari/1"]), None);
    assert_eq!(
        select_application(&vec!["Mozilla/5.0", "one/1", "two/2"]),
        Some(("one", "1"))
    );
    assert_eq!(select_application(&vec!["none", "one/1"]), Some(("one", "1")));
    assert_eq!(select_application(&vec!["mozilla/5.0"]), Some(("mozilla", "5.0")));
}

#[test]
fn electron_placeholder_is_left_out() {
    let raw = "UNKNOWN/UNKNOWN Electron/1";
    let found = detection("Chrome", "pc", "Linux", "6", "1.2");
    assert_eq!(
        UserAgent::from_detection(raw.to_owned(), Some(found)),
        agent(raw, None, None, Some("Linux"), Some("6"), None, DeviceType::Pc)
    );
}

#[test]
fn nothing_comes_from_nothing() {
    for raw in ["", "-"] {
        assert_eq!(
            UserAgent::parse(raw.to_owned()),
            agent(raw, None, None, None, None, None, DeviceType::Unknown)
        );
    }
}

#[test]
fn what_nobody_knows_is_kept_raw() {
    let raw = "some gibberish";
    let parsed = UserAgent::parse(raw.to_owned());
    assert_eq!(parsed, agent(raw, None, None, None, None, None, DeviceType::Unknown));
    assert_eq!(&*parsed, raw);
    assert_eq!(parsed.len(), raw.len());
}

#[test]
fn detection_is_corrected() {
    let raw = "anything";
    let report = |os: &str, os_version: &str| {
        let found = detection("n", "smartphone", os, os_version, "v");
        let on = report_system(raw, &found);
        (on.os, on.os_version, on.model, on.device_type)
    };
    let own = |s: &str| s.to_owned();
    assert_eq!(
        report("iPhone", "1"),
        (own("iOS"), own("1"), Some(own("iPhone")), DeviceType::Mobile)
    );
    assert_eq!(
        report("iPod", "1"),
        (own("iOS"), own("1"), Some(own("iPod")), DeviceType::Mobile)
    );
    assert_eq!(
        report("iPad", "1"),
        (own("iPadOS"), own("1"), Some(own("iPad")), DeviceType::Tablet)
    );
    assert_eq!(report("Mac OSX", "1"), (own("macOS"), own("1"), None, DeviceType::Mobile));
    assert_eq!(report("Windows 98", "98"), (own("Windows"), own("98"), None, DeviceType::Mobile));
    // Not frozen, since the header does not say so
    assert_eq!(
        report("Windows 10", "NT 10.0"),
        (own("Windows"), own("10"), None, DeviceType::Mobile)
    );
    assert_eq!(report("Android", "10"), (own("Android"), own("10"), None, DeviceType::Mobile));
}

#[test]
fn frozen_systems() {
    let mac = "(Macintosh; Intel Mac OS X 10_15_7)";
    assert_eq!(frozen_system(mac, "Mac OSX", "10.15.7"), Some("macOS"));
    assert_eq!(frozen_system(mac, "Mac OSX", "10.15.6"), None);
    assert_eq!(frozen_system(mac, "iPhone", "10.15.7"), None);
    assert_eq!(
        frozen_system("Windows NT 10.0; Win64; x64", "Windows 10", "NT 10.0"),
        Some("Windows")
    );
    assert_eq!(frozen_system("Windows NT 10.0; WOW64", "Windows 10", "NT 10.0"), None);
    assert_eq!(frozen_system("X11; Linux x86_64", "Linux", "whatever"), Some("Linux"));
    assert_eq!(
        frozen_system("X11; CrOS x86_64 14541.0.0", "ChromeOS", ""),
        Some("Chrome OS")
    );
    assert_eq!(frozen_system("Linux; Android 10; K", "Android", "10"), Some("Android"));
    assert_eq!(frozen_system("Linux; Android 10; K", "Android", "11"), None);
}

#[test]
fn categories_are_devices() {
    assert_eq!(device_type("pc"), DeviceType::Pc);
    assert_eq!(device_type("smartphone"), DeviceType::Mobile);
    assert_eq!(device_type("mobilephone"), DeviceType::Mobile);
    assert_eq!(device_type("crawler"), DeviceType::Unknown);
    assert_eq!(device_type("UNKNOWN"), DeviceType::Unknown);
}

#[test]
fn placeholders_are_left_out() {
    assert_eq!(known_value(woothee::woothee::VALUE_UNKNOWN), None);
    assert_eq!(known_value("UNKNOWN Ver"), Some("UNKNOWN Ver".to_owned()));
}
