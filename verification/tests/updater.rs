use laermampel::updater::{
    admit_setup, describe_http_error, is_later, is_newer, latest_url, release_of, release_with, restart_arg, tag_of, version_of,
    Order, Status, Updater,
};

#[test]
fn versions_are_ordered_as_semver_does() {
    let mut last = None;
    for text in [
        "1.0.0-alpha",
        "1.0.0-alpha.1",
        "1.0.0-alpha.beta",
        "1.0.0-beta",
        "1.0.0-beta.2",
        "1.0.0-beta.11",
        "1.0.0-rc.1",
        "1.0.0",
        "1.0.0+bc17664",
        "1.0.0+c144a98",
        "1.0.1",
        "1.2.0",
        "1.10.0",
        "2.0.0",
    ] {
        let v = version_of(text).unwrap();
        assert_eq!(v.text(), text);
        assert!(!is_newer(&v, &v));
        if let Some(before) = last {
            assert!(is_newer(&v, &before), "{text}");
            assert!(!is_newer(&before, &v), "{text}");
        }
        last = Some(v);
    }
    for text in ["1.0", "1.0.01", "1.0.unknown", "1.0.0-", "1.0.0-alpha_123", "23456789999999999999.0.0", ""] {
        assert!(version_of(text).is_none(), "{text}");
    }
}

#[test]
fn numbers_go_before_everything_else() {
    let (a, b) = (version_of("0.4.0").unwrap(), version_of("0.3.99").unwrap());
    assert!(is_later(&a, &b, Some(Order::Earlier), Some(Order::Earlier)));
    assert!(!is_later(&b, &a, Some(Order::Later), Some(Order::Later)));
    assert!(is_later(&a, &a, Some(Order::Later), None));
    assert!(!is_later(&a, &a, Some(Order::Earlier), Some(Order::Later)));
    assert!(is_later(&a, &a, Some(Order::Same), Some(Order::Later)));
    assert!(!is_later(&a, &a, None, None));
}

#[test]
fn the_release_page_leads_to_the_installer() {
    let page = "https://github.com/LucyWolf/laermampel/releases/tag/v0.4.1";
    let r = release_of(page, 0).unwrap();
    assert_eq!(r.version.text(), "0.4.1");
    assert_eq!(r.page_url, page);
    assert_eq!(r.setup_url, "https://github.com/LucyWolf/laermampel/releases/download/v0.4.1/Laermampel-Setup-0.4.1.exe");
    assert_eq!(r.setup_name(), "Laermampel-Setup-0.4.1.exe");
    assert!(r.installable(true) && !r.installable(false));
    assert_eq!(tag_of("a/tag/b/tag/v1.0.0//").as_deref(), Some("v1.0.0"));
    assert_eq!(release_of("https://github.com/x", 0).unwrap_err(), "Noch kein Release gefunden");
    assert_eq!(release_of("https://github.com/x", 1).unwrap_err(), "No release found yet");
    assert_eq!(release_of("x/tag/nightly/", 0).unwrap_err(), "Unbekanntes Versionsformat: nightly");
    assert_eq!(release_with("p", "t", None, 1).unwrap_err(), "Unknown version format: t");
    assert_eq!(latest_url(17), "https://github.com/LucyWolf/laermampel/releases/latest?t=17");
    assert_eq!(restart_arg(), "--nach-update");
}

#[test]
fn failed_requests_in_words() {
    for status in [403u16, 429] {
        assert_eq!(
            describe_http_error(Some(status), "x", 0),
            "GitHub lehnt gerade zu viele Anfragen ab, später nochmal versuchen"
        );
    }
    assert_eq!(describe_http_error(Some(404), "x", 1), "File not found on GitHub");
    assert_eq!(describe_http_error(Some(500), "x", 0), "x");
    assert_eq!(describe_http_error(None, "offline", 0), "offline");
}

#[test]
fn an_installer_begins_with_mz() {
    assert!(admit_setup(&b"MZ\x90".to_vec(), 0).is_ok());
    for bytes in [&b"M"[..], b"", b"<html>", b"ZM"] {
        assert_eq!(admit_setup(&bytes.to_vec(), 0).unwrap_err(), "Heruntergeladene Datei ist kein gültiger Installer");
    }
    assert_eq!(admit_setup(&Vec::new(), 1).unwrap_err(), "Downloaded file is not a valid installer");
}

#[test]
fn one_job_at_a_time() {
    let current = version_of("0.4.0").unwrap();
    let release = release_of("x/tag/v0.4.1", 0).unwrap();
    let mut u = Updater::new();
    assert!(matches!(u.status(), Status::Idle));
    assert!(u.check());
    assert!(u.is_busy() && !u.check() && !u.install(release.copy()));
    u.checked(Ok(release.copy()), &current, 0);
    assert!(matches!(u.status(), Status::Available(r) if r.version.text() == "0.4.1"));
    assert!(u.install(release.copy()));
    assert!(u.is_busy() && !u.check());
    u.installed(release.copy(), Err("Platte voll".to_string()), 0);
    assert!(matches!(u.status(), Status::Failed(e) if e == "Update fehlgeschlagen: Platte voll"));
    assert!(u.check());
    u.checked(Err("offline".to_string()), &current, 1);
    assert!(matches!(u.status(), Status::Failed(e) if e == "Update check failed: offline"));
    u.checked(Ok(release_of("x/tag/v0.4.0", 0).unwrap()), &current, 0);
    assert!(matches!(u.status(), Status::UpToDate));
    u.installed(release, Ok(()), 0);
    assert!(matches!(u.status(), Status::Installed(_)));
    assert!(!u.is_busy());
}
