use tor_browser_builder::platform::{Arch, Os, Target};
use tor_browser_builder::release::{fetch_release_info, release_from_fields, ReleaseFields};

const LINUX: Target = Target { os: Os::Linux, arch: Arch::X86_64 };
const MAC: Target = Target { os: Os::MacOs, arch: Arch::X86_64 };
const WINDOWS: Target = Target { os: Os::Windows, arch: Arch::X86_64 };

fn error(target: Target, body: &str) -> String {
    match fetch_release_info(target, body.as_bytes()) {
        Ok(_) => panic!("a release"),
        Err(e) => e,
    }
}

#[test]
fn release_with_all_fields() {
    let body = r#"{"version": "13.5", "binary": "https://x/tb.dmg", "sha256": "ab",
        "sig": "https://x/tb.sig", "url": "https://other"}"#;
    let r = fetch_release_info(MAC, body.as_bytes()).ok().unwrap();
    assert_eq!(r.version, "13.5");
    assert_eq!(r.binary_url, "https://x/tb.dmg");
    assert_eq!(r.sha256.as_deref(), Some("ab"));
    assert_eq!(r.sig_url.as_deref(), Some("https://x/tb.sig"));
}

#[test]
fn release_with_least_fields() {
    let r = fetch_release_info(LINUX, br#"{"url": "https://x/tb"}"#).ok().unwrap();
    assert_eq!(r.version, "unknown");
    assert_eq!(r.binary_url, "https://x/tb");
    assert_eq!(r.sha256, None);
    assert_eq!(r.sig_url.as_deref(), Some("https://x/tb.asc"));
}

#[test]
fn release_by_platform() {
    let body = r#"{"downloads": {
        "win64": {"en-US": {"binary": "w", "sha256": "1"}},
        "linux64": {"en-US": {"binary": "l", "sha256": "2"}},
        "osx64": {"en-US": {"binary": "m"}}}}"#;
    let w = fetch_release_info(WINDOWS, body.as_bytes()).ok().unwrap();
    assert_eq!((w.binary_url.as_str(), w.sha256.as_deref()), ("w", Some("1")));
    let l = fetch_release_info(LINUX, body.as_bytes()).ok().unwrap();
    assert_eq!((l.binary_url.as_str(), l.sha256.as_deref()), ("l", Some("2")));
    let m = fetch_release_info(MAC, body.as_bytes()).ok().unwrap();
    assert_eq!((m.binary_url.as_str(), m.sha256.as_deref()), ("m", None));
    assert_eq!(m.sig_url.as_deref(), Some("m.asc"));
}

#[test]
fn fields_that_are_no_strings_are_passed_over() {
    let body = r#"{"version": 13, "binary": null, "url": "u", "sha256": ["x"]}"#;
    let r = fetch_release_info(LINUX, body.as_bytes()).ok().unwrap();
    assert_eq!(r.version, "unknown");
    assert_eq!(r.binary_url, "u");
    assert_eq!(r.sha256, None);
}

#[test]
fn release_without_a_download() {
    assert_eq!(
        error(MAC, r#"{"version": "1"}"#),
        "could not find a macOS download URL in the release response"
    );
    assert_eq!(
        error(LINUX, "[1, 2]"),
        "could not find a Linux download URL in the release response"
    );
}

#[test]
fn release_that_is_no_document() {
    assert_eq!(error(MAC, "<html>"), "error decoding response body");
    assert_eq!(error(MAC, ""), "error decoding response body");
}

#[test]
fn release_from_plain_fields() {
    let fields = ReleaseFields {
        version: Some("2".to_string()),
        binary: None,
        url: None,
        platform_binary: Some("p".to_string()),
        sha256: None,
        platform_sha256: Some("cd".to_string()),
        sig: None,
    };
    let r = release_from_fields(WINDOWS, fields).ok().unwrap();
    assert_eq!(r.version, "2");
    assert_eq!(r.binary_url, "p");
    assert_eq!(r.sha256.as_deref(), Some("cd"));
    assert_eq!(r.sig_url.as_deref(), Some("p.asc"));
}
