use katvan_homepage::release::{normalize_version, ReleaseRecord};

#[test]
fn normalize_strips_single_v() {
    assert_eq!(normalize_version("v1.2.3"), "1.2.3");
}

#[test]
fn normalize_strips_every_leading_v() {
    assert_eq!(normalize_version("vv2.0"), "2.0");
    assert_eq!(normalize_version("vvv7"), "7");
}

#[test]
fn normalize_is_noop_without_leading_v() {
    assert_eq!(normalize_version("2.0"), "2.0");
    assert_eq!(normalize_version("1.0-beta.v2"), "1.0-beta.v2");
}

#[test]
fn normalize_empty_string() {
    assert_eq!(normalize_version(""), "");
}

#[test]
fn normalize_all_v_string() {
    assert_eq!(normalize_version("vvv"), "");
}

#[test]
fn normalize_is_idempotent_on_values() {
    let once = normalize_version("vvv1.0");
    let twice = normalize_version(&once);
    assert_eq!(once, "1.0");
    assert_eq!(twice, once);
}

#[test]
fn record_normalizes_version_and_passes_rest_through() {
    let r = ReleaseRecord::new(
        "v3.1.0",
        String::from("2024-05-01T00:00:00Z"),
        String::from("https://example.com/r/3.1.0"),
    );
    assert_eq!(r.version, "3.1.0");
    assert_eq!(r.published_at, "2024-05-01T00:00:00Z");
    assert_eq!(r.html_url, "https://example.com/r/3.1.0");
}
