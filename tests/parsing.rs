use usage_tracker::parser::parse_app_info;
use usage_tracker::resolver::{interpret_app_name, lookup_display_name};
use usage_tracker::timestamp::Timestamp;
use usage_tracker::usage::AppUsage;

fn triple(a: &str, b: &str, c: &str) -> (String, String, String) {
    (a.to_string(), b.to_string(), c.to_string())
}

#[test]
fn structured_identifier_gives_three_parts() {
    assert_eq!(
        parse_app_info("Code - main.rs (com.microsoft.VSCode)"),
        triple("Code", "main.rs", "com.microsoft.VSCode")
    );
}

#[test]
fn structured_identifier_with_empty_parts() {
    assert_eq!(parse_app_info(" -  ()"), triple("", "", ""));
    assert_eq!(parse_app_info("Finder -  (com.apple.finder)"), triple("Finder", "", "com.apple.finder"));
}

#[test]
fn structured_identifier_takes_shortest_leading_parts() {
    assert_eq!(
        parse_app_info("Safari - Docs - Page (com.apple.Safari)"),
        triple("Safari", "Docs - Page", "com.apple.Safari")
    );
    assert_eq!(parse_app_info("App - a (b) (c)"), triple("App", "a", "b) (c"));
}

#[test]
fn single_name_identifier() {
    assert_eq!(parse_app_info("OnlyApp"), triple("OnlyApp", "", ""));
}

#[test]
fn empty_identifier_is_unknown_app() {
    assert_eq!(parse_app_info(""), triple("Unknown App", "", ""));
}

#[test]
fn unstructured_identifier_splits_at_first_separator() {
    assert_eq!(parse_app_info("Terminal - bash"), triple("Terminal", "bash", ""));
    assert_eq!(parse_app_info("Terminal - bash - vim"), triple("Terminal", "bash - vim", ""));
    assert_eq!(parse_app_info(" - x"), triple("", "x", ""));
}

#[test]
fn line_break_falls_back_to_split() {
    assert_eq!(parse_app_info("App - two\nlines (id)"), triple("App", "two\nlines (id)", ""));
}

#[test]
fn known_bundles_get_their_display_name() {
    assert_eq!(interpret_app_name("Code", "com.microsoft.VSCode"), "Visual Studio Code");
    assert_eq!(interpret_app_name("anything", "com.microsoft.VSCode"), "Visual Studio Code");
    assert_eq!(interpret_app_name("slack", "com.something.slack"), "Slack");
}

#[test]
fn unknown_bundle_keeps_app_name() {
    assert_eq!(interpret_app_name("Firefox", "org.mozilla.firefox"), "Firefox");
    assert_eq!(interpret_app_name("Firefox", ""), "Firefox");
    assert_eq!(lookup_display_name("com.microsoft.vscode"), None);
    assert_eq!(lookup_display_name("com.something.slack"), Some("Slack".to_string()));
}

#[test]
fn usage_record_is_parsed_and_renamed() {
    let start = Timestamp { secs: 100, nanos: 0, offset_secs: 0 };
    let end = Timestamp { secs: 160, nanos: 0, offset_secs: 0 };
    let u = AppUsage::new("Code - lib.rs (com.microsoft.VSCode)", start, end, 60);
    assert_eq!(u.app, "Visual Studio Code");
    assert_eq!(u.window, "lib.rs");
    assert_eq!(u.start_time, start);
    assert_eq!(u.end_time, end);
    assert_eq!(u.duration_secs, 60);
}

#[test]
fn usage_record_of_unstructured_identifier() {
    let t = Timestamp { secs: 5, nanos: 0, offset_secs: 3600 };
    let u = AppUsage::new("Terminal - bash", t, t, 0);
    assert_eq!(u.app, "Terminal");
    assert_eq!(u.window, "bash");
}
