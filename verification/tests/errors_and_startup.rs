use sparklers::sparkle::{
    feed_url_outcome, is_valid_bundle_identifier, missing_info_plist_keys, start_outcome,
    validate_feed_url, GetSparkleConfig, SparkleConfig,
};
use sparklers::Error;

#[test]
fn error_messages() {
    assert_eq!(Error::InvalidFeedUrl("nope".to_string()).message(), "Invalid feed URL: nope");
    assert_eq!(
        Error::SparkleInit("boom".to_string()).message(),
        "Sparkle initialization failed: boom"
    );
    assert_eq!(Error::UpdaterNotReady.message(), "Updater not ready");
    let io = std::io::Error::new(std::io::ErrorKind::Other, "disk on fire");
    assert_eq!(Error::Io(io).message(), "disk on fire");
}

#[test]
fn io_error_converts() {
    let e: Error = std::io::Error::new(std::io::ErrorKind::NotFound, "no such file").into();
    match e {
        Error::Io(inner) => assert_eq!(inner.kind(), std::io::ErrorKind::NotFound),
        _ => panic!("expected Io"),
    }
}

#[test]
fn valid_feed_url_is_accepted() {
    assert!(validate_feed_url("https://example.com/appcast.xml").is_ok());
    assert!(validate_feed_url("file:///tmp/appcast.xml").is_ok());
}

#[test]
fn invalid_feed_url_is_rejected_with_its_text() {
    match validate_feed_url("not a url") {
        Err(Error::InvalidFeedUrl(s)) => assert_eq!(s, "not a url"),
        _ => panic!("expected InvalidFeedUrl"),
    }
    match validate_feed_url("") {
        Err(Error::InvalidFeedUrl(s)) => assert_eq!(s, ""),
        _ => panic!("expected InvalidFeedUrl"),
    }
    assert!(matches!(validate_feed_url("/relative/appcast.xml"), Err(Error::InvalidFeedUrl(_))));
}

#[test]
fn feed_url_outcome_maps_parse_result() {
    let good = url::Url::parse("https://example.com/feed.xml");
    assert!(feed_url_outcome("https://example.com/feed.xml", &good).is_ok());
    let bad = url::Url::parse("http://");
    match feed_url_outcome("http://", &bad) {
        Err(Error::InvalidFeedUrl(s)) => assert_eq!(s, "http://"),
        _ => panic!("expected InvalidFeedUrl"),
    }
}

#[test]
fn bundle_identifier_validity() {
    assert!(is_valid_bundle_identifier(Some("com.example.app")));
    assert!(!is_valid_bundle_identifier(Some("")));
    assert!(!is_valid_bundle_identifier(Some("com.apple.dt.Xcode.tool")));
    assert!(is_valid_bundle_identifier(Some("com.apple.dt.Xcode.tools")));
    assert!(!is_valid_bundle_identifier(None));
}

#[test]
fn start_outcome_cases() {
    assert!(start_outcome(true, None).is_ok());
    assert!(start_outcome(true, Some("ignored".to_string())).is_ok());
    match start_outcome(false, Some("No feed URL".to_string())) {
        Err(Error::SparkleInit(s)) => assert_eq!(s, "No feed URL"),
        _ => panic!("expected SparkleInit"),
    }
    match start_outcome(false, None) {
        Err(Error::SparkleInit(s)) => assert_eq!(s, "Failed to start updater"),
        _ => panic!("expected SparkleInit"),
    }
}

#[test]
fn plist_all_keys_present() {
    let keys = vec!["CFBundleIdentifier".to_string(), "SUFeedURL".to_string(), "SUPublicEDKey".to_string()];
    assert!(missing_info_plist_keys(Some(&keys)).is_empty());
}

#[test]
fn plist_missing_keys_reported_in_order() {
    let keys = vec!["CFBundleIdentifier".to_string()];
    let missing = missing_info_plist_keys(Some(&keys));
    assert_eq!(
        missing,
        vec![
            (
                "SUPublicEDKey".to_string(),
                "Sparkle will not be able to verify update signatures.".to_string()
            ),
            (
                "SUFeedURL".to_string(),
                "You must set a feed URL before checking for updates.".to_string()
            ),
        ]
    );
    let keys = vec!["SUPublicEDKey".to_string()];
    let missing = missing_info_plist_keys(Some(&keys));
    assert_eq!(missing.len(), 1);
    assert_eq!(missing[0].0, "SUFeedURL");
}

#[test]
fn plist_without_info_dictionary_reports_nothing() {
    assert!(missing_info_plist_keys(None).is_empty());
}

#[test]
fn config_copy() {
    let c = SparkleConfig { version: "1.2.3".to_string() };
    assert_eq!(c.sparkle_config().version, "1.2.3");
}
