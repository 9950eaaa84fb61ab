use std::collections::HashMap;

use sparklers::delegate::SparkleDelegate;

#[test]
fn delegate_initial_settings() {
    let d = SparkleDelegate::new();
    assert_eq!(d.allowed_channels(), None);
    assert_eq!(d.feed_url_override(), None);
    assert!(d.feed_parameters().is_empty());
    assert!(d.should_download_release_notes());
    assert!(d.should_relaunch());
    assert!(d.may_check_for_updates());
    assert!(d.should_proceed_with_update());
    assert_eq!(d.decryption_password(), None);
    assert!(d.download_request_headers().is_empty());
}

#[test]
fn delegate_read_after_write() {
    let mut d = SparkleDelegate::new();
    d.set_allowed_channels(Some(vec!["beta".to_string(), "nightly".to_string()]));
    assert_eq!(d.allowed_channels(), Some(vec!["beta".to_string(), "nightly".to_string()]));
    d.set_feed_url_override(Some("https://example.com/beta.xml".to_string()));
    assert_eq!(d.feed_url_override().as_deref(), Some("https://example.com/beta.xml"));
    let mut params = HashMap::new();
    params.insert("lang".to_string(), "de".to_string());
    d.set_feed_parameters(params.clone());
    assert_eq!(d.feed_parameters(), params);
    d.set_should_download_release_notes(false);
    assert!(!d.should_download_release_notes());
    d.set_should_relaunch(false);
    assert!(!d.should_relaunch());
    d.set_may_check_for_updates(false);
    assert!(!d.may_check_for_updates());
    d.set_should_proceed_with_update(false);
    assert!(!d.should_proceed_with_update());
    d.set_decryption_password(Some("s3cret".to_string()));
    assert_eq!(d.decryption_password().as_deref(), Some("s3cret"));
    let mut headers = HashMap::new();
    headers.insert("Authorization".to_string(), "Bearer abc".to_string());
    d.set_download_request_headers(headers.clone());
    assert_eq!(d.download_request_headers(), headers);
}

#[test]
fn delegate_write_leaves_other_settings() {
    let mut d = SparkleDelegate::new();
    d.set_should_relaunch(false);
    assert!(d.should_download_release_notes());
    assert!(d.may_check_for_updates());
    assert!(d.should_proceed_with_update());
    assert_eq!(d.allowed_channels(), None);
    d.set_decryption_password(Some("pw".to_string()));
    assert!(!d.should_relaunch());
    assert_eq!(d.feed_url_override(), None);
}

#[test]
fn delegate_last_write_wins() {
    let mut d = SparkleDelegate::new();
    d.set_allowed_channels(Some(vec!["beta".to_string()]));
    d.set_allowed_channels(None);
    assert_eq!(d.allowed_channels(), None);
    d.set_may_check_for_updates(false);
    d.set_may_check_for_updates(true);
    assert!(d.may_check_for_updates());
}
