use sparklers::events::{AppcastItemRef, SparkleErrorRef};
use sparklers::{UpdateCheckKind, UserChoice, UserChoiceState};

#[test]
fn update_check_kind_decodes_known_codes() {
    assert_eq!(UpdateCheckKind::from(0isize), UpdateCheckKind::UserInitiated);
    assert_eq!(UpdateCheckKind::from(1isize), UpdateCheckKind::Background);
}

#[test]
fn update_check_kind_other_codes() {
    assert_eq!(UpdateCheckKind::from(2isize), UpdateCheckKind::Other);
    assert_eq!(UpdateCheckKind::from(-1isize), UpdateCheckKind::Other);
    assert_eq!(UpdateCheckKind::from(isize::MAX), UpdateCheckKind::Other);
}

#[test]
fn user_choice_decodes() {
    assert_eq!(UserChoice::from(0isize), UserChoice::Skip);
    assert_eq!(UserChoice::from(1isize), UserChoice::Install);
    assert_eq!(UserChoice::from(2isize), UserChoice::Dismiss);
    assert_eq!(UserChoice::from(-7isize), UserChoice::Dismiss);
}

#[test]
fn user_choice_state_decodes() {
    assert_eq!(UserChoiceState::from(0isize), UserChoiceState::NotDownloaded);
    assert_eq!(UserChoiceState::from(1isize), UserChoiceState::Downloaded);
    assert_eq!(UserChoiceState::from(2isize), UserChoiceState::Installing);
    assert_eq!(UserChoiceState::from(isize::MIN), UserChoiceState::Installing);
}

fn sample_item() -> AppcastItemRef {
    AppcastItemRef {
        version: "2.1.0".to_string(),
        release_notes: Some("<p>Fixes</p>".to_string()),
        title: Some("Version 2.1.0".to_string()),
        release_notes_url: Some("https://example.com/notes/2.1.0.html".to_string()),
        info_url: None,
        minimum_system_version: Some("11.0".to_string()),
        channel: Some("beta".to_string()),
        is_critical: true,
        is_major_upgrade: false,
        is_information_only: false,
        maximum_system_version: None,
        minimum_os_version_ok: true,
        maximum_os_version_ok: false,
        installation_type: "application".to_string(),
        full_release_notes_url: Some("https://example.com/notes/all.html".to_string()),
        minimum_autoupdate_version: Some("2.0.0".to_string()),
        ignore_skipped_upgrades_below_version: None,
        date_string: Some("Mon, 05 Feb 2024 12:00:00 +0000".to_string()),
        item_description_format: Some("html".to_string()),
    }
}

#[test]
fn appcast_item_getters_return_fields() {
    let item = sample_item();
    assert_eq!(item.version(), "2.1.0");
    assert_eq!(item.release_notes().as_deref(), Some("<p>Fixes</p>"));
    assert_eq!(item.title().as_deref(), Some("Version 2.1.0"));
    assert_eq!(item.release_notes_url().as_deref(), Some("https://example.com/notes/2.1.0.html"));
    assert_eq!(item.info_url(), None);
    assert_eq!(item.minimum_system_version().as_deref(), Some("11.0"));
    assert_eq!(item.channel().as_deref(), Some("beta"));
    assert!(item.is_critical());
    assert!(!item.is_major_upgrade());
    assert!(!item.is_information_only());
    assert_eq!(item.maximum_system_version(), None);
    assert!(item.minimum_os_version_ok());
    assert!(!item.maximum_os_version_ok());
    assert_eq!(item.installation_type(), "application");
    assert_eq!(item.full_release_notes_url().as_deref(), Some("https://example.com/notes/all.html"));
    assert_eq!(item.minimum_autoupdate_version().as_deref(), Some("2.0.0"));
    assert_eq!(item.ignore_skipped_upgrades_below_version(), None);
    assert_eq!(item.date_string().as_deref(), Some("Mon, 05 Feb 2024 12:00:00 +0000"));
    assert_eq!(item.item_description_format().as_deref(), Some("html"));
}

#[test]
fn sparkle_error_getters_return_fields() {
    let e = SparkleErrorRef {
        message: "The update could not be downloaded.".to_string(),
        code: 2001,
        domain: "SUSparkleErrorDomain".to_string(),
    };
    assert_eq!(e.message(), "The update could not be downloaded.");
    assert_eq!(e.code(), 2001);
    assert_eq!(e.domain(), "SUSparkleErrorDomain");
}
