use vstd::prelude::*;

verus! {

/// Why an update cycle ran, as reported by the updater.
#[derive(Debug, Clone, Copy, PartialEq, Eq, Structural)]
pub enum UpdateCheckKind {
    UserInitiated,
    Background,
    Other,
}

/// The decoding of the updater's update-check code: `0` is a check the user asked for,
/// `1` a background check, any other code is `Other`.
pub open spec fn spec_update_check_kind(code: isize) -> UpdateCheckKind {
    if code == 0 {
        UpdateCheckKind::UserInitiated
    } else if code == 1 {
        UpdateCheckKind::Background
    } else {
        UpdateCheckKind::Other
    }
}

impl From<isize> for UpdateCheckKind {
    fn from(value: isize) -> (r: Self) {
        match value {
            0 => UpdateCheckKind::UserInitiated,
            1 => UpdateCheckKind::Background,
            _ => UpdateCheckKind::Other,
        }
    }
}

impl vstd::std_specs::convert::FromSpecImpl<isize> for UpdateCheckKind {
    open spec fn obeys_from_spec() -> bool {
        true
    }

    open spec fn from_spec(v: isize) -> Self {
        spec_update_check_kind(v)
    }
}

/// The choice the user made about a found update.
#[derive(Debug, Clone, Copy, PartialEq, Eq, Structural)]
pub enum UserChoice {
    Skip,
    Install,
    Dismiss,
}

/// The decoding of the user-choice code: `0` skips, `1` installs, any other code dismisses.
pub open spec fn spec_user_choice(code: isize) -> UserChoice {
    if code == 0 {
        UserChoice::Skip
    } else if code == 1 {
        UserChoice::Install
    } else {
        UserChoice::Dismiss
    }
}

impl From<isize> for UserChoice {
    fn from(value: isize) -> (r: Self) {
        match value {
            0 => UserChoice::Skip,
            1 => UserChoice::Install,
            _ => UserChoice::Dismiss,
        }
    }
}

impl vstd::std_specs::convert::FromSpecImpl<isize> for UserChoice {
    open spec fn obeys_from_spec() -> bool {
        true
    }

    open spec fn from_spec(v: isize) -> Self {
        spec_user_choice(v)
    }
}

/// How far the update was when the user made a choice.
#[derive(Debug, Clone, Copy, PartialEq, Eq, Structural)]
pub enum UserChoiceState {
    NotDownloaded,
    Downloaded,
    Installing,
}

/// The decoding of the choice-state code: `0` not downloaded, `1` downloaded,
/// any other code installing.
pub open spec fn spec_user_choice_state(code: isize) -> UserChoiceState {
    if code == 0 {
        UserChoiceState::NotDownloaded
    } else if code == 1 {
        UserChoiceState::Downloaded
    } else {
        UserChoiceState::Installing
    }
}

impl From<isize> for UserChoiceState {
    fn from(value: isize) -> (r: Self) {
        match value {
            0 => UserChoiceState::NotDownloaded,
            1 => UserChoiceState::Downloaded,
            _ => UserChoiceState::Installing,
        }
    }
}

impl vstd::std_specs::convert::FromSpecImpl<isize> for UserChoiceState {
    open spec fn obeys_from_spec() -> bool {
        true
    }

    open spec fn from_spec(v: isize) -> Self {
        spec_user_choice_state(v)
    }
}

/// The data of one update offered by the appcast (the feed of available updates),
/// as read from the updater's appcast item.
#[derive(Debug, Clone, PartialEq, Eq)]
pub struct AppcastItemRef {
    pub version: String,
    pub release_notes: Option<String>,
    pub title: Option<String>,
    pub release_notes_url: Option<String>,
    pub info_url: Option<String>,
    pub minimum_system_version: Option<String>,
    pub channel: Option<String>,
    pub is_critical: bool,
    pub is_major_upgrade: bool,
    pub is_information_only: bool,
    pub maximum_system_version: Option<String>,
    pub minimum_os_version_ok: bool,
    pub maximum_os_version_ok: bool,
    pub installation_type: String,
    pub full_release_notes_url: Option<String>,
    pub minimum_autoupdate_version: Option<String>,
    pub ignore_skipped_upgrades_below_version: Option<String>,
    pub date_string: Option<String>,
    pub item_description_format: Option<String>,
}

/// A copy of an optional string, equal to it.
fn copy_opt(s: &Option<String>) -> (r: Option<String>)
    ensures
        r == *s,
{
    match s {
        Some(v) => Some(v.clone()),
        None => None,
    }
}

impl AppcastItemRef {
    /// The version shown to the user.
    pub fn version(&self) -> (r: String)
        ensures
            r == self.version,
    {
        self.version.clone()
    }

    /// The release notes embedded in the item, if any.
    pub fn release_notes(&self) -> (r: Option<String>)
        ensures
            r == self.release_notes,
    {
        copy_opt(&self.release_notes)
    }

    /// The item's title, if any.
    pub fn title(&self) -> (r: Option<String>)
        ensures
            r == self.title,
    {
        copy_opt(&self.title)
    }

    /// The absolute URL of the release notes, if any.
    pub fn release_notes_url(&self) -> (r: Option<String>)
        ensures
            r == self.release_notes_url,
    {
        copy_opt(&self.release_notes_url)
    }

    /// The absolute URL of the information page, if any.
    pub fn info_url(&self) -> (r: Option<String>)
        ensures
            r == self.info_url,
    {
        copy_opt(&self.info_url)
    }

    /// The minimum system version the update needs, if any.
    pub fn minimum_system_version(&self) -> (r: Option<String>)
        ensures
            r == self.minimum_system_version,
    {
        copy_opt(&self.minimum_system_version)
    }

    /// The channel the update was published on, if any.
    pub fn channel(&self) -> (r: Option<String>)
        ensures
            r == self.channel,
    {
        copy_opt(&self.channel)
    }

    /// Whether the update is marked critical.
    pub fn is_critical(&self) -> (r: bool)
        ensures
            r == self.is_critical,
    {
        self.is_critical
    }

    /// Whether the update is a major upgrade.
    pub fn is_major_upgrade(&self) -> (r: bool)
        ensures
            r == self.is_major_upgrade,
    {
        self.is_major_upgrade
    }

    /// Whether the update only informs and cannot be installed.
    pub fn is_information_only(&self) -> (r: bool)
        ensures
            r == self.is_information_only,
    {
        self.is_information_only
    }

    /// The maximum system version the update supports, if any.
    pub fn maximum_system_version(&self) -> (r: Option<String>)
        ensures
            r == self.maximum_system_version,
    {
        copy_opt(&self.maximum_system_version)
    }

    /// Whether the running system is recent enough for the update.
    pub fn minimum_os_version_ok(&self) -> (r: bool)
        ensures
            r == self.minimum_os_version_ok,
    {
        self.minimum_os_version_ok
    }

    /// Whether the running system is not too recent for the update.
    pub fn maximum_os_version_ok(&self) -> (r: bool)
        ensures
            r == self.maximum_os_version_ok,
    {
        self.maximum_os_version_ok
    }

    /// The installation type of the update.
    pub fn installation_type(&self) -> (r: String)
        ensures
            r == self.installation_type,
    {
        self.installation_type.clone()
    }

    /// The absolute URL of the full release notes, if any.
    pub fn full_release_notes_url(&self) -> (r: Option<String>)
        ensures
            r == self.full_release_notes_url,
    {
        copy_opt(&self.full_release_notes_url)
    }

    /// The minimum version from which the update may be installed automatically, if any.
    pub fn minimum_autoupdate_version(&self) -> (r: Option<String>)
        ensures
            r == self.minimum_autoupdate_version,
    {
        copy_opt(&self.minimum_autoupdate_version)
    }

    /// The version below which skipped upgrades are ignored, if any.
    pub fn ignore_skipped_upgrades_below_version(&self) -> (r: Option<String>)
        ensures
            r == self.ignore_skipped_upgrades_below_version,
    {
        copy_opt(&self.ignore_skipped_upgrades_below_version)
    }

    /// The publication date as written in the appcast, if any.
    pub fn date_string(&self) -> (r: Option<String>)
        ensures
            r == self.date_string,
    {
        copy_opt(&self.date_string)
    }

    /// The format of the embedded release notes, if any.
    pub fn item_description_format(&self) -> (r: Option<String>)
        ensures
            r == self.item_description_format,
    {
        copy_opt(&self.item_description_format)
    }
}

/// The data of an error reported by the updater.
#[derive(Debug, Clone, PartialEq, Eq)]
pub struct SparkleErrorRef {
    pub message: String,
    pub code: isize,
    pub domain: String,
}

impl SparkleErrorRef {
    /// The localized description of the error.
    pub fn message(&self) -> (r: String)
        ensures
            r == self.message,
    {
        self.message.clone()
    }

    /// The error code.
    pub fn code(&self) -> (r: isize)
        ensures
            r == self.code,
    {
        self.code
    }

    /// The error domain.
    pub fn domain(&self) -> (r: String)
        ensures
            r == self.domain,
    {
        self.domain.clone()
    }
}

} // verus!
