use std::collections::HashMap;
use vstd::prelude::*;

verus! {

/// The settings that the updater delegate answers the updater with.
pub struct DelegateSettings {
    pub allowed_channels: Option<Seq<String>>,
    pub feed_url_override: Option<String>,
    pub feed_parameters: Map<String, String>,
    pub should_download_release_notes: bool,
    pub should_relaunch: bool,
    pub may_check_for_updates: bool,
    pub should_proceed_with_update: bool,
    pub decryption_password: Option<String>,
    pub download_request_headers: Map<String, String>,
}

/// The contents of an optional list of strings.
pub open spec fn opt_vec_view(v: Option<Vec<String>>) -> Option<Seq<String>> {
    match v {
        Some(items) => Some(items@),
        None => None,
    }
}

impl DelegateSettings {
    /// The settings a fresh delegate starts with: every permission granted,
    /// no channel restriction, no overrides, no parameters or headers.
    pub open spec fn initial() -> DelegateSettings {
        DelegateSettings {
            allowed_channels: None,
            feed_url_override: None,
            feed_parameters: Map::empty(),
            should_download_release_notes: true,
            should_relaunch: true,
            may_check_for_updates: true,
            should_proceed_with_update: true,
            decryption_password: None,
            download_request_headers: Map::empty(),
        }
    }

    pub open spec fn with_allowed_channels(self, v: Option<Seq<String>>) -> DelegateSettings {
        DelegateSettings { allowed_channels: v, ..self }
    }

    pub open spec fn with_feed_url_override(self, v: Option<String>) -> DelegateSettings {
        DelegateSettings { feed_url_override: v, ..self }
    }

    pub open spec fn with_feed_parameters(self, v: Map<String, String>) -> DelegateSettings {
        DelegateSettings { feed_parameters: v, ..self }
    }

    pub open spec fn with_should_download_release_notes(self, v: bool) -> DelegateSettings {
        DelegateSettings { should_download_release_notes: v, ..self }
    }

    pub open spec fn with_should_relaunch(self, v: bool) -> DelegateSettings {
        DelegateSettings { should_relaunch: v, ..self }
    }

    pub open spec fn with_may_check_for_updates(self, v: bool) -> DelegateSettings {
        DelegateSettings { may_check_for_updates: v, ..self }
    }

    pub open spec fn with_should_proceed_with_update(self, v: bool) -> DelegateSettings {
        DelegateSettings { should_proceed_with_update: v, ..self }
    }

    pub open spec fn with_decryption_password(self, v: Option<String>) -> DelegateSettings {
        DelegateSettings { decryption_password: v, ..self }
    }

    pub open spec fn with_download_request_headers(self, v: Map<String, String>) -> DelegateSettings {
        DelegateSettings { download_request_headers: v, ..self }
    }
}

/// Reading a setting gives back what was last written to it, and writing one setting
/// leaves every other setting as it was.
pub proof fn lemma_read_after_write(
    s: DelegateSettings,
    channels: Option<Seq<String>>,
    url: Option<String>,
    params: Map<String, String>,
    flag: bool,
    password: Option<String>,
    headers: Map<String, String>,
)
    ensures
        s.with_allowed_channels(channels).allowed_channels == channels,
        s.with_feed_url_override(url).feed_url_override == url,
        s.with_feed_parameters(params).feed_parameters == params,
        s.with_should_download_release_notes(flag).should_download_release_notes == flag,
        s.with_should_relaunch(flag).should_relaunch == flag,
        s.with_may_check_for_updates(flag).may_check_for_updates == flag,
        s.with_should_proceed_with_update(flag).should_proceed_with_update == flag,
        s.with_decryption_password(password).decryption_password == password,
        s.with_download_request_headers(headers).download_request_headers == headers,
        s.with_allowed_channels(channels).with_allowed_channels(s.allowed_channels) == s,
        s.with_feed_url_override(url).with_feed_url_override(s.feed_url_override) == s,
        s.with_feed_parameters(params).with_feed_parameters(s.feed_parameters) == s,
        s.with_should_download_release_notes(flag).with_should_download_release_notes(
            s.should_download_release_notes,
        ) == s,
        s.with_should_relaunch(flag).with_should_relaunch(s.should_relaunch) == s,
        s.with_may_check_for_updates(flag).with_may_check_for_updates(s.may_check_for_updates) == s,
        s.with_should_proceed_with_update(flag).with_should_proceed_with_update(
            s.should_proceed_with_update,
        ) == s,
        s.with_decryption_password(password).with_decryption_password(s.decryption_password) == s,
        s.with_download_request_headers(headers).with_download_request_headers(
            s.download_request_headers,
        ) == s,
{
}

/// Of two writes to the same setting, the later one wins.
pub proof fn lemma_last_write_wins(
    s: DelegateSettings,
    channels1: Option<Seq<String>>,
    channels2: Option<Seq<String>>,
    url1: Option<String>,
    url2: Option<String>,
    params1: Map<String, String>,
    params2: Map<String, String>,
    flag1: bool,
    flag2: bool,
    password1: Option<String>,
    password2: Option<String>,
)
    ensures
        s.with_allowed_channels(channels1).with_allowed_channels(channels2) == s.with_allowed_channels(
            channels2,
        ),
        s.with_feed_url_override(url1).with_feed_url_override(url2) == s.with_feed_url_override(url2),
        s.with_feed_parameters(params1).with_feed_parameters(params2) == s.with_feed_parameters(params2),
        s.with_download_request_headers(params1).with_download_request_headers(params2)
            == s.with_download_request_headers(params2),
        s.with_should_download_release_notes(flag1).with_should_download_release_notes(flag2)
            == s.with_should_download_release_notes(flag2),
        s.with_should_relaunch(flag1).with_should_relaunch(flag2) == s.with_should_relaunch(flag2),
        s.with_may_check_for_updates(flag1).with_may_check_for_updates(flag2)
            == s.with_may_check_for_updates(flag2),
        s.with_should_proceed_with_update(flag1).with_should_proceed_with_update(flag2)
            == s.with_should_proceed_with_update(flag2),
        s.with_decryption_password(password1).with_decryption_password(password2)
            == s.with_decryption_password(password2),
{
}

/// The configuration store of the updater delegate: what it answers when the updater
/// asks for allowed channels, a feed URL, feed parameters, permissions, a decryption
/// password, and the headers of download requests.
pub struct SparkleDelegate {
    allowed_channels: Option<Vec<String>>,
    feed_url_override: Option<String>,
    feed_parameters: HashMap<String, String>,
    should_download_release_notes: bool,
    should_relaunch: bool,
    may_check_for_updates: bool,
    should_proceed_with_update: bool,
    decryption_password: Option<String>,
    download_request_headers: HashMap<String, String>,
}

impl View for SparkleDelegate {
    type V = DelegateSettings;

    closed spec fn view(&self) -> DelegateSettings {
        DelegateSettings {
            allowed_channels: opt_vec_view(self.allowed_channels),
            feed_url_override: self.feed_url_override,
            feed_parameters: self.feed_parameters@,
            should_download_release_notes: self.should_download_release_notes,
            should_relaunch: self.should_relaunch,
            may_check_for_updates: self.may_check_for_updates,
            should_proceed_with_update: self.should_proceed_with_update,
            decryption_password: self.decryption_password,
            download_request_headers: self.download_request_headers@,
        }
    }
}

/// A copy of an optional string, equal to it.
fn copy_opt_string(s: &Option<String>) -> (r: Option<String>)
    ensures
        r == *s,
{
    match s {
        Some(v) => Some(v.clone()),
        None => None,
    }
}

/// A copy of an optional list of strings, with the same contents.
fn copy_opt_vec(v: &Option<Vec<String>>) -> (r: Option<Vec<String>>)
    ensures
        opt_vec_view(r) == opt_vec_view(*v),
{
    match v {
        Some(items) => {
            let c = items.clone();
            assert(c@ =~= items@);
            Some(c)
        },
        None => None,
    }
}

impl SparkleDelegate {
    /// A delegate with the initial settings.
    pub fn new() -> (d: Self)
        ensures
            d@ == DelegateSettings::initial(),
    {
        SparkleDelegate {
            allowed_channels: None,
            feed_url_override: None,
            feed_parameters: HashMap::new(),
            should_download_release_notes: true,
            should_relaunch: true,
            may_check_for_updates: true,
            should_proceed_with_update: true,
            decryption_password: None,
            download_request_headers: HashMap::new(),
        }
    }

    /// The channels the updater may take updates from; `None` means the default channel only.
    pub fn allowed_channels(&self) -> (r: Option<Vec<String>>)
        ensures
            opt_vec_view(r) == self@.allowed_channels,
    {
        copy_opt_vec(&self.allowed_channels)
    }

    pub fn set_allowed_channels(&mut self, channels: Option<Vec<String>>)
        ensures
            final(self)@ == old(self)@.with_allowed_channels(opt_vec_view(channels)),
    {
        self.allowed_channels = channels;
    }

    /// The feed URL that replaces the configured one, if any.
    pub fn feed_url_override(&self) -> (r: Option<String>)
        ensures
            r == self@.feed_url_override,
    {
        copy_opt_string(&self.feed_url_override)
    }

    pub fn set_feed_url_override(&mut self, url: Option<String>)
        ensures
            final(self)@ == old(self)@.with_feed_url_override(url),
    {
        self.feed_url_override = url;
    }

    /// The extra parameters sent with each feed request.
    pub fn feed_parameters(&self) -> (r: HashMap<String, String>)
        ensures
            r@ == self@.feed_parameters,
    {
        self.feed_parameters.clone()
    }

    pub fn set_feed_parameters(&mut self, params: HashMap<String, String>)
        ensures
            final(self)@ == old(self)@.with_feed_parameters(params@),
    {
        self.feed_parameters = params;
    }

    /// Whether release notes are downloaded for a found update.
    pub fn should_download_release_notes(&self) -> (r: bool)
        ensures
            r == self@.should_download_release_notes,
    {
        self.should_download_release_notes
    }

    pub fn set_should_download_release_notes(&mut self, enabled: bool)
        ensures
            final(self)@ == old(self)@.with_should_download_release_notes(enabled),
    {
        self.should_download_release_notes = enabled;
    }

    /// Whether the application is relaunched after an update.
    pub fn should_relaunch(&self) -> (r: bool)
        ensures
            r == self@.should_relaunch,
    {
        self.should_relaunch
    }

    pub fn set_should_relaunch(&mut self, enabled: bool)
        ensures
            final(self)@ == old(self)@.with_should_relaunch(enabled),
    {
        self.should_relaunch = enabled;
    }

    /// Whether the updater may perform an update check.
    pub fn may_check_for_updates(&self) -> (r: bool)
        ensures
            r == self@.may_check_for_updates,
    {
        self.may_check_for_updates
    }

    pub fn set_may_check_for_updates(&mut self, enabled: bool)
        ensures
            final(self)@ == old(self)@.with_may_check_for_updates(enabled),
    {
        self.may_check_for_updates = enabled;
    }

    /// Whether the updater may proceed with a found update.
    pub fn should_proceed_with_update(&self) -> (r: bool)
        ensures
            r == self@.should_proceed_with_update,
    {
        self.should_proceed_with_update
    }

    pub fn set_should_proceed_with_update(&mut self, enabled: bool)
        ensures
            final(self)@ == old(self)@.with_should_proceed_with_update(enabled),
    {
        self.should_proceed_with_update = enabled;
    }

    /// The password for encrypted update archives, if any.
    pub fn decryption_password(&self) -> (r: Option<String>)
        ensures
            r == self@.decryption_password,
    {
        copy_opt_string(&self.decryption_password)
    }

    pub fn set_decryption_password(&mut self, password: Option<String>)
        ensures
            final(self)@ == old(self)@.with_decryption_password(password),
    {
        self.decryption_password = password;
    }

    /// The HTTP headers added to each download request.
    pub fn download_request_headers(&self) -> (r: HashMap<String, String>)
        ensures
            r@ == self@.download_request_headers,
    {
        self.download_request_headers.clone()
    }

    pub fn set_download_request_headers(&mut self, headers: HashMap<String, String>)
        ensures
            final(self)@ == old(self)@.with_download_request_headers(headers@),
    {
        self.download_request_headers = headers;
    }
}

} // verus!
