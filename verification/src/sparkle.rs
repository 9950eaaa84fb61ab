use crate::error::Error;
use crate::text::{str_eq, str_contains};
use vstd::prelude::*;

verus! {

/// The updater configuration supplied by the application.
#[derive(Debug, Clone)]
pub struct SparkleConfig {
    /// The application's current version.
    pub version: String,
}

/// Types that can hand out the updater configuration.
pub trait GetSparkleConfig {
    fn sparkle_config(&self) -> SparkleConfig;
}

impl GetSparkleConfig for SparkleConfig {
    /// A copy of this configuration.
    fn sparkle_config(&self) -> (r: SparkleConfig)
        ensures
            r == *self,
    {
        SparkleConfig { version: self.version.clone() }
    }
}

/// The URL type of the `url` crate, carried opaquely.
#[verifier::external_type_specification]
#[verifier::external_body]
pub struct ExUrl(url::Url);

/// The parse error type of the `url` crate, carried opaquely.
#[verifier::external_type_specification]
#[verifier::external_body]
pub struct ExUrlParseError(url::ParseError);

/// Whether `url::Url::parse` accepts `input`, that is, whether `input` parses as an
/// absolute URL under the WHATWG URL standard that the `url` crate implements.
pub uninterp spec fn parses_as_absolute_url(input: Seq<char>) -> bool;

/// Calls `url::Url::parse`. Trusted: the result is `Ok` exactly when the crate accepts
/// `input` as an absolute URL, which is a function of `input` alone; nothing is stated
/// of the parsed URL or of which error variant comes back.
#[verifier::external_body]
fn parse_url(input: &str) -> (r: Result<url::Url, url::ParseError>)
    ensures
        r is Ok <==> parses_as_absolute_url(input@),
{
    url::Url::parse(input)
}

/// Maps the outcome of parsing a feed URL to the binding's answer: accepted, or
/// `InvalidFeedUrl` holding the rejected text.
pub fn feed_url_outcome(url: &str, parsed: &Result<url::Url, url::ParseError>) -> (r: Result<(), Error>)
    ensures
        parsed is Ok ==> r is Ok,
        parsed is Err ==> (r matches Err(Error::InvalidFeedUrl(s)) && s@ == url@),
{
    match parsed {
        Ok(_) => Ok(()),
        Err(_) => Err(Error::InvalidFeedUrl(String::from_str(url))),
    }
}

/// Checks a feed URL before it is handed to the updater: it must parse as an absolute URL.
pub fn validate_feed_url(url: &str) -> (r: Result<(), Error>)
    ensures
        r is Ok <==> parses_as_absolute_url(url@),
        r is Err ==> (r matches Err(Error::InvalidFeedUrl(s)) && s@ == url@),
{
    let parsed = parse_url(url);
    feed_url_outcome(url, &parsed)
}

/// The bundle identifier of the Xcode command line tool host, under which the
/// updater cannot run.
pub open spec fn xcode_tool_identifier() -> Seq<char> {
    "com.apple.dt.Xcode.tool"@
}

/// A bundle can host the updater when it has an identifier that is neither empty nor
/// the Xcode tool's.
pub open spec fn spec_valid_bundle(identifier: Option<Seq<char>>) -> bool {
    match identifier {
        Some(id) => id.len() > 0 && id != xcode_tool_identifier(),
        None => false,
    }
}

/// Every non-empty bundle identifier other than the Xcode tool's can host the updater,
/// whatever characters it holds; no identifier, the empty one and the Xcode tool's cannot.
pub proof fn law_valid_bundle(id: Seq<char>)
    ensures
        (id.len() > 0 && id != "com.apple.dt.Xcode.tool"@) ==> spec_valid_bundle(Some(id)),
        !spec_valid_bundle(Some(Seq::<char>::empty())),
        !spec_valid_bundle(Some("com.apple.dt.Xcode.tool"@)),
        !spec_valid_bundle(None),
{
}

/// Decides from the main bundle's identifier whether the updater can run.
pub fn is_valid_bundle_identifier(identifier: Option<&str>) -> (r: bool)
    ensures
        r == spec_valid_bundle(
            match identifier {
                Some(id) => Some(id@),
                None => None,
            },
        ),
{
    match identifier {
        Some(id) => {
            let n = id.unicode_len();
            n > 0 && !str_eq(id, "com.apple.dt.Xcode.tool")
        },
        None => false,
    }
}

/// The message used when the updater fails to start and reports no error.
pub open spec fn start_failure_default() -> Seq<char> {
    "Failed to start updater"@
}

/// The answer to an attempt to start the updater: success, or `SparkleInit` with the
/// reported error's description, or a default description when none was reported.
pub fn start_outcome(success: bool, error_description: Option<String>) -> (r: Result<(), Error>)
    ensures
        success ==> r is Ok,
        !success ==> (r matches Err(Error::SparkleInit(msg)) && msg@ == (match error_description {
            Some(d) => d@,
            None => start_failure_default(),
        })),
{
    if success {
        Ok(())
    } else {
        match error_description {
            Some(d) => Err(Error::SparkleInit(d)),
            None => Err(Error::SparkleInit(String::from_str("Failed to start updater"))),
        }
    }
}

/// The character contents of a list of string pairs.
pub open spec fn pair_views(s: Seq<(String, String)>) -> Seq<(Seq<char>, Seq<char>)> {
    s.map_values(|p: (String, String)| (p.0@, p.1@))
}

/// The character contents of a list of strings.
pub open spec fn string_views(s: Seq<String>) -> Seq<Seq<char>> {
    s.map_values(|x: String| x@)
}

/// The Info.plist keys the updater needs, each with the warning given when it is missing.
pub open spec fn spec_plist_key_validations() -> Seq<(Seq<char>, Seq<char>)> {
    seq![
        ("SUPublicEDKey"@, "Sparkle will not be able to verify update signatures."@),
        ("SUFeedURL"@, "You must set a feed URL before checking for updates."@),
    ]
}

/// The checks, in order, whose key is not among `keys`.
pub open spec fn spec_missing_keys(
    checks: Seq<(Seq<char>, Seq<char>)>,
    keys: Seq<Seq<char>>,
) -> Seq<(Seq<char>, Seq<char>)>
    decreases checks.len(),
{
    if checks.len() == 0 {
        seq![]
    } else {
        let rest = spec_missing_keys(checks.drop_last(), keys);
        if keys.contains(checks.last().0) {
            rest
        } else {
            rest.push(checks.last())
        }
    }
}

/// A check is reported exactly when it is one of the checks and its key is absent.
pub proof fn lemma_missing_keys_members(
    checks: Seq<(Seq<char>, Seq<char>)>,
    keys: Seq<Seq<char>>,
    c: (Seq<char>, Seq<char>),
)
    ensures
        spec_missing_keys(checks, keys).contains(c) <==> (checks.contains(c) && !keys.contains(c.0)),
    decreases checks.len(),
{
    if checks.len() > 0 {
        let init = checks.drop_last();
        lemma_missing_keys_members(init, keys, c);
        assert(checks =~= init.push(checks.last()));
        if checks.contains(c) && c != checks.last() {
            let k = choose|k: int| 0 <= k < checks.len() && checks[k] == c;
            assert(k < init.len());
            assert(init[k] == c);
        }
        if init.contains(c) {
            let k = choose|k: int| 0 <= k < init.len() && init[k] == c;
            assert(checks[k] == c);
        }
        let rest = spec_missing_keys(init, keys);
        if !keys.contains(checks.last().0) {
            let out = rest.push(checks.last());
            assert(out[rest.len() as int] == checks.last());
            if rest.contains(c) {
                let k = choose|k: int| 0 <= k < rest.len() && rest[k] == c;
                assert(out[k] == c);
            }
            if out.contains(c) && c != checks.last() {
                let k = choose|k: int| 0 <= k < out.len() && out[k] == c;
                assert(k < rest.len());
                assert(rest[k] == c);
            }
        }
        assert(checks[checks.len() - 1] == checks.last());
    }
}

/// With both required keys in the Info.plist nothing is reported; with neither, both
/// checks are reported in order.
pub proof fn lemma_plist_extremes(keys: Seq<Seq<char>>)
    ensures
        (keys.contains("SUPublicEDKey"@) && keys.contains("SUFeedURL"@)) ==> spec_missing_keys(
            spec_plist_key_validations(),
            keys,
        ) == Seq::<(Seq<char>, Seq<char>)>::empty(),
        (!keys.contains("SUPublicEDKey"@) && !keys.contains("SUFeedURL"@)) ==> spec_missing_keys(
            spec_plist_key_validations(),
            keys,
        ) == spec_plist_key_validations(),
{
    reveal_with_fuel(spec_missing_keys, 3);
    let v = spec_plist_key_validations();
    assert(v[0].0 == "SUPublicEDKey"@);
    assert(v[1].0 == "SUFeedURL"@);
    assert(v.drop_last().drop_last() =~= Seq::<(Seq<char>, Seq<char>)>::empty());
    assert(v.drop_last() =~= seq![v[0]]);
    assert(v.drop_last().last() == v[0]);
    assert(v.last() == v[1]);
    assert(seq![v[0]].push(v[1]) =~= v);
    assert(Seq::<(Seq<char>, Seq<char>)>::empty().push(v[0]) =~= seq![v[0]]);
}

/// The required Info.plist keys with their warnings.
fn plist_key_validations() -> (r: Vec<(String, String)>)
    ensures
        pair_views(r@) == spec_plist_key_validations(),
{
    let mut v: Vec<(String, String)> = Vec::new();
    v.push(
        (
            String::from_str("SUPublicEDKey"),
            String::from_str("Sparkle will not be able to verify update signatures."),
        ),
    );
    v.push(
        (
            String::from_str("SUFeedURL"),
            String::from_str("You must set a feed URL before checking for updates."),
        ),
    );
    assert(pair_views(v@) =~= spec_plist_key_validations());
    v
}

/// Whether `key` is one of `keys`.
fn has_key(keys: &Vec<String>, key: &String) -> (r: bool)
    ensures
        r == string_views(keys@).contains(key@),
{
    let mut i: usize = 0;
    while i < keys.len()
        invariant
            i <= keys@.len(),
            forall|k: int| 0 <= k < i ==> keys@[k]@ != key@,
        decreases keys@.len() - i,
    {
        if keys[i] == *key {
            assert(string_views(keys@)[i as int] == key@);
            return true;
        }
        i += 1;
    }
    assert(!string_views(keys@).contains(key@)) by {
        if string_views(keys@).contains(key@) {
            let k = choose|k: int| 0 <= k < string_views(keys@).len() && string_views(keys@)[k] == key@;
            assert(keys@[k]@ == key@);
        }
    }
    false
}

/// The required Info.plist keys that the bundle's Info.plist lacks, each with its warning,
/// in the order they are checked. `info_keys` lists the keys present in the Info.plist;
/// without an Info.plist nothing is reported.
pub fn missing_info_plist_keys(info_keys: Option<&Vec<String>>) -> (r: Vec<(String, String)>)
    ensures
        pair_views(r@) == (match info_keys {
            Some(keys) => spec_missing_keys(spec_plist_key_validations(), string_views(keys@)),
            None => seq![],
        }),
{
    let mut out: Vec<(String, String)> = Vec::new();
    match info_keys {
        None => {
            assert(pair_views(out@) =~= seq![]);
            out
        },
        Some(keys) => {
            let checks = plist_key_validations();
            let ghost spec_checks = spec_plist_key_validations();
            let ghost kv = string_views(keys@);
            let mut i: usize = 0;
            while i < checks.len()
                invariant
                    pair_views(checks@) == spec_checks,
                    kv == string_views(keys@),
                    i <= checks@.len(),
                    pair_views(out@) == spec_missing_keys(spec_checks.take(i as int), kv),
                decreases checks@.len() - i,
            {
                let (key, warning) = (&checks[i].0, &checks[i].1);
                let present = has_key(keys, key);
                assert(spec_checks.take(i + 1).drop_last() =~= spec_checks.take(i as int));
                assert(spec_checks.take(i + 1).last() == spec_checks[i as int]);
                if !present {
                    out.push((key.clone(), warning.clone()));
                    assert(pair_views(out@) =~= spec_missing_keys(spec_checks.take(i as int), kv).push(
                        spec_checks[i as int],
                    ));
                }
                i += 1;
            }
            assert(spec_checks.take(checks@.len() as int) =~= spec_checks);
            out
        },
    }
}

} // verus!
