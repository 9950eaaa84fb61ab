use vstd::prelude::*;

verus! {

/// The standard I/O error type, carried unchanged by [`Error::Io`].
#[verifier::external_type_specification]
#[verifier::external_body]
pub struct ExIoError(std::io::Error);

/// Errors reported by the updater binding.
#[derive(Debug)]
pub enum Error {
    /// An I/O failure, reported as is.
    Io(std::io::Error),
    /// A feed URL that does not parse as an absolute URL; holds the rejected text.
    InvalidFeedUrl(String),
    /// The updater could not be started; holds the reason.
    SparkleInit(String),
    /// The updater is not available yet.
    UpdaterNotReady,
}

/// Result type of the updater binding.
pub type Result<T> = std::result::Result<T, Error>;

/// What `message` renders for every variant but `Io`, whose text is the I/O error's own.
pub open spec fn spec_error_message(e: Error) -> Seq<char> {
    match e {
        Error::InvalidFeedUrl(url) => "Invalid feed URL: "@ + url@,
        Error::SparkleInit(reason) => "Sparkle initialization failed: "@ + reason@,
        _ => "Updater not ready"@,
    }
}

impl Error {
    /// Human readable description of the error.
    pub fn message(&self) -> (r: String)
        ensures
            !(self is Io) ==> r@ == spec_error_message(*self),
            self matches Error::Io(e) ==> vstd::string::to_string_from_display_ensures::<
                std::io::Error,
            >(&e, r),
    {
        match self {
            Error::Io(e) => e.to_string(),
            Error::InvalidFeedUrl(url) => {
                let prefix = String::from_str("Invalid feed URL: ");
                prefix.concat(url.as_str())
            },
            Error::SparkleInit(reason) => {
                let prefix = String::from_str("Sparkle initialization failed: ");
                prefix.concat(reason.as_str())
            },
            Error::UpdaterNotReady => String::from_str("Updater not ready"),
        }
    }
}

impl From<std::io::Error> for Error {
    fn from(value: std::io::Error) -> (r: Self) {
        Error::Io(value)
    }
}

impl vstd::std_specs::convert::FromSpecImpl<std::io::Error> for Error {
    open spec fn obeys_from_spec() -> bool {
        true
    }

    open spec fn from_spec(v: std::io::Error) -> Self {
        Error::Io(v)
    }
}

} // verus!
