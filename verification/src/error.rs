//! The errors of the addon manager, and the messages that report them.

use vstd::prelude::*;
use crate::git::{Git, GitView};
use crate::text::{concat, has_prefix};
use std::io::Error as IoError;
use serde_json::Error as JsonError;
use url::ParseError as UrlParseError;

verus! {

#[verifier::external_type_specification]
#[verifier::external_body]
pub struct ExIoError(IoError);

#[verifier::external_type_specification]
#[verifier::external_body]
pub struct ExJsonError(JsonError);

#[verifier::external_type_specification]
#[verifier::external_body]
pub struct ExUrlParseError(UrlParseError);

/// Why an addon-manager operation failed.
#[derive(Debug)]
pub enum Error {
    Io(IoError),
    Json(JsonError),
    Url(UrlParseError),
    InvalidHost(String),
    InvalidSource(String),
    InvalidAddon(String),
    Git(Git, String),
}

/// The text `Display` gives for an I/O error.
///
/// Nothing is stated of it: it comes from the operating system.
#[verifier::external_body]
fn io_error_text(e: &IoError) -> String {
    format!("{e}")
}

/// The text `Display` gives for a JSON error (its message and position).
///
/// Nothing is stated of it: the error is opaque to the library.
#[verifier::external_body]
fn json_error_text(e: &JsonError) -> String {
    format!("{e}")
}

/// The text `Display` gives for a URL parse error (a short description of the variant).
///
/// Nothing is stated of it: the error is opaque to the library.
#[verifier::external_body]
fn url_error_text(e: &UrlParseError) -> String {
    format!("{e}")
}

impl Error {
    /// The message that reports this error.
    pub fn message(&self) -> (r: String)
        ensures
            match self {
                Error::InvalidHost(name) => r@ == "invalid host '"@ + name@ + "': expected 'github.com'"@,
                Error::InvalidSource(m) => r@ == "invalid source: "@ + m@,
                Error::InvalidAddon(m) => r@ == "invalid addon: "@ + m@,
                Error::Git(git, m) => r@ == match git@ {
                    GitView::Clone(url) => "failed to clone repository("@ + url + "): "@ + m@,
                    GitView::Pull => "failed to pull repository: "@ + m@,
                    GitView::Fetch => "failed to fetch repository changes: "@ + m@,
                    GitView::Reset => "failed to reset repository: "@ + m@,
                    GitView::Hash => "failed to parse repository hash: "@ + m@,
                },
                Error::Json(_) => has_prefix(r@, "json: "@),
                Error::Url(_) => has_prefix(r@, "url: "@),
                Error::Io(_) => true,
            },
    {
        match self {
            Error::Io(err) => io_error_text(err),
            Error::Json(err) => {
                let t = json_error_text(err);
                let r = concat("json: ", t.as_str());
                assert(r@.subrange(0, "json: "@.len() as int) =~= "json: "@);
                r
            },
            Error::Url(err) => {
                let t = url_error_text(err);
                let r = concat("url: ", t.as_str());
                assert(r@.subrange(0, "url: "@.len() as int) =~= "url: "@);
                r
            },
            Error::InvalidHost(name) => {
                let mut r = concat("invalid host '", name.as_str());
                r.append("': expected 'github.com'");
                r
            },
            Error::InvalidSource(m) => concat("invalid source: ", m.as_str()),
            Error::InvalidAddon(m) => concat("invalid addon: ", m.as_str()),
            Error::Git(git, m) => match git {
                Git::Clone(url) => {
                    let mut r = concat("failed to clone repository(", url.as_str());
                    r.append("): ");
                    r.append(m.as_str());
                    r
                },
                Git::Pull => concat("failed to pull repository: ", m.as_str()),
                Git::Fetch => concat("failed to fetch repository changes: ", m.as_str()),
                Git::Reset => concat("failed to reset repository: ", m.as_str()),
                Git::Hash => concat("failed to parse repository hash: ", m.as_str()),
            },
        }
    }
}

impl From<IoError> for Error {
    fn from(value: IoError) -> (r: Error)
        ensures
            r == Error::Io(value),
    {
        Error::Io(value)
    }
}

impl vstd::std_specs::convert::FromSpecImpl<IoError> for Error {
    open spec fn obeys_from_spec() -> bool {
        true
    }

    open spec fn from_spec(v: IoError) -> Error {
        Error::Io(v)
    }
}

impl From<JsonError> for Error {
    fn from(value: JsonError) -> (r: Error)
        ensures
            r == Error::Json(value),
    {
        Error::Json(value)
    }
}

impl vstd::std_specs::convert::FromSpecImpl<JsonError> for Error {
    open spec fn obeys_from_spec() -> bool {
        true
    }

    open spec fn from_spec(v: JsonError) -> Error {
        Error::Json(v)
    }
}

impl From<UrlParseError> for Error {
    fn from(value: UrlParseError) -> (r: Error)
        ensures
            r == Error::Url(value),
    {
        Error::Url(value)
    }
}

impl vstd::std_specs::convert::FromSpecImpl<UrlParseError> for Error {
    open spec fn obeys_from_spec() -> bool {
        true
    }

    open spec fn from_spec(v: UrlParseError) -> Error {
        Error::Url(v)
    }
}

} // verus!
