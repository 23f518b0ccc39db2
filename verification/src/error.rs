//! The failures that assembling a configuration can report.
//!
//! The set of kinds is closed. Each kind has a fixed message; two of them
//! wrap a failure that came from elsewhere and keep it as their cause.

use vstd::prelude::*;
use vstd::string::*;
use vstd::std_specs::convert::FromSpecImpl;

verus! {

/// A failure that came from outside this library: what it said, and the
/// failure that caused it in turn, if it names one.
#[derive(Debug, PartialEq)]
pub struct Cause {
    pub message: String,
    pub source: Option<Box<Cause>>,
}

/// Type describing all errors that can occur in this library.
pub struct Error {
    pub inner: Box<ErrorInner>,
}

#[allow(inconsistent_fields)]
pub enum ErrorInner {
    /// A required configuration value has no source and no default. The
    /// string is the dotted path to the value, e.g. `http.port`.
    MissingValue(String),
    /// An IO error occured, e.g. when reading a file.
    Io { path: Option<String>, err: Cause },
    /// Deserialization failed.
    Deserialization {
        /// A human readable description of the source that was read, which
        /// completes the sentence "failed to deserialize configuration from ".
        /// E.g. "file 'foo.toml'" or "environment variable 'FOO_PORT'".
        source: Option<String>,
        err: Cause,
    },
    /// The value of an environment variable could not be deserialized.
    EnvDeserialization { field: String, key: String, msg: String },
    /// The extension of a configuration file names no supported format.
    UnsupportedFileFormat { path: String },
    /// The path of a configuration file has no extension.
    MissingFileExtension { path: String },
    /// A file source was marked as required but the file does not exist.
    MissingRequiredFile { path: String },
}

impl ErrorInner {
    /// The message of the error, word for word.
    pub open spec fn message(self) -> Seq<char> {
        match self {
            ErrorInner::MissingValue(path) => "required configuration value is missing: '"@ + path@
                + "'"@,
            ErrorInner::Io { path: Some(path), .. } =>
                "IO error occured while reading configuration file '"@ + path@ + "'"@,
            ErrorInner::Io { path: None, .. } => "IO error occured while loading configuration"@,
            ErrorInner::Deserialization { source: Some(source), .. } =>
                "failed to deserialize configuration from "@ + source@,
            ErrorInner::Deserialization { source: None, .. } =>
                "failed to deserialize configuration"@,
            ErrorInner::EnvDeserialization { field, key, msg } => "failed to deserialize value '"@
                + field@ + "' from environment variable '"@ + key@ + "': "@ + msg@,
            ErrorInner::UnsupportedFileFormat { path } =>
                "unknown configuration file format/extension: '"@ + path@ + "'"@,
            ErrorInner::MissingFileExtension { path } =>
                "cannot guess configuration file format due to missing file extension in '"@
                    + path@ + "'"@,
            ErrorInner::MissingRequiredFile { path } =>
                "required configuration file does not exist: '"@ + path@ + "'"@,
        }
    }

    /// The failure that the error wraps: only an IO error and a
    /// deserialization error have one.
    pub open spec fn cause(self) -> Option<Cause> {
        match self {
            ErrorInner::Io { err, .. } => Some(err),
            ErrorInner::Deserialization { err, .. } => Some(err),
            _ => None,
        }
    }
}

/// `lead`, then `body`, then a closing quote.
fn quoted(lead: &str, body: &str) -> (s: String)
    ensures
        s@ == lead@ + body@ + "'"@,
{
    let mut s = String::from_str(lead);
    s.append(body);
    s.append("'");
    s
}

impl Error {
    /// The message of the error.
    pub open spec fn spec_message(self) -> Seq<char> {
        (*self.inner).message()
    }

    /// The failure that this error wraps, if its kind wraps one.
    pub fn source(&self) -> (r: Option<&Cause>)
        ensures
            match r {
                Some(c) => (*self.inner).cause() == Some(*c),
                None => (*self.inner).cause() is None,
            },
    {
        match &*self.inner {
            ErrorInner::Io { err, .. } => Some(err),
            ErrorInner::Deserialization { err, .. } => Some(err),
            ErrorInner::MissingValue(_)
            | ErrorInner::EnvDeserialization { .. }
            | ErrorInner::UnsupportedFileFormat { .. }
            | ErrorInner::MissingFileExtension { .. }
            | ErrorInner::MissingRequiredFile { .. } => None,
        }
    }

    /// Displays the error: the fixed message of its kind, with the kind's
    /// own data filled in.
    pub fn to_string(&self) -> (s: String)
        ensures
            s@ == self.spec_message(),
    {
        match &*self.inner {
            ErrorInner::MissingValue(path) => quoted(
                "required configuration value is missing: '",
                path.as_str(),
            ),
            ErrorInner::Io { path: Some(path), .. } => quoted(
                "IO error occured while reading configuration file '",
                path.as_str(),
            ),
            ErrorInner::Io { path: None, .. } => String::from_str(
                "IO error occured while loading configuration",
            ),
            ErrorInner::Deserialization { source: Some(source), .. } => String::from_str(
                "failed to deserialize configuration from ",
            ).concat(source.as_str()),
            ErrorInner::Deserialization { source: None, .. } => String::from_str(
                "failed to deserialize configuration",
            ),
            ErrorInner::EnvDeserialization { field, key, msg } => {
                let mut s = String::from_str("failed to deserialize value '");
                s.append(field.as_str());
                s.append("' from environment variable '");
                s.append(key.as_str());
                s.append("': ");
                s.append(msg.as_str());
                s
            },
            ErrorInner::UnsupportedFileFormat { path } => quoted(
                "unknown configuration file format/extension: '",
                path.as_str(),
            ),
            ErrorInner::MissingFileExtension { path } => quoted(
                "cannot guess configuration file format due to missing file extension in '",
                path.as_str(),
            ),
            ErrorInner::MissingRequiredFile { path } => quoted(
                "required configuration file does not exist: '",
                path.as_str(),
            ),
        }
    }
}

impl From<ErrorInner> for Error {
    fn from(inner: ErrorInner) -> (r: Error) {
        Error { inner: Box::new(inner) }
    }
}

impl FromSpecImpl<ErrorInner> for Error {
    open spec fn obeys_from_spec() -> bool {
        true
    }

    open spec fn from_spec(inner: ErrorInner) -> Error {
        Error { inner: Box::new(inner) }
    }
}

} // verus!
