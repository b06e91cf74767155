//! Error type of the library.

use std::fmt::Display;
use vstd::prelude::*;
use vstd::std_specs::convert::FromSpecImpl;
use vstd::string::to_string_from_display_ensures;
use vstd::string::StringExecFns;

verus! {

/// The kinds of failure that the library reports.
#[derive(Copy, Clone, Debug, Eq, PartialEq, Structural)]
#[non_exhaustive]
pub enum ErrorKind {
    /// Invalid argument or parameter
    BadParam,
    /// Error performing an automatic fix
    Fix,
    /// An error occurred performing an I/O operation (e.g. network, file)
    Io,
    /// Not found
    NotFound,
    /// Unable to acquire filesystem lock
    LockTimeout,
    /// Couldn't parse response data
    Parse,
    /// Registry-related error
    Registry,
    /// Git operation failed
    Repo,
    /// Errors related to versions
    Version,
}

impl ErrorKind {
    /// The text that describes a kind.
    pub open spec fn description(self) -> Seq<char> {
        match self {
            ErrorKind::BadParam => "bad parameter"@,
            ErrorKind::Fix => "fix failed"@,
            ErrorKind::Io => "I/O operation failed"@,
            ErrorKind::NotFound => "not found"@,
            ErrorKind::LockTimeout => "unable to acquire filesystem lock"@,
            ErrorKind::Parse => "parse error"@,
            ErrorKind::Registry => "registry"@,
            ErrorKind::Repo => "git operation failed"@,
            ErrorKind::Version => "bad version"@,
        }
    }

    /// The text that describes this kind of error.
    pub fn as_str(self) -> (text: &'static str)
        ensures
            text@ == self.description(),
    {
        match self {
            ErrorKind::BadParam => "bad parameter",
            ErrorKind::Fix => "fix failed",
            ErrorKind::Io => "I/O operation failed",
            ErrorKind::NotFound => "not found",
            ErrorKind::LockTimeout => "unable to acquire filesystem lock",
            ErrorKind::Parse => "parse error",
            ErrorKind::Registry => "registry",
            ErrorKind::Repo => "git operation failed",
            ErrorKind::Version => "bad version",
        }
    }
}

/// An error: its kind, and a message with further detail.
#[derive(Debug)]
pub struct Error {
    /// Kind of error
    kind: ErrorKind,
    /// Message providing additional information
    msg: String,
}

/// The separator between the kind and the message in an error's text.
pub open spec fn separator() -> Seq<char> {
    ": "@
}

impl Error {
    /// The kind of this error.
    pub closed spec fn spec_kind(&self) -> ErrorKind {
        self.kind
    }

    /// The message of this error.
    pub closed spec fn msg(&self) -> String {
        self.msg
    }

    /// The text of this error: its kind's description, a colon and a space,
    /// and its message.
    pub open spec fn text(&self) -> Seq<char> {
        self.spec_kind().description() + separator() + self.msg()@
    }

    /// Create a new error with the given description
    pub fn new<S: Display + ?Sized>(kind: ErrorKind, description: &S) -> (e: Self)
        ensures
            e.kind() == kind,
            to_string_from_display_ensures::<S>(description, e.msg()),
    {
        Self { kind, msg: description.to_string() }
    }

    /// Obtain the inner `ErrorKind` for this error
    #[verifier::when_used_as_spec(spec_kind)]
    pub fn kind(&self) -> (k: ErrorKind)
        ensures
            k == self.spec_kind(),
    {
        self.kind
    }

    /// The message that gives further detail.
    pub fn message(&self) -> (message: &str)
        ensures
            message@ == self.msg()@,
    {
        self.msg.as_str()
    }

    /// The text of this error, as it is shown to a reader.
    pub fn to_string(&self) -> (text: String)
        ensures
            text@ == self.text(),
    {
        let mut text = self.kind.as_str().to_owned();
        text.append(": ");
        text.append(self.msg.as_str());
        text
    }
}

/// Where a failure came from that the library reports as an error.
#[derive(Copy, Clone, Debug, Eq, PartialEq, Structural)]
pub enum ErrorSource {
    /// Text that is not valid UTF-8.
    Utf8,
    /// An automatic fix of a vulnerable dependency.
    Fix,
    /// The reading of a lockfile.
    Lockfile,
    /// The formatting of text.
    Formatting,
    /// An I/O operation.
    Io,
    /// The parsing of a version or of a version requirement.
    Version,
    /// The parsing of TOML.
    Toml,
}

impl ErrorSource {
    /// The kind of error that a failure from this source is reported as.
    pub open spec fn error_kind(self) -> ErrorKind {
        match self {
            ErrorSource::Utf8 => ErrorKind::Parse,
            ErrorSource::Fix => ErrorKind::Fix,
            ErrorSource::Lockfile => ErrorKind::Io,
            ErrorSource::Formatting => ErrorKind::Io,
            ErrorSource::Io => ErrorKind::Io,
            ErrorSource::Version => ErrorKind::Version,
            ErrorSource::Toml => ErrorKind::Parse,
        }
    }

    /// The kind of error that a failure from this source is reported as.
    #[verifier::when_used_as_spec(error_kind)]
    pub fn kind(self) -> (kind: ErrorKind)
        ensures
            kind == self.error_kind(),
    {
        match self {
            ErrorSource::Utf8 => ErrorKind::Parse,
            ErrorSource::Fix => ErrorKind::Fix,
            ErrorSource::Lockfile => ErrorKind::Io,
            ErrorSource::Formatting => ErrorKind::Io,
            ErrorSource::Io => ErrorKind::Io,
            ErrorSource::Version => ErrorKind::Version,
            ErrorSource::Toml => ErrorKind::Parse,
        }
    }
}

impl Error {
    /// The error for a failure from the given source: of the kind that
    /// belongs to the source, with the failure's own text as its message.
    pub fn from_source<S: Display + ?Sized>(source: ErrorSource, failure: &S) -> (e: Error)
        ensures
            e.kind() == source.error_kind(),
            to_string_from_display_ensures::<S>(failure, e.msg()),
    {
        Error::new(source.kind(), failure)
    }
}

/// Why a lock on a directory could not be acquired.
#[derive(Debug, Clone, PartialEq, Eq)]
pub enum LockFailure {
    /// An I/O operation failed while the lock was taken.
    Io {
        /// What the failed operation reported.
        cause: String,
    },
    /// The directory was still locked after the last attempt.
    PermanentlyLocked,
}

/// Why an operation on the registry index failed.
#[derive(Debug, Clone, PartialEq, Eq)]
pub enum IndexFailure {
    /// The index's repository could not be locked.
    Lock(LockFailure),
    /// Anything else.
    Other {
        /// What the index reported.
        description: String,
    },
}

impl LockFailure {
    /// What comes before the cause in the message of a failed lock.
    pub open spec fn io_prefix() -> Seq<char> {
        "failed to aquire directory lock: "@
    }

    /// The message for a directory that stayed locked.
    pub open spec fn still_locked_message() -> Seq<char> {
        "directory \"{resource_path:?}\" still locked after {attempts} attempts"@
    }

    /// The kind of error that this failure is reported as.
    pub open spec fn error_kind(self) -> ErrorKind {
        match self {
            LockFailure::Io { .. } => ErrorKind::Repo,
            LockFailure::PermanentlyLocked => ErrorKind::LockTimeout,
        }
    }

    /// The message that this failure is reported with.
    pub open spec fn error_message(self) -> Seq<char> {
        match self {
            LockFailure::Io { cause } => Self::io_prefix() + cause@,
            LockFailure::PermanentlyLocked => Self::still_locked_message(),
        }
    }
}

impl IndexFailure {
    /// The kind of error that this failure is reported as: a lock that timed
    /// out keeps its own kind, everything else is a registry error.
    pub open spec fn error_kind(self) -> ErrorKind {
        match self {
            IndexFailure::Lock(failure) => failure.error_kind(),
            IndexFailure::Other { .. } => ErrorKind::Registry,
        }
    }

    /// The message that this failure is reported with.
    pub open spec fn error_message(self) -> Seq<char> {
        match self {
            IndexFailure::Lock(failure) => failure.error_message(),
            IndexFailure::Other { description } => description@,
        }
    }
}

impl Error {
    /// The error for a lock that could not be acquired: a git error where an
    /// I/O operation failed, a lock timeout where the directory stayed locked.
    pub fn from_lock_failure(failure: &LockFailure) -> (e: Error)
        ensures
            e.kind() == failure.error_kind(),
            e.msg()@ == failure.error_message(),
    {
        match failure {
            LockFailure::Io { cause } => {
                let mut msg = "failed to aquire directory lock: ".to_owned();
                msg.append(cause.as_str());
                Error { kind: ErrorKind::Repo, msg }
            },
            LockFailure::PermanentlyLocked => Error {
                kind: ErrorKind::LockTimeout,
                msg: "directory \"{resource_path:?}\" still locked after {attempts} attempts".to_owned(),
            },
        }
    }

    /// The error for a failed operation on the registry index. Lock timeouts
    /// keep their own kind; every other failure is a registry error.
    pub fn from_index_failure(failure: &IndexFailure) -> (e: Error)
        ensures
            e.kind() == failure.error_kind(),
            e.msg()@ == failure.error_message(),
    {
        match failure {
            IndexFailure::Lock(lock_failure) => Error::from_lock_failure(lock_failure),
            IndexFailure::Other { description } => Error {
                kind: ErrorKind::Registry,
                msg: description.clone(),
            },
        }
    }
}

/// The error of `std::str::from_utf8`.
#[verifier::external_type_specification]
#[verifier::external_body]
pub struct ExUtf8Error(std::str::Utf8Error);

/// The error of `std::fmt::Write`.
#[verifier::external_type_specification]
#[verifier::external_body]
pub struct ExFmtError(std::fmt::Error);

/// The error of `std::io`.
#[verifier::external_type_specification]
#[verifier::external_body]
pub struct ExIoError(std::io::Error);

impl From<std::str::Utf8Error> for Error {
    /// Text that is not UTF-8 is a parse error.
    fn from(other: std::str::Utf8Error) -> (e: Error)
        ensures
            e.kind() == ErrorKind::Parse,
            to_string_from_display_ensures::<std::str::Utf8Error>(&other, e.msg()),
    {
        Error::from_source(ErrorSource::Utf8, &other)
    }
}

/// The message of the result is what the source displays, which no spec
/// function gives: the conversion is stated by the `ensures` of `from`.
impl FromSpecImpl<std::str::Utf8Error> for Error {
    open spec fn obeys_from_spec() -> bool {
        false
    }

    open spec fn from_spec(other: std::str::Utf8Error) -> Error {
        arbitrary()
    }
}

impl From<std::fmt::Error> for Error {
    /// A failure to format is an I/O error.
    fn from(other: std::fmt::Error) -> (e: Error)
        ensures
            e.kind() == ErrorKind::Io,
            to_string_from_display_ensures::<std::fmt::Error>(&other, e.msg()),
    {
        Error::from_source(ErrorSource::Formatting, &other)
    }
}

/// The conversion is stated by the `ensures` of `from`.
impl FromSpecImpl<std::fmt::Error> for Error {
    open spec fn obeys_from_spec() -> bool {
        false
    }

    open spec fn from_spec(other: std::fmt::Error) -> Error {
        arbitrary()
    }
}

impl From<std::io::Error> for Error {
    /// A failed I/O operation is an I/O error.
    fn from(other: std::io::Error) -> (e: Error)
        ensures
            e.kind() == ErrorKind::Io,
            to_string_from_display_ensures::<std::io::Error>(&other, e.msg()),
    {
        Error::from_source(ErrorSource::Io, &other)
    }
}

/// The conversion is stated by the `ensures` of `from`.
impl FromSpecImpl<std::io::Error> for Error {
    open spec fn obeys_from_spec() -> bool {
        false
    }

    open spec fn from_spec(other: std::io::Error) -> Error {
        arbitrary()
    }
}

} // verus!
