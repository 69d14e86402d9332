//! What can go wrong in a search, and how each failure is reported.

use vstd::prelude::*;
use vstd::string::*;
use crate::status::ExitStatus;

verus! {

/// The kinds of failure.
#[derive(Debug, Clone, Copy, PartialEq, Eq, Structural)]
pub enum ErrorKind {
    /// No revision was found: the start revision names nothing, or no commit
    /// reachable from it has a matching message.
    NoSuchRevision,
    /// The repository could not be read.
    GitError,
    /// The pattern is no regular expression, or matching it failed.
    PCREError,
    /// Output could not be written.
    IOError,
}

/// A failure: its kind and, where another failure caused it, that failure's
/// own text.
#[derive(Debug)]
pub struct Error {
    /// What kind of failure this is.
    pub kind: ErrorKind,
    /// The text of the failure that caused this one, if one did.
    pub internal: Option<String>,
}

/// A failure of the repository backend, as far as the search looks at it.
#[derive(Debug)]
pub struct GitFailure {
    /// Whether the backend says that what was asked for does not exist.
    pub not_found: bool,
    /// The backend's own text for the failure.
    pub text: String,
}

/// A failure of the regular expression engine, as its own text.
#[derive(Debug)]
pub struct RegexFailure {
    /// The engine's own text for the failure.
    pub text: String,
}

/// A failure to write output, as its own text.
#[derive(Debug)]
pub struct IoFailure {
    /// The text of the failure, as the system gives it.
    pub text: String,
}

/// An [`Error`] as a plain value.
pub struct ErrorView {
    /// What kind of failure it is.
    pub kind: ErrorKind,
    /// The text of the failure that caused it, if one did.
    pub cause: Option<Seq<char>>,
}

impl View for Error {
    type V = ErrorView;

    open spec fn view(&self) -> ErrorView {
        ErrorView {
            kind: self.kind,
            cause: match self.internal {
                Some(text) => Some(text@),
                None => None,
            },
        }
    }
}

impl ErrorView {
    /// The status with which the process exits after such a failure.
    pub open spec fn exit_status(self) -> ExitStatus {
        match self.kind {
            ErrorKind::NoSuchRevision => ExitStatus::NonFatal,
            _ => ExitStatus::Fatal,
        }
    }

    /// Whether such a failure is fatal.
    pub open spec fn fatal(self) -> bool {
        self.exit_status() == ExitStatus::Fatal
    }

    /// The line that reports such a failure, without its line end.
    pub open spec fn message(self) -> Seq<char> {
        match self.kind {
            ErrorKind::NoSuchRevision => "fatal: needed a single revision"@,
            ErrorKind::PCREError => match self.cause {
                Some(cause) => "fatal: invalid regular expression: "@ + cause,
                None => "fatal: invalid regular expression"@,
            },
            ErrorKind::IOError => match self.cause {
                Some(cause) => "fatal: I/O error: "@ + cause,
                None => "fatal: unknown I/O error"@,
            },
            ErrorKind::GitError => match self.cause {
                Some(cause) => "fatal: "@ + cause,
                None => "fatal: an unknown error occurred"@,
            },
        }
    }
}

impl Error {
    /// A failure of the given kind. If another failure caused it, `error`
    /// holds that failure's text.
    pub fn new(kind: ErrorKind, error: Option<String>) -> (e: Error)
        ensures
            e == (Error { kind, internal: error }),
    {
        Error { kind, internal: error }
    }

    /// Whether this failure is fatal: every failure is, but a missing
    /// revision.
    pub fn fatal(&self) -> (fatal: bool)
        ensures
            fatal == self@.fatal(),
            fatal == (self.kind != ErrorKind::NoSuchRevision),
    {
        self.exit_status() == ExitStatus::Fatal
    }

    /// The status with which the process exits after this failure.
    pub fn exit_status(&self) -> (status: ExitStatus)
        ensures
            status == self@.exit_status(),
    {
        match self.kind {
            ErrorKind::NoSuchRevision => ExitStatus::NonFatal,
            _ => ExitStatus::Fatal,
        }
    }

    /// The line that reports this failure, without its line end.
    ///
    /// A missing revision is reported as `fatal:` too, though it is not: the
    /// wording is the one that Git uses.
    pub fn message(&self) -> (text: String)
        ensures
            text@ == self@.message(),
    {
        match self.kind {
            ErrorKind::NoSuchRevision => "fatal: needed a single revision".to_owned(),
            ErrorKind::PCREError => match &self.internal {
                Some(cause) => "fatal: invalid regular expression: ".to_owned().concat(cause.as_str()),
                None => "fatal: invalid regular expression".to_owned(),
            },
            ErrorKind::IOError => match &self.internal {
                Some(cause) => "fatal: I/O error: ".to_owned().concat(cause.as_str()),
                None => "fatal: unknown I/O error".to_owned(),
            },
            ErrorKind::GitError => match &self.internal {
                Some(cause) => "fatal: ".to_owned().concat(cause.as_str()),
                None => "fatal: an unknown error occurred".to_owned(),
            },
        }
    }
}

/// Two failures are equal when they are of one kind, whatever caused them.
impl PartialEq for Error {
    fn eq(&self, other: &Self) -> (equal: bool) {
        self.kind == other.kind
    }
}

impl vstd::std_specs::cmp::PartialEqSpecImpl for Error {
    open spec fn obeys_eq_spec() -> bool {
        true
    }

    open spec fn eq_spec(&self, other: &Self) -> bool {
        self.kind == other.kind
    }
}

/// A failure of the backend while the start of the search was looked up: a
/// missing revision if the backend found nothing under the name, a failure to
/// read the repository otherwise.
impl From<GitFailure> for Error {
    fn from(failure: GitFailure) -> (e: Error) {
        let kind = if failure.not_found {
            ErrorKind::NoSuchRevision
        } else {
            ErrorKind::GitError
        };
        Error::new(kind, Some(failure.text))
    }
}

impl vstd::std_specs::convert::FromSpecImpl<GitFailure> for Error {
    open spec fn obeys_from_spec() -> bool {
        true
    }

    open spec fn from_spec(failure: GitFailure) -> Error {
        Error {
            kind: if failure.not_found {
                ErrorKind::NoSuchRevision
            } else {
                ErrorKind::GitError
            },
            internal: Some(failure.text),
        }
    }
}

/// A failure of the regular expression engine: the pattern did not compile,
/// or a match could not be carried out.
impl From<RegexFailure> for Error {
    fn from(failure: RegexFailure) -> (e: Error) {
        Error::new(ErrorKind::PCREError, Some(failure.text))
    }
}

impl vstd::std_specs::convert::FromSpecImpl<RegexFailure> for Error {
    open spec fn obeys_from_spec() -> bool {
        true
    }

    open spec fn from_spec(failure: RegexFailure) -> Error {
        Error { kind: ErrorKind::PCREError, internal: Some(failure.text) }
    }
}

/// A failure to write output.
impl From<IoFailure> for Error {
    fn from(failure: IoFailure) -> (e: Error) {
        Error::new(ErrorKind::IOError, Some(failure.text))
    }
}

impl vstd::std_specs::convert::FromSpecImpl<IoFailure> for Error {
    open spec fn obeys_from_spec() -> bool {
        true
    }

    open spec fn from_spec(failure: IoFailure) -> Error {
        Error { kind: ErrorKind::IOError, internal: Some(failure.text) }
    }
}

} // verus!
