//! What can go wrong on the command line, and how it is worded.

use crate::text::join;
use vstd::prelude::*;
use vstd::string::*;

verus! {

/// The ways in which a command line is turned down, and the two requests
/// that end a run before any file is looked at.
#[derive(Debug, Clone, Copy, PartialEq, Eq, Structural)]
pub enum ArgErrorKind {
    /// An option that takes a value was not followed by one.
    MissingValue,
    /// An option that the tool does not know.
    UnknownArgument,
    /// Both access-only and modification-only were asked for.
    MutuallyExclusive,
    /// The word given to `--time` is none of the accepted ones.
    InvalidTime,
    /// No file was named.
    MissingFiles,
    /// `--help` was given.
    HelpRequested,
    /// `--version` was given.
    VersionRequested,
}

/// A refusal of the command line: its kind, and the token or word at fault
/// where the kind has one.
#[derive(Debug, Clone, PartialEq, Eq)]
pub struct ArgError {
    pub kind: ArgErrorKind,
    pub subject: String,
}

/// The mathematical value of an [`ArgError`].
pub struct Failure {
    pub kind: ArgErrorKind,
    pub subject: Seq<char>,
}

impl View for ArgError {
    type V = Failure;

    open spec fn view(&self) -> Failure {
        Failure { kind: self.kind, subject: self.subject@ }
    }
}

/// The text shown for `--help`.
pub const HELP: &'static str = "
touch version 1.0.0

Update the access and modification times of each FILE to the current time.

A FILE argument that does not exist is created empty, unless -c is supplied.

Usage: touch [options] <FILE> ...

Options:
  -a                        Change only the access time
  -c, --no-create           Do not create any files
  -d, --date <STRING>       Parse STRING and use it instead of the current time
  -h, --no-dereference      Affect each symbolic link instead of any referenced file
  -m                        Change only the modification time
  -r, --reference <FILE>    Use the times of FILE instead of the current time
  -t, --timestamp <STAMP>   Use [[CC]YY]MMDDhhmm[.ss] instead of the current time
  --time <WORD>             Change the specified time:
                              if WORD is access, atime, or use: equivalent to -a
                              if WORD is modify or mtime: equivalent to -m
  --version                 Output version information and exit
  --help                    Display this help and exit
";

/// The text shown for `--version`.
pub const VERSION: &'static str = "touch version 1.0.0";

/// The line that describes a failure.
pub open spec fn failure_text(f: Failure) -> Seq<char> {
    match f.kind {
        ArgErrorKind::MissingValue => "an argument must be supplied"@,
        ArgErrorKind::UnknownArgument => "unknown argument "@ + f.subject,
        ArgErrorKind::MutuallyExclusive => "-a and -m are mutually exclusive"@,
        ArgErrorKind::InvalidTime => "invalid argument to --time: "@ + f.subject,
        ArgErrorKind::MissingFiles => "must specify at least one file"@,
        ArgErrorKind::HelpRequested => HELP@,
        ArgErrorKind::VersionRequested => VERSION@,
    }
}

impl ArgError {
    /// An error of the given kind about the given token or word.
    pub fn new(kind: ArgErrorKind, subject: String) -> (e: ArgError)
        ensures
            e@ == (Failure { kind, subject: subject@ }),
    {
        ArgError { kind, subject }
    }

    /// An error of a kind that has no subject.
    pub fn plain(kind: ArgErrorKind) -> (e: ArgError)
        ensures
            e@ == (Failure { kind, subject: Seq::empty() }),
    {
        ArgError { kind, subject: String::new() }
    }

    /// Whether this is a request for help or for the version, which ends
    /// the run without a failure.
    pub fn is_request(&self) -> (yes: bool)
        ensures
            yes == (self.kind == ArgErrorKind::HelpRequested || self.kind
                == ArgErrorKind::VersionRequested),
    {
        match self.kind {
            ArgErrorKind::HelpRequested => true,
            ArgErrorKind::VersionRequested => true,
            _ => false,
        }
    }

    /// The line that describes the error.
    pub fn message(&self) -> (line: String)
        ensures
            line@ == failure_text(self@),
    {
        match self.kind {
            ArgErrorKind::MissingValue => String::from_str("an argument must be supplied"),
            ArgErrorKind::UnknownArgument => join("unknown argument ", self.subject.as_str()),
            ArgErrorKind::MutuallyExclusive => String::from_str("-a and -m are mutually exclusive"),
            ArgErrorKind::InvalidTime => join("invalid argument to --time: ", self.subject.as_str()),
            ArgErrorKind::MissingFiles => String::from_str("must specify at least one file"),
            ArgErrorKind::HelpRequested => String::from_str(HELP),
            ArgErrorKind::VersionRequested => String::from_str(VERSION),
        }
    }
}

/// Why a run failed.
#[derive(Debug, Clone, PartialEq, Eq)]
pub enum TouchError {
    /// The command line was turned down.
    Argument(ArgError),
    /// The date or the timestamp `input` could not be read, for `reason`.
    DateParse { input: String, reason: String },
    /// The file whose times were to be copied does not exist.
    ReferenceMissing { path: String },
    /// The file whose times were to be copied could not be examined.
    ReferenceUnreadable { path: String },
    /// A missing file could not be created; `reason` is the system's word.
    Create { reason: String },
    /// The times of `path` could not be set; `reason` is the system's word.
    SetTimes { path: String, reason: String },
}

/// The mathematical value of a [`TouchError`].
pub enum Trouble {
    Argument(Failure),
    DateParse { input: Seq<char>, reason: Seq<char> },
    ReferenceMissing { path: Seq<char> },
    ReferenceUnreadable { path: Seq<char> },
    Create { reason: Seq<char> },
    SetTimes { path: Seq<char>, reason: Seq<char> },
}

impl View for TouchError {
    type V = Trouble;

    open spec fn view(&self) -> Trouble {
        match self {
            TouchError::Argument(e) => Trouble::Argument(e@),
            TouchError::DateParse { input, reason } => Trouble::DateParse {
                input: input@,
                reason: reason@,
            },
            TouchError::ReferenceMissing { path } => Trouble::ReferenceMissing { path: path@ },
            TouchError::ReferenceUnreadable { path } => Trouble::ReferenceUnreadable {
                path: path@,
            },
            TouchError::Create { reason } => Trouble::Create { reason: reason@ },
            TouchError::SetTimes { path, reason } => Trouble::SetTimes {
                path: path@,
                reason: reason@,
            },
        }
    }
}

/// The line that describes a failed run, without the program's name.
pub open spec fn trouble_text(t: Trouble) -> Seq<char> {
    match t {
        Trouble::Argument(f) => failure_text(f),
        Trouble::DateParse { input, reason } => "error parsing "@ + input + ": "@ + reason,
        Trouble::ReferenceMissing { path } => "referenced file "@ + path + " does not exist"@,
        Trouble::ReferenceUnreadable { path } => "cannot stat referenced file "@ + path,
        Trouble::Create { reason } => reason,
        Trouble::SetTimes { path, reason } => "could not set time(s) for "@ + path + ": "@
            + reason,
    }
}

/// The line that is shown for a failed run: the program's name, then the
/// description.
pub open spec fn report_text(t: Trouble) -> Seq<char> {
    "touch: "@ + trouble_text(t)
}

impl TouchError {
    /// The line that describes the failure, without the program's name.
    pub fn message(&self) -> (line: String)
        ensures
            line@ == trouble_text(self@),
    {
        match self {
            TouchError::Argument(e) => e.message(),
            TouchError::DateParse { input, reason } => {
                let head = join("error parsing ", input.as_str());
                let head = join(head.as_str(), ": ");
                join(head.as_str(), reason.as_str())
            },
            TouchError::ReferenceMissing { path } => {
                let head = join("referenced file ", path.as_str());
                join(head.as_str(), " does not exist")
            },
            TouchError::ReferenceUnreadable { path } => join(
                "cannot stat referenced file ",
                path.as_str(),
            ),
            TouchError::Create { reason } => reason.clone(),
            TouchError::SetTimes { path, reason } => {
                let head = join("could not set time(s) for ", path.as_str());
                let head = join(head.as_str(), ": ");
                join(head.as_str(), reason.as_str())
            },
        }
    }

    /// The line that is shown for the failure.
    pub fn report(&self) -> (line: String)
        ensures
            line@ == report_text(self@),
    {
        let message = self.message();
        join("touch: ", message.as_str())
    }
}

} // verus!
