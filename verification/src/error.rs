//! The ways in which an operation fails.

use crate::command::Tool;
use vstd::prelude::*;

verus! {

/// The five kinds of failure.
#[derive(Clone, Copy, Debug, PartialEq, Eq, Structural)]
pub enum ErrorKind {
    /// A name, a directive or an answer that cannot be used.
    InvalidInput,
    /// The directive file, or an account that has to exist, is not there.
    NotFound,
    /// An account that must not exist is there.
    AlreadyExists,
    /// A tool ran and reported failure.
    CommandFailed,
    /// A tool could not be started, or the directive file could not be read.
    IoError,
}

/// Why an operation failed.
#[derive(Clone, Debug, PartialEq, Eq)]
pub enum Error {
    /// The account name holds a `'\0'`, so the account database cannot be asked about it.
    InvalidName { name: String },
    /// A line of the directive file that is not `name:password:uid:gid`.
    MalformedDirective { line: String },
    /// The caller answered with an event that the session had not asked for.
    UnexpectedEvent,
    /// The directive file does not exist.
    PathNotFound,
    /// The account to remove or change does not exist.
    AccountNotFound { name: String },
    /// The account to create exists already.
    AlreadyExists { name: String },
    /// `tool` ran and ended with a status other than zero; `stderr` is what it wrote to its
    /// error stream.
    CommandFailed { tool: Tool, stderr: Vec<u8> },
    /// `tool` could not be started.
    SpawnFailed { tool: Tool, detail: String },
    /// The directive file could not be opened or read.
    ReadFailed { detail: String },
}

/// What an [`Error`] holds, as mathematical values.
pub enum ErrorView {
    InvalidName { name: Seq<char> },
    MalformedDirective { line: Seq<char> },
    UnexpectedEvent,
    PathNotFound,
    AccountNotFound { name: Seq<char> },
    AlreadyExists { name: Seq<char> },
    CommandFailed { tool: Tool, stderr: Seq<u8> },
    SpawnFailed { tool: Tool, detail: Seq<char> },
    ReadFailed { detail: Seq<char> },
}

impl View for Error {
    type V = ErrorView;

    open spec fn view(&self) -> ErrorView {
        match *self {
            Error::InvalidName { name } => ErrorView::InvalidName { name: name@ },
            Error::MalformedDirective { line } => ErrorView::MalformedDirective { line: line@ },
            Error::UnexpectedEvent => ErrorView::UnexpectedEvent,
            Error::PathNotFound => ErrorView::PathNotFound,
            Error::AccountNotFound { name } => ErrorView::AccountNotFound { name: name@ },
            Error::AlreadyExists { name } => ErrorView::AlreadyExists { name: name@ },
            Error::CommandFailed { tool, stderr } => ErrorView::CommandFailed {
                tool,
                stderr: stderr@,
            },
            Error::SpawnFailed { tool, detail } => ErrorView::SpawnFailed { tool, detail: detail@ },
            Error::ReadFailed { detail } => ErrorView::ReadFailed { detail: detail@ },
        }
    }
}

impl ErrorView {
    /// The kind that the error belongs to.
    pub open spec fn kind(self) -> ErrorKind {
        match self {
            ErrorView::InvalidName { .. } => ErrorKind::InvalidInput,
            ErrorView::MalformedDirective { .. } => ErrorKind::InvalidInput,
            ErrorView::UnexpectedEvent => ErrorKind::InvalidInput,
            ErrorView::PathNotFound => ErrorKind::NotFound,
            ErrorView::AccountNotFound { .. } => ErrorKind::NotFound,
            ErrorView::AlreadyExists { .. } => ErrorKind::AlreadyExists,
            ErrorView::CommandFailed { .. } => ErrorKind::CommandFailed,
            ErrorView::SpawnFailed { .. } => ErrorKind::IoError,
            ErrorView::ReadFailed { .. } => ErrorKind::IoError,
        }
    }
}

impl Error {
    /// The kind that the error belongs to.
    pub fn kind(&self) -> (kind: ErrorKind)
        ensures
            kind == self@.kind(),
    {
        match self {
            Error::InvalidName { .. } => ErrorKind::InvalidInput,
            Error::MalformedDirective { .. } => ErrorKind::InvalidInput,
            Error::UnexpectedEvent => ErrorKind::InvalidInput,
            Error::PathNotFound => ErrorKind::NotFound,
            Error::AccountNotFound { .. } => ErrorKind::NotFound,
            Error::AlreadyExists { .. } => ErrorKind::AlreadyExists,
            Error::CommandFailed { .. } => ErrorKind::CommandFailed,
            Error::SpawnFailed { .. } => ErrorKind::IoError,
            Error::ReadFailed { .. } => ErrorKind::IoError,
        }
    }
}

} // verus!
