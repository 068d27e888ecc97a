//! The vocabulary shared by the cache's operations and whoever performs
//! their filesystem work.
//!
//! An operation never touches the disk. It emits one [`Request`] at a time,
//! and is advanced by the [`Reply`] that says how the request went.

use vstd::prelude::*;

verus! {

/// One filesystem action that an operation asks its driver to perform.
#[derive(Debug, PartialEq, Eq)]
pub enum Request {
    /// Create the directory and every missing parent; succeed if it exists.
    CreateDirAll { path: String },
    /// Open the file and read all of it.
    ReadFile { path: String },
    /// Create the file for writing, failing if anything already has that name.
    CreateNew { path: String },
    /// Write all the bytes to the file that the preceding `CreateNew` created.
    WriteAll { path: String, bytes: Vec<u8> },
    /// Rename `from` to `to`, replacing `to` atomically.
    Rename { from: String, to: String },
    /// Delete the directory and everything below it.
    RemoveDirAll { path: String },
    /// Create the directory itself; its parent must exist.
    CreateDir { path: String },
}

/// A [`Request`] as the contracts see it: paths as character sequences,
/// contents as byte sequences.
pub enum RequestView {
    CreateDirAll { path: Seq<char> },
    ReadFile { path: Seq<char> },
    CreateNew { path: Seq<char> },
    WriteAll { path: Seq<char>, bytes: Seq<u8> },
    Rename { from: Seq<char>, to: Seq<char> },
    RemoveDirAll { path: Seq<char> },
    CreateDir { path: Seq<char> },
}

impl View for Request {
    type V = RequestView;

    open spec fn view(&self) -> RequestView {
        match *self {
            Request::CreateDirAll { path } => RequestView::CreateDirAll { path: path@ },
            Request::ReadFile { path } => RequestView::ReadFile { path: path@ },
            Request::CreateNew { path } => RequestView::CreateNew { path: path@ },
            Request::WriteAll { path, bytes } => RequestView::WriteAll {
                path: path@,
                bytes: bytes@,
            },
            Request::Rename { from, to } => RequestView::Rename { from: from@, to: to@ },
            Request::RemoveDirAll { path } => RequestView::RemoveDirAll { path: path@ },
            Request::CreateDir { path } => RequestView::CreateDir { path: path@ },
        }
    }
}

/// What an operation needs to know of a failed action. Every failure that is
/// neither "nothing has that name" nor "something already has that name" is
/// `Other`.
#[derive(Clone, Copy, Debug, PartialEq, Eq, Structural)]
pub enum FailureKind {
    NotFound,
    AlreadyExists,
    Other,
}

/// How a [`Request`] went. `E` is the driver's own error value; an operation
/// looks only at `kind` and hands `error` through untouched.
#[derive(Debug)]
pub enum Reply<E> {
    /// The action succeeded and has nothing to report.
    Done,
    /// A `ReadFile` succeeded: the whole content of the file.
    Contents(Vec<u8>),
    /// The action failed.
    Failed { kind: FailureKind, error: E },
}

/// A [`Reply`] as the contracts see it.
pub enum ReplyView<E> {
    Done,
    Contents(Seq<u8>),
    Failed { kind: FailureKind, error: E },
}

impl<E> View for Reply<E> {
    type V = ReplyView<E>;

    open spec fn view(&self) -> ReplyView<E> {
        match *self {
            Reply::Done => ReplyView::Done,
            Reply::Contents(bytes) => ReplyView::Contents(bytes@),
            Reply::Failed { kind, error } => ReplyView::Failed { kind, error },
        }
    }
}

impl<E> ReplyView<E> {
    /// The reply read as the outcome of an action that has nothing to hand
    /// back: the failure, whatever its kind, or success.
    pub open spec fn outcome(self) -> Result<(), E> {
        match self {
            ReplyView::Failed { error, .. } => Err(error),
            _ => Ok(()),
        }
    }
}

impl<E> Reply<E> {
    /// The reply read as the outcome of an action that has nothing to hand
    /// back. No kind of failure is passed over.
    pub fn into_result(self) -> (result: Result<(), E>)
        ensures
            result == self@.outcome(),
    {
        match self {
            Reply::Failed { kind, error } => Err(error),
            _ => Ok(()),
        }
    }
}

/// Where an operation stands after a reply: it either asks for the next
/// action or has finished with a result.
#[derive(Debug)]
pub enum Progress<S, R> {
    Continue { state: S, request: Request },
    Finished(R),
}

/// A [`Progress`] as the contracts see it.
pub enum ProgressView<S, R> {
    Continue { state: S, request: RequestView },
    Finished(R),
}

impl<S: View, R> View for Progress<S, R> {
    type V = ProgressView<S::V, R>;

    open spec fn view(&self) -> ProgressView<S::V, R> {
        match *self {
            Progress::Continue { state, request } => ProgressView::Continue {
                state: state@,
                request: request@,
            },
            Progress::Finished(result) => ProgressView::Finished(result),
        }
    }
}

} // verus!
