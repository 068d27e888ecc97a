//! Emptying a cache: its directory is deleted with all that is in it and
//! then created anew. A directory that is not there is left alone.

use vstd::prelude::*;
use crate::effect::{FailureKind, Progress, ProgressView, Reply, ReplyView, Request, RequestView};

verus! {

/// A flush in flight, of the cache rooted at `dir`.
#[derive(Debug, PartialEq, Eq)]
pub enum Flush {
    /// Waiting for the recursive deletion of the directory.
    Removing { dir: String },
    /// The directory is gone; waiting for its creation.
    Recreating { dir: String },
}

/// A [`Flush`] as the contracts see it.
pub enum FlushView {
    Removing { dir: Seq<char> },
    Recreating { dir: Seq<char> },
}

impl View for Flush {
    type V = FlushView;

    open spec fn view(&self) -> FlushView {
        match *self {
            Flush::Removing { dir } => FlushView::Removing { dir: dir@ },
            Flush::Recreating { dir } => FlushView::Recreating { dir: dir@ },
        }
    }
}

/// The request that opens a flush of the cache rooted at `dir`.
pub open spec fn flush_opening(dir: Seq<char>) -> RequestView {
    RequestView::RemoveDirAll { path: dir }
}

impl FlushView {
    /// The whole protocol: where a flush in state `self` goes on `reply`.
    ///
    /// - A directory that was not there to delete ends the flush at once, as
    ///   a success, and nothing is created.
    /// - Any other failure, of the deletion or of the creation, ends it with
    ///   that failure.
    /// - Every other reply says that the request was carried out: the
    ///   deletion is followed by the creation of the directory, and the
    ///   creation by success.
    pub open spec fn step<E>(self, reply: ReplyView<E>) -> ProgressView<FlushView, Result<(), E>> {
        match reply {
            ReplyView::Failed { kind, error } => {
                if self is Removing && kind == FailureKind::NotFound {
                    ProgressView::Finished(Ok(()))
                } else {
                    ProgressView::Finished(Err(error))
                }
            },
            _ => match self {
                FlushView::Removing { dir } => ProgressView::Continue {
                    state: FlushView::Recreating { dir },
                    request: RequestView::CreateDir { path: dir },
                },
                FlushView::Recreating { .. } => ProgressView::Finished(Ok(())),
            },
        }
    }
}

impl Flush {
    /// Begins flushing the cache rooted at `dir`: the first thing asked is
    /// the deletion of the directory and its content.
    pub fn begin(dir: String) -> (start: (Flush, Request))
        ensures
            start.0@ == (FlushView::Removing { dir: dir@ }),
            start.1@ == flush_opening(dir@),
    {
        let path = dir.clone();
        (Flush::Removing { dir }, Request::RemoveDirAll { path })
    }

    /// Takes the reply to the request last asked and says what comes next.
    pub fn advance<E>(self, reply: Reply<E>) -> (next: Progress<Flush, Result<(), E>>)
        ensures
            next@ == self@.step(reply@),
    {
        match reply {
            Reply::Failed { kind, error } => {
                match (self, kind) {
                    (Flush::Removing { .. }, FailureKind::NotFound) => Progress::Finished(Ok(())),
                    _ => Progress::Finished(Err(error)),
                }
            },
            _ => match self {
                Flush::Removing { dir } => {
                    let path = dir.clone();
                    Progress::Continue {
                        state: Flush::Recreating { dir },
                        request: Request::CreateDir { path },
                    }
                },
                Flush::Recreating { .. } => Progress::Finished(Ok(())),
            },
        }
    }
}

} // verus!
