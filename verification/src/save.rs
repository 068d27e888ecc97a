//! Writing an entry so that concurrent writers of the same entry cannot
//! corrupt it: the bytes go to a temporary sibling that is created
//! exclusively, and the sibling is then renamed onto the entry.
//!
//! A writer that finds the sibling already there knows that another writer is
//! at work on the same entry, and leaves the field to it.

use vstd::prelude::*;
use crate::effect::{FailureKind, Progress, ProgressView, Reply, ReplyView, Request, RequestView};
use crate::path::{temp_of, temp_sibling};

verus! {

/// A save in flight. `path` is the entry's final path throughout.
#[derive(Debug, PartialEq, Eq)]
pub enum Save {
    /// Waiting for the exclusive creation of the temporary sibling.
    Creating { path: String, bytes: Vec<u8> },
    /// The sibling is ours; waiting for the bytes to be written to it.
    Writing { path: String },
    /// The sibling is complete; waiting for its rename onto the entry.
    Renaming { path: String },
}

/// A [`Save`] as the contracts see it.
pub enum SaveView {
    Creating { path: Seq<char>, bytes: Seq<u8> },
    Writing { path: Seq<char> },
    Renaming { path: Seq<char> },
}

impl View for Save {
    type V = SaveView;

    open spec fn view(&self) -> SaveView {
        match *self {
            Save::Creating { path, bytes } => SaveView::Creating { path: path@, bytes: bytes@ },
            Save::Writing { path } => SaveView::Writing { path: path@ },
            Save::Renaming { path } => SaveView::Renaming { path: path@ },
        }
    }
}

/// The request that opens a save of `bytes` to `path`.
pub open spec fn save_opening(path: Seq<char>) -> RequestView {
    RequestView::CreateNew { path: temp_of(path) }
}

impl SaveView {
    /// The whole protocol: where a save in state `self` goes on `reply`.
    ///
    /// - An existing sibling ends the save at once, as a success, with
    ///   nothing written and nothing renamed.
    /// - Any other failure, at any stage, ends it with that failure.
    /// - Every other reply says that the request was carried out: creation
    ///   is followed by the write of all the bytes to the sibling, the write
    ///   by the rename of the sibling onto the entry, and the rename by
    ///   success.
    pub open spec fn step<E>(self, reply: ReplyView<E>) -> ProgressView<SaveView, Result<(), E>> {
        match reply {
            ReplyView::Failed { kind, error } => {
                if self is Creating && kind == FailureKind::AlreadyExists {
                    ProgressView::Finished(Ok(()))
                } else {
                    ProgressView::Finished(Err(error))
                }
            },
            _ => match self {
                SaveView::Creating { path, bytes } => ProgressView::Continue {
                    state: SaveView::Writing { path },
                    request: RequestView::WriteAll { path: temp_of(path), bytes },
                },
                SaveView::Writing { path } => ProgressView::Continue {
                    state: SaveView::Renaming { path },
                    request: RequestView::Rename { from: temp_of(path), to: path },
                },
                SaveView::Renaming { .. } => ProgressView::Finished(Ok(())),
            },
        }
    }
}

impl Save {
    /// Begins saving `bytes` as the entry at `path`: the first thing asked is
    /// the exclusive creation of the temporary sibling.
    pub fn begin(path: String, bytes: Vec<u8>) -> (start: (Save, Request))
        ensures
            start.0@ == (SaveView::Creating { path: path@, bytes: bytes@ }),
            start.1@ == save_opening(path@),
    {
        let temp = temp_sibling(&path);
        (Save::Creating { path, bytes }, Request::CreateNew { path: temp })
    }

    /// Takes the reply to the request last asked and says what comes next.
    pub fn advance<E>(self, reply: Reply<E>) -> (next: Progress<Save, Result<(), E>>)
        ensures
            next@ == self@.step(reply@),
    {
        match reply {
            Reply::Failed { kind, error } => {
                match (self, kind) {
                    (Save::Creating { .. }, FailureKind::AlreadyExists) => Progress::Finished(
                        Ok(()),
                    ),
                    _ => Progress::Finished(Err(error)),
                }
            },
            _ => match self {
                Save::Creating { path, bytes } => {
                    let temp = temp_sibling(&path);
                    Progress::Continue {
                        state: Save::Writing { path },
                        request: Request::WriteAll { path: temp, bytes },
                    }
                },
                Save::Writing { path } => {
                    let temp = temp_sibling(&path);
                    let to = path.clone();
                    Progress::Continue {
                        state: Save::Renaming { path },
                        request: Request::Rename { from: temp, to },
                    }
                },
                Save::Renaming { .. } => Progress::Finished(Ok(())),
            },
        }
    }
}

} // verus!
