//! A disk to reason against: what the files hold, which directories there
//! are, and how a disk on which nothing goes wrong answers each request.
//!
//! The operations of the cache are proved correct step by step without it.
//! It is here so that what several steps, or several operations, achieve
//! together can be stated and proved as well.

use vstd::prelude::*;
use crate::effect::{FailureKind, ProgressView, ReplyView, RequestView};

verus! {

/// The state of a disk.
pub struct Disk {
    /// The directories that exist, by path.
    pub dirs: Set<Seq<char>>,
    /// The files that exist, by path, with their content.
    pub files: Map<Seq<char>, Seq<u8>>,
    /// Which paths name something inside which directory, at any depth: the
    /// pairs of a directory's path and such a path. This is a matter of how
    /// the file system reads names, and no request changes it.
    pub inside: Set<(Seq<char>, Seq<char>)>,
}

impl Disk {
    /// `path` names something inside the directory `dir`.
    pub open spec fn holds(self, dir: Seq<char>, path: Seq<char>) -> bool {
        self.inside.contains((dir, path))
    }

    /// The directory `dir` exists and no file is inside it.
    pub open spec fn has_empty_dir(self, dir: Seq<char>) -> bool {
        &&& self.dirs.contains(dir)
        &&& forall|path: Seq<char>| self.holds(dir, path) ==> !self.files.contains_key(path)
    }

    /// This disk without the directory `dir` and all that is inside it.
    pub open spec fn without_dir(self, dir: Seq<char>) -> Disk {
        Disk {
            dirs: Set::new(|d: Seq<char>| self.dirs.contains(d) && d != dir && !self.holds(dir, d)),
            files: Map::new(
                |f: Seq<char>| self.files.contains_key(f) && !self.holds(dir, f),
                |f: Seq<char>| self.files[f],
            ),
            inside: self.inside,
        }
    }

    /// On a disk on which nothing goes wrong, `request` made in state `self`
    /// may be answered by `reply` and leave the disk in state `after`.
    ///
    /// The only failures are those that the state of the disk calls for: a
    /// file or directory that is not there, or one that is there already.
    /// The directory in which something is to be created is taken to be
    /// there.
    pub open spec fn serves<E>(self, request: RequestView, reply: ReplyView<E>, after: Disk) -> bool {
        match request {
            RequestView::CreateDirAll { path } => {
                &&& reply is Done
                &&& after == Disk { dirs: self.dirs.insert(path), ..self }
            },
            RequestView::ReadFile { path } => {
                &&& after == self
                &&& if self.files.contains_key(path) {
                    reply == ReplyView::<E>::Contents(self.files[path])
                } else {
                    reply matches ReplyView::Failed { kind: FailureKind::NotFound, .. }
                }
            },
            RequestView::CreateNew { path } => if self.files.contains_key(path) {
                &&& reply matches ReplyView::Failed { kind: FailureKind::AlreadyExists, .. }
                &&& after == self
            } else {
                &&& reply is Done
                &&& after == Disk { files: self.files.insert(path, Seq::empty()), ..self }
            },
            RequestView::WriteAll { path, bytes } => {
                &&& reply is Done
                &&& after == Disk { files: self.files.insert(path, bytes), ..self }
            },
            RequestView::Rename { from, to } => if self.files.contains_key(from) {
                &&& reply is Done
                &&& after == Disk {
                    files: self.files.remove(from).insert(to, self.files[from]),
                    ..self
                }
            } else {
                &&& reply matches ReplyView::Failed { kind: FailureKind::NotFound, .. }
                &&& after == self
            },
            RequestView::RemoveDirAll { path } => if self.dirs.contains(path) {
                &&& reply is Done
                &&& after == self.without_dir(path)
            } else {
                &&& reply matches ReplyView::Failed { kind: FailureKind::NotFound, .. }
                &&& after == self
            },
            RequestView::CreateDir { path } => if self.dirs.contains(path) {
                &&& reply matches ReplyView::Failed { kind: FailureKind::AlreadyExists, .. }
                &&& after == self
            } else {
                &&& reply is Done
                &&& after == Disk { dirs: self.dirs.insert(path), ..self }
            },
        }
    }
}

/// One turn of an operation against a disk: the reply to the request that
/// was pending, the disk as the request left it, and where the operation
/// went on the reply.
pub struct Turn<S, R, E> {
    pub reply: ReplyView<E>,
    pub after: Disk,
    pub next: ProgressView<S, R>,
}

} // verus!
