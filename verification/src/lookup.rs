//! Get-or-compute: the value stored under a key, or, where nothing is stored
//! yet, a fresh value from the caller's producer, which is then saved for the
//! next lookup.

use vstd::prelude::*;
use vstd::pervasive::unreached;
use crate::cache::LocalFileCache;
use crate::effect::{FailureKind, Progress, ProgressView, Reply, ReplyView, Request, RequestView};
use crate::path::{adjoined, join};
use crate::save::{save_opening, Save, SaveView};

verus! {

/// A lookup in flight. `entry` is the path of the key's entry file and
/// `producer` the caller's function, not yet called.
pub enum Lookup<T, F> {
    /// Waiting for the cache's directory to be there.
    EnsuringDir { entry: String, producer: F },
    /// Waiting for the content of the entry file.
    Reading { entry: String, producer: F },
    /// Nothing was stored: `value` is fresh from the producer and on its way
    /// to the disk.
    Saving { value: T, save: Save },
}

/// A [`Lookup`] as the contracts see it.
pub enum LookupView<T, F> {
    EnsuringDir { entry: Seq<char>, producer: F },
    Reading { entry: Seq<char>, producer: F },
    Saving { value: T, save: SaveView },
}

impl<T, F> View for Lookup<T, F> {
    type V = LookupView<T, F>;

    open spec fn view(&self) -> LookupView<T, F> {
        match *self {
            Lookup::EnsuringDir { entry, producer } => LookupView::EnsuringDir {
                entry: entry@,
                producer,
            },
            Lookup::Reading { entry, producer } => LookupView::Reading { entry: entry@, producer },
            Lookup::Saving { value, save } => LookupView::Saving { value, save: save@ },
        }
    }
}

/// The request that opens a lookup in the cache rooted at `root`.
pub open spec fn lookup_opening(root: Seq<char>) -> RequestView {
    RequestView::CreateDirAll { path: root }
}

/// The state in which a lookup of `key` in the cache rooted at `root` opens.
pub open spec fn lookup_start<T, F>(root: Seq<char>, key: Seq<char>, producer: F) -> LookupView<
    T,
    F,
> {
    LookupView::EnsuringDir { entry: adjoined(root, key), producer }
}

impl<T, F: FnOnce() -> T> LookupView<T, F> {
    /// The value that a lookup in this state has from its producer.
    pub open spec fn produced(self) -> Option<T> {
        match self {
            LookupView::Saving { value, .. } => Some(value),
            _ => None,
        }
    }

    /// A read that succeeds comes back with the content of the file: while
    /// the lookup waits for it, a reply that reports success and brings
    /// nothing is not one that it can take.
    pub open spec fn accepts<E>(self, reply: ReplyView<E>) -> bool {
        self is Reading ==> !(reply is Done)
    }

    /// The one situation in which the producer is called: the entry file was
    /// looked for and is not there.
    pub open spec fn is_miss<E>(self, reply: ReplyView<E>) -> bool {
        self is Reading && reply matches ReplyView::Failed { kind: FailureKind::NotFound, .. }
    }

    /// The producer that a lookup in this state still holds.
    pub open spec fn held_producer(self) -> Option<F> {
        match self {
            LookupView::EnsuringDir { producer, .. } => Some(producer),
            LookupView::Reading { producer, .. } => Some(producer),
            LookupView::Saving { .. } => None,
        }
    }

    /// The whole protocol: `next` is where a lookup in state `self`, in
    /// `cache`, may go on `reply`.
    ///
    /// - A failure to make the directory ends the lookup with that failure.
    ///   Every other reply says that the directory is there, and the entry
    ///   file is read.
    /// - Content that was read is decoded, and the lookup ends with the
    ///   decoded value.
    /// - A missing entry file is a miss: the producer gives the value. Where
    ///   the encoder declines the value, the lookup ends with it at once;
    ///   otherwise a save of the encoded bytes to the entry file begins.
    ///   Any other failure to read ends the lookup with that failure.
    /// - While the save runs, the lookup follows it step by step. When the
    ///   save ends well the lookup ends with the producer's value, as it was
    ///   computed; when it fails, with that failure.
    pub open spec fn step<En, De, E>(
        self,
        cache: &LocalFileCache<T, En, De>,
        reply: ReplyView<E>,
        next: ProgressView<LookupView<T, F>, Result<T, E>>,
    ) -> bool where En: Fn(&T) -> Option<Vec<u8>>, De: Fn(&[u8]) -> T {
        match self {
            LookupView::EnsuringDir { entry, producer } => match reply {
                ReplyView::Failed { error, .. } => next == ProgressView::<
                    LookupView<T, F>,
                    Result<T, E>,
                >::Finished(Err(error)),
                _ => next == (ProgressView::<LookupView<T, F>, Result<T, E>>::Continue {
                    state: LookupView::Reading { entry, producer },
                    request: RequestView::ReadFile { path: entry },
                }),
            },
            LookupView::Reading { entry, producer } => match reply {
                ReplyView::Contents(bytes) => {
                    &&& next matches ProgressView::Finished(Ok(value))
                    &&& cache.decodes(bytes, value)
                },
                ReplyView::Failed { kind, error } => if kind == FailureKind::NotFound {
                    match next {
                        ProgressView::Finished(Ok(value)) => {
                            &&& call_ensures(producer, (), value)
                            &&& cache.encodes(value, None)
                        },
                        ProgressView::Continue {
                            state: LookupView::Saving { value, save },
                            request,
                        } => {
                            &&& call_ensures(producer, (), value)
                            &&& save matches SaveView::Creating { path, bytes }
                            &&& path == entry
                            &&& cache.encodes(value, Some(bytes))
                            &&& request == save_opening(entry)
                        },
                        _ => false,
                    }
                } else {
                    next == ProgressView::<LookupView<T, F>, Result<T, E>>::Finished(Err(error))
                },
                ReplyView::Done => false,
            },
            LookupView::Saving { value, save } => next == match save.step(reply) {
                ProgressView::Continue { state, request } => ProgressView::<
                    LookupView<T, F>,
                    Result<T, E>,
                >::Continue { state: LookupView::Saving { value, save: state }, request },
                ProgressView::Finished(Ok(_)) => ProgressView::Finished(Ok(value)),
                ProgressView::Finished(Err(error)) => ProgressView::Finished(Err(error)),
            },
        }
    }
}

impl<T, F: FnOnce() -> T> Lookup<T, F> {
    /// Begins a lookup of the entry file `entry` in the cache rooted at
    /// `root`, with `producer` to call if nothing is stored. The first thing
    /// asked is that the cache's directory be there.
    pub fn begin(root: String, entry: String, producer: F) -> (start: (Lookup<T, F>, Request))
        ensures
            start.0@ == (LookupView::<T, F>::EnsuringDir { entry: entry@, producer }),
            start.1@ == lookup_opening(root@),
    {
        (Lookup::EnsuringDir { entry, producer }, Request::CreateDirAll { path: root })
    }

    /// Takes the reply to the request last asked and says what comes next.
    ///
    /// The producer has to be callable only where it is called: on a miss.
    /// On every other reply the lookup goes on without it.
    pub fn advance<En, De, E>(self, cache: &LocalFileCache<T, En, De>, reply: Reply<E>) -> (next:
        Progress<Lookup<T, F>, Result<T, E>>) where
        En: Fn(&T) -> Option<Vec<u8>>,
        De: Fn(&[u8]) -> T,

        requires
            cache.wf(),
            self@.accepts(reply@),
            self@.is_miss(reply@) ==> call_requires(self@.held_producer().unwrap(), ()),
        ensures
            self@.step(cache, reply@, next@),
    {
        match self {
            Lookup::EnsuringDir { entry, producer } => match reply {
                Reply::Failed { kind, error } => Progress::Finished(Err(error)),
                _ => {
                    let path = entry.clone();
                    Progress::Continue {
                        state: Lookup::Reading { entry, producer },
                        request: Request::ReadFile { path },
                    }
                },
            },
            Lookup::Reading { entry, producer } => match reply {
                Reply::Contents(bytes) => Progress::Finished(Ok(cache.decode(bytes.as_slice()))),
                Reply::Failed { kind: FailureKind::NotFound, error } => {
                    let value = producer();
                    match cache.encode(&value) {
                        Some(bytes) => {
                            let (save, request) = Save::begin(entry, bytes);
                            Progress::Continue { state: Lookup::Saving { value, save }, request }
                        },
                        None => Progress::Finished(Ok(value)),
                    }
                },
                Reply::Failed { kind, error } => Progress::Finished(Err(error)),
                Reply::Done => unreached(),
            },
            Lookup::Saving { value, save } => match save.advance(reply) {
                Progress::Continue { state, request } => Progress::Continue {
                    state: Lookup::Saving { value, save: state },
                    request,
                },
                Progress::Finished(Ok(_)) => Progress::Finished(Ok(value)),
                Progress::Finished(Err(error)) => Progress::Finished(Err(error)),
            },
        }
    }
}

impl<T, En, De> LocalFileCache<T, En, De> where
    En: Fn(&T) -> Option<Vec<u8>>,
    De: Fn(&[u8]) -> T,
 {
    /// Begins the lookup of `key`: the value stored under it, or else the
    /// value that `producer` gives. The first thing asked is that the cache's
    /// directory be there; the entry file is `key` adjoined to it.
    pub fn or_insert_with<F: FnOnce() -> T>(&self, key: &str, producer: F) -> (start: (
        Lookup<T, F>,
        Request,
    ))
        ensures
            start.0@ == lookup_start::<T, F>(self.root(), key@, producer),
            start.1@ == lookup_opening(self.root()),
    {
        Lookup::begin(self.dir().to_owned(), join(self.dir(), key), producer)
    }
}

} // verus!
