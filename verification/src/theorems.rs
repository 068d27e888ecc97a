//! What the operations achieve on a disk on which nothing goes wrong.
//!
//! Each theorem follows an operation turn by turn: the disk answers the
//! pending request as [`Disk::serves`] allows, and the operation goes where
//! its protocol says. A turn after the operation has finished is not asked
//! for, and nothing is assumed of it.

use vstd::prelude::*;
use crate::cache::LocalFileCache;
use crate::effect::{ProgressView, RequestView};
use crate::flush::{flush_opening, FlushView};
use crate::lookup::{lookup_opening, lookup_start, LookupView};
use crate::model::{Disk, Turn};
use crate::path::{adjoined, lemma_temp_differs, temp_of};
use crate::save::{save_opening, SaveView};

verus! {

impl SaveView {
    /// `turn` is a turn of a save in state `self` that waits on `request`,
    /// against `disk`.
    pub open spec fn turn<E>(
        self,
        request: RequestView,
        disk: Disk,
        turn: Turn<SaveView, Result<(), E>, E>,
    ) -> bool {
        &&& disk.serves(request, turn.reply, turn.after)
        &&& turn.next == self.step(turn.reply)
    }
}

impl FlushView {
    /// `turn` is a turn of a flush in state `self` that waits on `request`,
    /// against `disk`.
    pub open spec fn turn<E>(
        self,
        request: RequestView,
        disk: Disk,
        turn: Turn<FlushView, Result<(), E>, E>,
    ) -> bool {
        &&& disk.serves(request, turn.reply, turn.after)
        &&& turn.next == self.step(turn.reply)
    }
}

impl<T, F: FnOnce() -> T> LookupView<T, F> {
    /// `turn` is a turn of a lookup in `cache`, in state `self`, that waits
    /// on `request`, against `disk`.
    pub open spec fn turn<En, De, E>(
        self,
        cache: &LocalFileCache<T, En, De>,
        request: RequestView,
        disk: Disk,
        turn: Turn<LookupView<T, F>, Result<T, E>, E>,
    ) -> bool where En: Fn(&T) -> Option<Vec<u8>>, De: Fn(&[u8]) -> T {
        &&& disk.serves(request, turn.reply, turn.after)
        &&& self.step(cache, turn.reply, turn.next)
    }
}

/// A save that finds the temporary sibling of its entry in place succeeds at
/// once: it asks for nothing more, and the disk, the sibling and the entry
/// file included, is as it was.
pub proof fn save_yields_to_a_writer_at_work<E>(
    path: Seq<char>,
    bytes: Seq<u8>,
    disk: Disk,
    first: Turn<SaveView, Result<(), E>, E>,
)
    requires
        disk.files.contains_key(temp_of(path)),
        (SaveView::Creating { path, bytes }).turn(save_opening(path), disk, first),
    ensures
        first.next == ProgressView::<SaveView, Result<(), E>>::Finished(Ok(())),
        first.after == disk,
{
}

/// A save that finds no temporary sibling runs through its three requests
/// and succeeds. The entry file then holds exactly the bytes, no sibling is
/// left behind, and every other file is as it was.
pub proof fn save_stores_the_bytes<E>(
    path: Seq<char>,
    bytes: Seq<u8>,
    disk: Disk,
    first: Turn<SaveView, Result<(), E>, E>,
    second: Turn<SaveView, Result<(), E>, E>,
    third: Turn<SaveView, Result<(), E>, E>,
)
    requires
        !disk.files.contains_key(temp_of(path)),
        (SaveView::Creating { path, bytes }).turn(save_opening(path), disk, first),
        first.next matches ProgressView::Continue { state, request } ==> state.turn(
            request,
            first.after,
            second,
        ),
        second.next matches ProgressView::Continue { state, request } ==> state.turn(
            request,
            second.after,
            third,
        ),
    ensures
        first.next is Continue,
        second.next is Continue,
        third.next == ProgressView::<SaveView, Result<(), E>>::Finished(Ok(())),
        third.after.files == disk.files.insert(path, bytes),
        third.after.dirs == disk.dirs,
{
    lemma_temp_differs(path);
    assert(third.after.files =~= disk.files.insert(path, bytes));
}

/// A flush of a cache whose directory is not there succeeds at once: it asks
/// for nothing more, and the disk is as it was.
pub proof fn flush_of_a_missing_dir_does_nothing<E>(
    dir: Seq<char>,
    disk: Disk,
    first: Turn<FlushView, Result<(), E>, E>,
)
    requires
        !disk.dirs.contains(dir),
        (FlushView::Removing { dir }).turn(flush_opening(dir), disk, first),
    ensures
        first.next == ProgressView::<FlushView, Result<(), E>>::Finished(Ok(())),
        first.after == disk,
{
}

/// A flush of a cache whose directory is there succeeds after two requests
/// and leaves the directory in place and empty. Outside the directory every
/// file is as it was.
pub proof fn flush_leaves_an_empty_dir<E>(
    dir: Seq<char>,
    disk: Disk,
    first: Turn<FlushView, Result<(), E>, E>,
    second: Turn<FlushView, Result<(), E>, E>,
)
    requires
        disk.dirs.contains(dir),
        (FlushView::Removing { dir }).turn(flush_opening(dir), disk, first),
        first.next matches ProgressView::Continue { state, request } ==> state.turn(
            request,
            first.after,
            second,
        ),
    ensures
        first.next is Continue,
        second.next == ProgressView::<FlushView, Result<(), E>>::Finished(Ok(())),
        second.after.has_empty_dir(dir),
        forall|path: Seq<char>|
            !disk.holds(dir, path) ==> (second.after.files.contains_key(path)
                <==> disk.files.contains_key(path)),
        forall|path: Seq<char>|
            second.after.files.contains_key(path) ==> second.after.files[path]
                == disk.files[path],
{
}

/// A lookup of a key whose entry file is there ends after two requests with
/// the value that the file's content decodes to. The reply to the second is
/// no miss, so the producer is not called, and nothing is written: every
/// file is as it was.
pub proof fn lookup_returns_what_is_stored<T, F, En, De, E>(
    cache: &LocalFileCache<T, En, De>,
    key: Seq<char>,
    producer: F,
    disk: Disk,
    first: Turn<LookupView<T, F>, Result<T, E>, E>,
    second: Turn<LookupView<T, F>, Result<T, E>, E>,
) where F: FnOnce() -> T, En: Fn(&T) -> Option<Vec<u8>>, De: Fn(&[u8]) -> T
    requires
        disk.files.contains_key(adjoined(cache.root(), key)),
        lookup_start::<T, F>(cache.root(), key, producer).turn(
            cache,
            lookup_opening(cache.root()),
            disk,
            first,
        ),
        first.next matches ProgressView::Continue { state, request } ==> state.turn(
            cache,
            request,
            first.after,
            second,
        ),
    ensures
        first.next matches ProgressView::Continue { state, .. } && !state.is_miss(second.reply),
        second.next matches ProgressView::Finished(Ok(value)) && cache.decodes(
            disk.files[adjoined(cache.root(), key)],
            value,
        ),
        second.after.files == disk.files,
{
}

/// A lookup of a key whose entry file is not there calls the producer: the
/// reply to its second request is a miss, and the value that it goes on
/// with, to return it at once or to save it first, is the producer's.
pub proof fn lookup_of_a_missing_entry_produces<T, F, En, De, E>(
    cache: &LocalFileCache<T, En, De>,
    key: Seq<char>,
    producer: F,
    disk: Disk,
    first: Turn<LookupView<T, F>, Result<T, E>, E>,
    second: Turn<LookupView<T, F>, Result<T, E>, E>,
) where F: FnOnce() -> T, En: Fn(&T) -> Option<Vec<u8>>, De: Fn(&[u8]) -> T
    requires
        !disk.files.contains_key(adjoined(cache.root(), key)),
        lookup_start::<T, F>(cache.root(), key, producer).turn(
            cache,
            lookup_opening(cache.root()),
            disk,
            first,
        ),
        first.next matches ProgressView::Continue { state, request } ==> state.turn(
            cache,
            request,
            first.after,
            second,
        ),
    ensures
        first.next matches ProgressView::Continue { state, .. } && state.is_miss(second.reply),
        match second.next {
            ProgressView::Finished(Ok(value)) => call_ensures(producer, (), value),
            ProgressView::Continue { state, .. } => state.produced() matches Some(value)
                && call_ensures(producer, (), value),
            _ => false,
        },
        second.after.files == disk.files,
{
}

/// A lookup that finds neither the entry file nor its temporary sibling, and
/// whose value the encoder does not decline, ends after five requests with
/// the producer's value. The entry file then holds the bytes that the value
/// was encoded to, no sibling is left behind, and every other file is as it
/// was.
pub proof fn lookup_stores_what_it_produced<T, F, En, De, E>(
    cache: &LocalFileCache<T, En, De>,
    key: Seq<char>,
    producer: F,
    disk: Disk,
    first: Turn<LookupView<T, F>, Result<T, E>, E>,
    second: Turn<LookupView<T, F>, Result<T, E>, E>,
    third: Turn<LookupView<T, F>, Result<T, E>, E>,
    fourth: Turn<LookupView<T, F>, Result<T, E>, E>,
    fifth: Turn<LookupView<T, F>, Result<T, E>, E>,
) where F: FnOnce() -> T, En: Fn(&T) -> Option<Vec<u8>>, De: Fn(&[u8]) -> T
    requires
        !disk.files.contains_key(adjoined(cache.root(), key)),
        !disk.files.contains_key(temp_of(adjoined(cache.root(), key))),
        lookup_start::<T, F>(cache.root(), key, producer).turn(
            cache,
            lookup_opening(cache.root()),
            disk,
            first,
        ),
        first.next matches ProgressView::Continue { state, request } ==> state.turn(
            cache,
            request,
            first.after,
            second,
        ),
        second.next is Continue,
        second.next matches ProgressView::Continue { state, request } ==> state.turn(
            cache,
            request,
            second.after,
            third,
        ),
        third.next matches ProgressView::Continue { state, request } ==> state.turn(
            cache,
            request,
            third.after,
            fourth,
        ),
        fourth.next matches ProgressView::Continue { state, request } ==> state.turn(
            cache,
            request,
            fourth.after,
            fifth,
        ),
    ensures
        first.next is Continue,
        third.next is Continue,
        fourth.next is Continue,
        fifth.next matches ProgressView::Finished(Ok(value)) && call_ensures(producer, (), value)
            && exists|bytes: Seq<u8>| #[trigger]
            cache.encodes(value, Some(bytes)) && fifth.after.files == disk.files.insert(
                adjoined(cache.root(), key),
                bytes,
            ),
{
    let entry = adjoined(cache.root(), key);
    lemma_temp_differs(entry);
    match second.next {
        ProgressView::Continue {
            state: LookupView::Saving { value, save: SaveView::Creating { path, bytes } },
            ..
        } => {
            // From here on the lookup follows a save of `bytes` to the entry.
            let creating = SaveView::Creating { path: entry, bytes };
            let create = Turn { reply: third.reply, after: third.after, next: creating.step(third.reply) };
            let writing = SaveView::Writing { path: entry };
            let write = Turn { reply: fourth.reply, after: fourth.after, next: writing.step(fourth.reply) };
            let renaming = SaveView::Renaming { path: entry };
            let rename = Turn { reply: fifth.reply, after: fifth.after, next: renaming.step(fifth.reply) };
            save_stores_the_bytes(entry, bytes, second.after, create, write, rename);
            assert(cache.encodes(value, Some(bytes)));
        },
        _ => {},
    }
}

/// What one lookup stored, the next one finds, through whichever handle on
/// the same directory it is made: after a lookup that missed and saved its
/// value, a lookup of the same key is no miss, calls no producer, and ends
/// with what the saved bytes decode to. Where the second handle decodes
/// what the first encodes to the value it was, that is the very value that
/// the first lookup produced.
pub proof fn a_stored_value_is_found_again<T, F, En, De, G, En2, De2, E>(
    cache: &LocalFileCache<T, En, De>,
    key: Seq<char>,
    producer: F,
    disk: Disk,
    first: Turn<LookupView<T, F>, Result<T, E>, E>,
    second: Turn<LookupView<T, F>, Result<T, E>, E>,
    third: Turn<LookupView<T, F>, Result<T, E>, E>,
    fourth: Turn<LookupView<T, F>, Result<T, E>, E>,
    fifth: Turn<LookupView<T, F>, Result<T, E>, E>,
    other: &LocalFileCache<T, En2, De2>,
    idle: G,
    sixth: Turn<LookupView<T, G>, Result<T, E>, E>,
    seventh: Turn<LookupView<T, G>, Result<T, E>, E>,
) where
    F: FnOnce() -> T,
    En: Fn(&T) -> Option<Vec<u8>>,
    De: Fn(&[u8]) -> T,
    G: FnOnce() -> T,
    En2: Fn(&T) -> Option<Vec<u8>>,
    De2: Fn(&[u8]) -> T,

    requires
        !disk.files.contains_key(adjoined(cache.root(), key)),
        !disk.files.contains_key(temp_of(adjoined(cache.root(), key))),
        lookup_start::<T, F>(cache.root(), key, producer).turn(
            cache,
            lookup_opening(cache.root()),
            disk,
            first,
        ),
        first.next matches ProgressView::Continue { state, request } ==> state.turn(
            cache,
            request,
            first.after,
            second,
        ),
        second.next is Continue,
        second.next matches ProgressView::Continue { state, request } ==> state.turn(
            cache,
            request,
            second.after,
            third,
        ),
        third.next matches ProgressView::Continue { state, request } ==> state.turn(
            cache,
            request,
            third.after,
            fourth,
        ),
        fourth.next matches ProgressView::Continue { state, request } ==> state.turn(
            cache,
            request,
            fourth.after,
            fifth,
        ),
        other.root() == cache.root(),
        lookup_start::<T, G>(other.root(), key, idle).turn(
            other,
            lookup_opening(other.root()),
            fifth.after,
            sixth,
        ),
        sixth.next matches ProgressView::Continue { state, request } ==> state.turn(
            other,
            request,
            sixth.after,
            seventh,
        ),
    ensures
        fifth.next matches ProgressView::Finished(Ok(value)) && call_ensures(producer, (), value)
            && (seventh.next matches ProgressView::Finished(Ok(found)) && exists|bytes: Seq<u8>| #[trigger]
                cache.encodes(value, Some(bytes)) && other.decodes(bytes, found)),
        cache.read_back_by(other) ==> (fifth.next matches ProgressView::Finished(Ok(value))
            && seventh.next == ProgressView::<LookupView<T, G>, Result<T, E>>::Finished(
            Ok(value),
        )),
        sixth.next matches ProgressView::Continue { state, .. } && !state.is_miss(seventh.reply),
        seventh.after.files == fifth.after.files,
{
    lookup_stores_what_it_produced(cache, key, producer, disk, first, second, third, fourth, fifth);
    lookup_returns_what_is_stored(other, key, idle, fifth.after, sixth, seventh);
}

/// A value that the encoder declines is returned and not stored, so the key
/// stays a miss: the lookup ends after two requests with the producer's
/// value and leaves every file as it was, and a later lookup of the same
/// key, through whichever handle on the same directory, misses again and
/// goes on with the value of its own producer.
pub proof fn a_declined_value_is_produced_again<T, F, En, De, G, En2, De2, E>(
    cache: &LocalFileCache<T, En, De>,
    key: Seq<char>,
    producer: F,
    disk: Disk,
    first: Turn<LookupView<T, F>, Result<T, E>, E>,
    second: Turn<LookupView<T, F>, Result<T, E>, E>,
    other: &LocalFileCache<T, En2, De2>,
    later: G,
    third: Turn<LookupView<T, G>, Result<T, E>, E>,
    fourth: Turn<LookupView<T, G>, Result<T, E>, E>,
) where
    F: FnOnce() -> T,
    En: Fn(&T) -> Option<Vec<u8>>,
    De: Fn(&[u8]) -> T,
    G: FnOnce() -> T,
    En2: Fn(&T) -> Option<Vec<u8>>,
    De2: Fn(&[u8]) -> T,

    requires
        !disk.files.contains_key(adjoined(cache.root(), key)),
        lookup_start::<T, F>(cache.root(), key, producer).turn(
            cache,
            lookup_opening(cache.root()),
            disk,
            first,
        ),
        first.next matches ProgressView::Continue { state, request } ==> state.turn(
            cache,
            request,
            first.after,
            second,
        ),
        second.next is Finished,
        other.root() == cache.root(),
        lookup_start::<T, G>(other.root(), key, later).turn(
            other,
            lookup_opening(other.root()),
            second.after,
            third,
        ),
        third.next matches ProgressView::Continue { state, request } ==> state.turn(
            other,
            request,
            third.after,
            fourth,
        ),
    ensures
        second.next matches ProgressView::Finished(Ok(value)) && call_ensures(producer, (), value)
            && cache.encodes(value, None),
        second.after.files == disk.files,
        third.next matches ProgressView::Continue { state, .. } && state.is_miss(fourth.reply),
        match fourth.next {
            ProgressView::Finished(Ok(value)) => call_ensures(later, (), value),
            ProgressView::Continue { state, .. } => state.produced() matches Some(value)
                && call_ensures(later, (), value),
            _ => false,
        },
{
    lookup_of_a_missing_entry_produces(cache, key, producer, disk, first, second);
    lookup_of_a_missing_entry_produces(other, key, later, second.after, third, fourth);
}

/// A flush discards what the cache has stored: after it, the lookup of a
/// key whose entry file lies inside the cache's directory is a miss, and goes
/// on with the value of its producer.
pub proof fn a_flushed_cache_misses<T, F, En, De, E>(
    cache: &LocalFileCache<T, En, De>,
    disk: Disk,
    first: Turn<FlushView, Result<(), E>, E>,
    second: Turn<FlushView, Result<(), E>, E>,
    key: Seq<char>,
    producer: F,
    third: Turn<LookupView<T, F>, Result<T, E>, E>,
    fourth: Turn<LookupView<T, F>, Result<T, E>, E>,
) where F: FnOnce() -> T, En: Fn(&T) -> Option<Vec<u8>>, De: Fn(&[u8]) -> T
    requires
        disk.dirs.contains(cache.root()),
        disk.holds(cache.root(), adjoined(cache.root(), key)),
        (FlushView::Removing { dir: cache.root() }).turn(flush_opening(cache.root()), disk, first),
        first.next matches ProgressView::Continue { state, request } ==> state.turn(
            request,
            first.after,
            second,
        ),
        lookup_start::<T, F>(cache.root(), key, producer).turn(
            cache,
            lookup_opening(cache.root()),
            second.after,
            third,
        ),
        third.next matches ProgressView::Continue { state, request } ==> state.turn(
            cache,
            request,
            third.after,
            fourth,
        ),
    ensures
        second.next == ProgressView::<FlushView, Result<(), E>>::Finished(Ok(())),
        third.next matches ProgressView::Continue { state, .. } && state.is_miss(fourth.reply),
        match fourth.next {
            ProgressView::Finished(Ok(value)) => call_ensures(producer, (), value),
            ProgressView::Continue { state, .. } => state.produced() matches Some(value)
                && call_ensures(producer, (), value),
            _ => false,
        },
{
    flush_leaves_an_empty_dir(cache.root(), disk, first, second);
    lookup_of_a_missing_entry_produces(cache, key, producer, second.after, third, fourth);
}

} // verus!
