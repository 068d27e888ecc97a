//! The cache handle: a root directory and the pair of functions that turn a
//! value into bytes and bytes into a value.

use vstd::prelude::*;
use crate::effect::{Request, RequestView};
use crate::flush::{flush_opening, Flush, FlushView};
use crate::path::{adjoined, join, platform_cache_dir};
use crate::save::{save_opening, Save, SaveView};
use vstd::slice::slice_to_vec;

verus! {

/// A cache of values of type `T`, one file per key under one directory.
///
/// `En` turns a value into the bytes of its entry, or declines, in which
/// case the value is not stored. `De` turns the bytes of an entry back into
/// a value.
#[verifier::reject_recursive_types(T)]
pub struct LocalFileCache<T, En, De> {
    dir: String,
    to_u8: En,
    from_u8: De,
    value: core::marker::PhantomData<T>,
}

impl<T, En, De> LocalFileCache<T, En, De> {
    /// The request that discards the cache rooted at `sub_path` below `base`,
    /// or nothing where there is no base directory. The outcome of the
    /// request is the outcome of the invalidation: a cache that was not
    /// there is a failure like any other.
    pub fn invalidate_in(base: Option<String>, sub_path: &str) -> (request: Option<Request>)
        ensures
            request is Some <==> base is Some,
            request matches Some(r) ==> r@ == (RequestView::RemoveDirAll {
                path: adjoined(base.unwrap()@, sub_path@),
            }),
    {
        match base {
            Some(base) => Some(Request::RemoveDirAll { path: join(base.as_str(), sub_path) }),
            None => None,
        }
    }

    /// The request that discards the cache rooted at `sub_path` below the
    /// platform's cache directory, or nothing where the platform has none to
    /// offer. It needs no handle, and so serves to discard what a cache of
    /// any value type has stored there.
    pub fn invalidate(sub_path: &str) -> (request: Option<Request>)
        ensures
            request matches Some(r) ==> exists|base: Seq<char>|
                r@ == (RequestView::RemoveDirAll { path: adjoined(base, sub_path@) }),
    {
        Self::invalidate_in(platform_cache_dir(), sub_path)
    }

    /// Begins saving `bytes` as the entry file at `path`, in the way that is
    /// safe against other writers of the same entry.
    pub fn save_to(path: &str, bytes: &[u8]) -> (start: (Save, Request))
        ensures
            start.0@ == (SaveView::Creating { path: path@, bytes: bytes@ }),
            start.1@ == save_opening(path@),
    {
        Save::begin(path.to_owned(), slice_to_vec(bytes))
    }
}

impl<T, En, De> LocalFileCache<T, En, De> where
    En: Fn(&T) -> Option<Vec<u8>>,
    De: Fn(&[u8]) -> T,
 {
    /// Both functions of the handle can be called on every argument.
    pub closed spec fn wf(&self) -> bool {
        &&& forall|value: &T| call_requires(self.to_u8, (value,))
        &&& forall|bytes: &[u8]| call_requires(self.from_u8, (bytes,))
    }

    /// The directory that holds the entries.
    pub closed spec fn root(&self) -> Seq<char> {
        self.dir@
    }

    /// The function that turns a value into bytes.
    pub closed spec fn encoder(&self) -> En {
        self.to_u8
    }

    /// The function that turns bytes into a value.
    pub closed spec fn decoder(&self) -> De {
        self.from_u8
    }

    /// `bytes` is a possible outcome of encoding `value`: some bytes, or
    /// `None` where the encoder declines.
    pub open spec fn encodes(&self, value: T, bytes: Option<Seq<u8>>) -> bool {
        exists|out: Option<Vec<u8>>|
            call_ensures(self.encoder(), (&value,), out) && bytes == match out {
                Some(b) => Some(b@),
                None => None,
            }
    }

    /// Whatever this handle encodes, `other` decodes to the value it was.
    pub open spec fn read_back_by<En2, De2>(&self, other: &LocalFileCache<T, En2, De2>) -> bool
        where En2: Fn(&T) -> Option<Vec<u8>>, De2: Fn(&[u8]) -> T {
        forall|value: T, bytes: Seq<u8>, found: T|
            #[trigger] self.encodes(value, Some(bytes)) && #[trigger] other.decodes(bytes, found)
                ==> found == value
    }

    /// `value` is a possible outcome of decoding `bytes`.
    pub open spec fn decodes(&self, bytes: Seq<u8>, value: T) -> bool {
        exists|slice: &[u8]| slice@ == bytes && call_ensures(self.decoder(), (slice,), value)
    }

    /// The cache whose entries lie in the directory `dir`. Nothing is read or
    /// written.
    pub fn at(dir: String, to_u8: En, from_u8: De) -> (cache: Self)
        requires
            forall|value: &T| call_requires(to_u8, (value,)),
            forall|bytes: &[u8]| call_requires(from_u8, (bytes,)),
        ensures
            cache.wf(),
            cache.root() == dir@,
            cache.encoder() == to_u8,
            cache.decoder() == from_u8,
    {
        LocalFileCache { dir, to_u8, from_u8, value: core::marker::PhantomData }
    }

    /// The cache rooted at `sub_path` below `base`, or nothing where there is
    /// no base directory. Nothing is read or written.
    pub fn with_base(base: Option<String>, sub_path: &str, to_u8: En, from_u8: De) -> (cache:
        Option<Self>)
        requires
            forall|value: &T| call_requires(to_u8, (value,)),
            forall|bytes: &[u8]| call_requires(from_u8, (bytes,)),
        ensures
            cache is Some <==> base is Some,
            cache matches Some(c) ==> {
                &&& c.wf()
                &&& c.root() == adjoined(base.unwrap()@, sub_path@)
                &&& c.encoder() == to_u8
                &&& c.decoder() == from_u8
            },
    {
        match base {
            Some(base) => Some(Self::at(join(base.as_str(), sub_path), to_u8, from_u8)),
            None => None,
        }
    }

    /// The cache rooted at `sub_path` below the platform's cache directory,
    /// or nothing where the platform has none to offer. Nothing is read or
    /// written.
    pub fn new(sub_path: &str, to_u8: En, from_u8: De) -> (cache: Option<Self>)
        requires
            forall|value: &T| call_requires(to_u8, (value,)),
            forall|bytes: &[u8]| call_requires(from_u8, (bytes,)),
        ensures
            cache matches Some(c) ==> {
                &&& c.wf()
                &&& exists|base: Seq<char>| c.root() == adjoined(base, sub_path@)
                &&& c.encoder() == to_u8
                &&& c.decoder() == from_u8
            },
    {
        Self::with_base(platform_cache_dir(), sub_path, to_u8, from_u8)
    }

    /// The directory that holds the entries.
    pub fn dir(&self) -> (dir: &str)
        ensures
            dir@ == self.root(),
    {
        self.dir.as_str()
    }

    /// Turns `value` into the bytes of its entry, unless the encoder declines.
    pub fn encode(&self, value: &T) -> (bytes: Option<Vec<u8>>)
        requires
            self.wf(),
        ensures
            call_ensures(self.encoder(), (value,), bytes),
            self.encodes(*value, match bytes { Some(b) => Some(b@), None => None }),
    {
        let bytes = (self.to_u8)(value);
        assert(call_ensures(self.encoder(), (&*value,), bytes));
        bytes
    }

    /// Turns the bytes of an entry back into a value.
    pub fn decode(&self, bytes: &[u8]) -> (value: T)
        requires
            self.wf(),
        ensures
            call_ensures(self.decoder(), (bytes,), value),
            self.decodes(bytes@, value),
    {
        (self.from_u8)(bytes)
    }

    /// Begins emptying this cache.
    pub fn flush(&self) -> (start: (Flush, Request))
        ensures
            start.0@ == (FlushView::Removing { dir: self.root() }),
            start.1@ == flush_opening(self.root()),
    {
        Flush::begin(self.dir.clone())
    }
}

} // verus!
