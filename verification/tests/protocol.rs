//! The operations run to their end against a disk held in memory: every
//! request is performed on it and the reply handed back.

use local_file_cache::cache::LocalFileCache;
use local_file_cache::effect::{FailureKind, Progress, Reply, Request};
use local_file_cache::flush::Flush;
use local_file_cache::lookup::Lookup;
use local_file_cache::save::Save;
use std::collections::{BTreeMap, BTreeSet};

#[derive(Debug, PartialEq, Eq, Clone)]
enum Fault {
    NotFound(String),
    AlreadyExists(String),
    Denied(String),
}

/// Directories and files by path, the requests performed so far, and the
/// paths on which every action is made to fail.
struct Disk {
    dirs: BTreeSet<String>,
    files: BTreeMap<String, Vec<u8>>,
    log: Vec<String>,
    denied: BTreeSet<String>,
}

fn not_found(path: &str) -> Reply<Fault> {
    Reply::Failed { kind: FailureKind::NotFound, error: Fault::NotFound(path.to_owned()) }
}

fn already_exists(path: &str) -> Reply<Fault> {
    Reply::Failed { kind: FailureKind::AlreadyExists, error: Fault::AlreadyExists(path.to_owned()) }
}

impl Disk {
    fn new() -> Disk {
        Disk {
            dirs: BTreeSet::new(),
            files: BTreeMap::new(),
            log: Vec::new(),
            denied: BTreeSet::new(),
        }
    }

    fn note(&mut self, action: &str, path: &str) -> Option<Reply<Fault>> {
        self.log.push(format!("{} {}", action, path));
        if self.denied.contains(path) {
            Some(Reply::Failed { kind: FailureKind::Other, error: Fault::Denied(path.to_owned()) })
        } else {
            None
        }
    }

    fn perform(&mut self, request: &Request) -> Reply<Fault> {
        match request {
            Request::CreateDirAll { path } => {
                if let Some(refusal) = self.note("create_dir_all", path) {
                    return refusal;
                }
                self.dirs.insert(path.clone());
                Reply::Done
            }
            Request::ReadFile { path } => {
                if let Some(refusal) = self.note("read_file", path) {
                    return refusal;
                }
                match self.files.get(path) {
                    Some(bytes) => Reply::Contents(bytes.clone()),
                    None => not_found(path),
                }
            }
            Request::CreateNew { path } => {
                if let Some(refusal) = self.note("create_new", path) {
                    return refusal;
                }
                if self.files.contains_key(path) {
                    return already_exists(path);
                }
                self.files.insert(path.clone(), Vec::new());
                Reply::Done
            }
            Request::WriteAll { path, bytes } => {
                if let Some(refusal) = self.note("write_all", path) {
                    return refusal;
                }
                self.files.insert(path.clone(), bytes.clone());
                Reply::Done
            }
            Request::Rename { from, to } => {
                if let Some(refusal) = self.note("rename", to) {
                    return refusal;
                }
                match self.files.remove(from) {
                    Some(bytes) => {
                        self.files.insert(to.clone(), bytes);
                        Reply::Done
                    }
                    None => not_found(from),
                }
            }
            Request::RemoveDirAll { path } => {
                if let Some(refusal) = self.note("remove_dir_all", path) {
                    return refusal;
                }
                if !self.dirs.remove(path) {
                    return not_found(path);
                }
                let below = format!("{}/", path);
                self.files.retain(|file, _| !file.starts_with(&below));
                self.dirs.retain(|dir| !dir.starts_with(&below));
                Reply::Done
            }
            Request::CreateDir { path } => {
                if let Some(refusal) = self.note("create_dir", path) {
                    return refusal;
                }
                if !self.dirs.insert(path.clone()) {
                    return already_exists(path);
                }
                Reply::Done
            }
        }
    }

    fn save(&mut self, start: (Save, Request)) -> Result<(), Fault> {
        let (mut state, mut request) = start;
        loop {
            let reply = self.perform(&request);
            match state.advance(reply) {
                Progress::Continue { state: s, request: r } => {
                    state = s;
                    request = r;
                }
                Progress::Finished(result) => return result,
            }
        }
    }

    fn flush(&mut self, start: (Flush, Request)) -> Result<(), Fault> {
        let (mut state, mut request) = start;
        loop {
            let reply = self.perform(&request);
            match state.advance(reply) {
                Progress::Continue { state: s, request: r } => {
                    state = s;
                    request = r;
                }
                Progress::Finished(result) => return result,
            }
        }
    }

    fn lookup<T, En, De, F>(
        &mut self,
        cache: &LocalFileCache<T, En, De>,
        start: (Lookup<T, F>, Request),
    ) -> Result<T, Fault>
    where
        En: Fn(&T) -> Option<Vec<u8>>,
        De: Fn(&[u8]) -> T,
        F: FnOnce() -> T,
    {
        let (mut state, mut request) = start;
        loop {
            let reply = self.perform(&request);
            match state.advance(cache, reply) {
                Progress::Continue { state: s, request: r } => {
                    state = s;
                    request = r;
                }
                Progress::Finished(result) => return result,
            }
        }
    }

    fn read_all_bytes(&self, path: &str) -> Vec<u8> {
        self.files.get(path).unwrap().clone()
    }
}

fn to_byte(text: &String) -> Option<Vec<u8>> {
    Some(vec![text.parse::<u8>().unwrap()])
}

fn from_byte(data: &[u8]) -> String {
    format!("{}", data[0])
}

fn only_short(text: &String) -> Option<Vec<u8>> {
    if text.len() <= 3 {
        Some(text.as_bytes().to_vec())
    } else {
        None
    }
}

fn from_text(data: &[u8]) -> String {
    String::from_utf8(data.to_vec()).unwrap()
}

type Bytes = fn(&String) -> Option<Vec<u8>>;
type Text = fn(&[u8]) -> String;

fn byte_cache(dir: &str) -> LocalFileCache<String, Bytes, Text> {
    LocalFileCache::at(dir.to_owned(), to_byte, from_byte)
}

fn text_cache(dir: &str) -> LocalFileCache<String, Bytes, Text> {
    LocalFileCache::at(dir.to_owned(), only_short, from_text)
}

fn denied(path: &str) -> Reply<Fault> {
    Reply::Failed { kind: FailureKind::Other, error: Fault::Denied(path.to_owned()) }
}

#[test]
fn can_cache() {
    let rand: u128 = rand::random();
    let path = format!("local_file_cache_test-{}", rand);
    let mut disk = Disk::new();

    let cache = LocalFileCache::<String, _, _>::new(&path, to_byte, from_byte).unwrap();
    disk.flush(cache.flush()).unwrap();
    let mut called = false;
    let ret = disk
        .lookup(
            &cache,
            cache.or_insert_with("data0", || {
                called = true;
                "123".to_owned()
            }),
        )
        .unwrap();

    assert_eq!(ret, "123".to_owned());
    assert!(called);

    let ret = disk.lookup(&cache, cache.or_insert_with("data0", || "234".to_owned())).unwrap();

    assert_eq!(ret, "123".to_owned());

    let request = LocalFileCache::<(), (), ()>::invalidate(&path).unwrap();
    disk.perform(&request).into_result().unwrap();
    assert!(!disk.dirs.contains(cache.dir()));
    assert!(disk.files.is_empty());
}

#[test]
fn save_to_skips_if_same_name_exists() {
    let path = "/tmp/dir/test";
    let save_path = "/tmp/dir/test.save";
    let mut disk = Disk::new();

    disk.save(LocalFileCache::<(), (), ()>::save_to(path, &[12u8])).unwrap();
    assert_eq!(disk.read_all_bytes(path), vec![12u8]);

    disk.save(LocalFileCache::<(), (), ()>::save_to(path, &[23u8])).unwrap();
    assert_eq!(disk.read_all_bytes(path), vec![23u8]);

    disk.save(LocalFileCache::<(), (), ()>::save_to(save_path, &[123u8])).unwrap();
    disk.save(LocalFileCache::<(), (), ()>::save_to(path, &[34u8])).unwrap();
    assert_eq!(disk.read_all_bytes(path), vec![23u8]);
}

#[test]
fn flush_of_a_missing_dir_succeeds_and_creates_nothing() {
    let cache = byte_cache("/var/cache/app");
    let mut disk = Disk::new();
    disk.files.insert("/elsewhere/file".to_owned(), vec![1]);

    assert_eq!(disk.flush(cache.flush()), Ok(()));

    assert_eq!(disk.log, vec!["remove_dir_all /var/cache/app".to_owned()]);
    assert!(disk.dirs.is_empty());
    assert_eq!(disk.files.len(), 1);
}

#[test]
fn flush_of_a_populated_dir_leaves_it_empty() {
    let cache = byte_cache("/var/cache/app");
    let mut disk = Disk::new();
    disk.dirs.insert("/var/cache/app".to_owned());
    disk.dirs.insert("/var/cache/app/deep".to_owned());
    disk.files.insert("/var/cache/app/data0".to_owned(), vec![1]);
    disk.files.insert("/var/cache/app/deep/data1".to_owned(), vec![2]);
    disk.files.insert("/var/cache/apple".to_owned(), vec![3]);

    assert_eq!(disk.flush(cache.flush()), Ok(()));

    assert_eq!(
        disk.log,
        vec!["remove_dir_all /var/cache/app".to_owned(), "create_dir /var/cache/app".to_owned()]
    );
    assert!(disk.dirs.contains("/var/cache/app"));
    assert_eq!(disk.dirs.len(), 1);
    assert_eq!(disk.files.len(), 1);
    assert_eq!(disk.read_all_bytes("/var/cache/apple"), vec![3]);

    assert_eq!(disk.flush(cache.flush()), Ok(()));
    assert!(disk.dirs.contains("/var/cache/app"));
}

#[test]
fn flush_hands_on_a_failed_deletion() {
    let cache = byte_cache("/var/cache/app");
    let (state, request) = cache.flush();
    assert_eq!(request, Request::RemoveDirAll { path: "/var/cache/app".to_owned() });
    match state.advance(denied("/var/cache/app")) {
        Progress::Finished(result) => {
            assert_eq!(result, Err(Fault::Denied("/var/cache/app".to_owned())))
        }
        Progress::Continue { .. } => panic!("a flush went on after a failure"),
    }
}

#[test]
fn flush_hands_on_a_failed_creation() {
    let cache = byte_cache("/var/cache/app");
    let (state, _) = cache.flush();
    let state = match state.advance(Reply::<Fault>::Done) {
        Progress::Continue { state, request } => {
            assert_eq!(state, Flush::Recreating { dir: "/var/cache/app".to_owned() });
            assert_eq!(request, Request::CreateDir { path: "/var/cache/app".to_owned() });
            state
        }
        Progress::Finished(_) => panic!("a flush ended before the directory was created"),
    };
    // Once the directory is gone, its absence is a failure like any other.
    match state.advance(not_found("/var/cache/app")) {
        Progress::Finished(result) => {
            assert_eq!(result, Err(Fault::NotFound("/var/cache/app".to_owned())))
        }
        Progress::Continue { .. } => panic!("a flush went on after a failure"),
    }
}

#[test]
fn first_write_wins() {
    let cache = byte_cache("/var/cache/app");
    let mut disk = Disk::new();

    let first = disk.lookup(&cache, cache.or_insert_with("data0", || "123".to_owned()));
    assert_eq!(first, Ok("123".to_owned()));
    assert_eq!(disk.read_all_bytes("/var/cache/app/data0"), vec![123u8]);

    disk.log.clear();
    let mut called = false;
    let second = disk.lookup(
        &cache,
        cache.or_insert_with("data0", || {
            called = true;
            "234".to_owned()
        }),
    );
    assert_eq!(second, Ok("123".to_owned()));
    assert!(!called);
    assert_eq!(
        disk.log,
        vec![
            "create_dir_all /var/cache/app".to_owned(),
            "read_file /var/cache/app/data0".to_owned()
        ]
    );
    assert_eq!(disk.read_all_bytes("/var/cache/app/data0"), vec![123u8]);
}

#[test]
fn a_string_round_trips_through_one_byte() {
    let cache = byte_cache("/var/cache/app");
    let bytes = cache.encode(&"123".to_owned()).unwrap();
    assert_eq!(bytes, vec![123u8]);
    assert_eq!(cache.decode(&bytes), "123".to_owned());
}

#[test]
fn a_save_leaves_what_another_writer_has_in_hand() {
    let mut disk = Disk::new();
    disk.files.insert("/tmp/dir/test".to_owned(), vec![23u8]);
    disk.files.insert("/tmp/dir/test.save".to_owned(), vec![123u8]);

    let saved = disk.save(LocalFileCache::<(), (), ()>::save_to("/tmp/dir/test", &[34u8]));

    assert_eq!(saved, Ok(()));
    assert_eq!(disk.log, vec!["create_new /tmp/dir/test.save".to_owned()]);
    assert_eq!(disk.read_all_bytes("/tmp/dir/test"), vec![23u8]);
    assert_eq!(disk.read_all_bytes("/tmp/dir/test.save"), vec![123u8]);
}

#[test]
fn a_miss_is_a_hit_for_the_next_handle() {
    let mut disk = Disk::new();
    let cache = byte_cache("/var/cache/app");
    let mut called = false;
    let first = disk.lookup(
        &cache,
        cache.or_insert_with("data0", || {
            called = true;
            "77".to_owned()
        }),
    );
    assert_eq!(first, Ok("77".to_owned()));
    assert!(called);
    assert_eq!(
        disk.log,
        vec![
            "create_dir_all /var/cache/app".to_owned(),
            "read_file /var/cache/app/data0".to_owned(),
            "create_new /var/cache/app/data0.save".to_owned(),
            "write_all /var/cache/app/data0.save".to_owned(),
            "rename /var/cache/app/data0".to_owned(),
        ]
    );
    assert!(!disk.files.contains_key("/var/cache/app/data0.save"));

    let fresh = byte_cache("/var/cache/app");
    let mut called_again = false;
    let second = disk.lookup(
        &fresh,
        fresh.or_insert_with("data0", || {
            called_again = true;
            "78".to_owned()
        }),
    );
    assert_eq!(second, Ok("77".to_owned()));
    assert!(!called_again);
}

#[test]
fn a_declined_value_is_not_stored() {
    let mut disk = Disk::new();
    let cache = text_cache("/var/cache/app");

    let first = disk.lookup(&cache, cache.or_insert_with("k", || "too long".to_owned()));
    assert_eq!(first, Ok("too long".to_owned()));
    assert!(disk.files.is_empty());
    assert_eq!(
        disk.log,
        vec!["create_dir_all /var/cache/app".to_owned(), "read_file /var/cache/app/k".to_owned()]
    );

    let mut called = false;
    let second = disk.lookup(
        &cache,
        cache.or_insert_with("k", || {
            called = true;
            "abc".to_owned()
        }),
    );
    assert_eq!(second, Ok("abc".to_owned()));
    assert!(called);
    assert_eq!(disk.read_all_bytes("/var/cache/app/k"), b"abc".to_vec());
}

#[test]
fn a_miss_returns_the_value_as_it_was_computed() {
    // This decoder does not undo the encoder: what comes back on a miss is
    // the producer's value, on a hit what the stored byte decodes to.
    let mut disk = Disk::new();
    let cache: LocalFileCache<String, Bytes, Text> =
        LocalFileCache::at("/c".to_owned(), |_| Some(vec![7u8]), from_byte);

    let first = disk.lookup(&cache, cache.or_insert_with("k", || "fresh".to_owned()));
    assert_eq!(first, Ok("fresh".to_owned()));
    let second = disk.lookup(&cache, cache.or_insert_with("k", || "fresh".to_owned()));
    assert_eq!(second, Ok("7".to_owned()));
}

#[test]
fn a_lookup_beside_a_writer_at_work_returns_its_own_value() {
    let mut disk = Disk::new();
    disk.files.insert("/var/cache/app/data0.save".to_owned(), vec![1u8]);
    let cache = byte_cache("/var/cache/app");

    let got = disk.lookup(&cache, cache.or_insert_with("data0", || "99".to_owned()));

    assert_eq!(got, Ok("99".to_owned()));
    assert!(!disk.files.contains_key("/var/cache/app/data0"));
    assert_eq!(disk.read_all_bytes("/var/cache/app/data0.save"), vec![1u8]);
}

#[test]
fn the_temporary_sibling_appends_its_suffix() {
    let (state, request) = LocalFileCache::<(), (), ()>::save_to("dir/data.bin", &[1u8, 2u8]);
    assert_eq!(state, Save::Creating { path: "dir/data.bin".to_owned(), bytes: vec![1u8, 2u8] });
    assert_eq!(request, Request::CreateNew { path: "dir/data.bin.save".to_owned() });
    assert_eq!(
        local_file_cache::path::temp_sibling(&"test".to_owned()),
        "test.save".to_owned()
    );
    assert_eq!(local_file_cache::path::temp_sibling(&String::new()), ".save".to_owned());
}

#[test]
fn a_save_asks_for_creation_then_write_then_rename() {
    let (state, request) = Save::begin("dir/test".to_owned(), vec![5u8, 6u8]);
    assert_eq!(request, Request::CreateNew { path: "dir/test.save".to_owned() });

    let state = match state.advance(Reply::<Fault>::Done) {
        Progress::Continue { state, request } => {
            assert_eq!(
                request,
                Request::WriteAll { path: "dir/test.save".to_owned(), bytes: vec![5u8, 6u8] }
            );
            assert_eq!(state, Save::Writing { path: "dir/test".to_owned() });
            state
        }
        Progress::Finished(_) => panic!("a save ended before it wrote"),
    };
    let state = match state.advance(Reply::<Fault>::Done) {
        Progress::Continue { state, request } => {
            assert_eq!(
                request,
                Request::Rename { from: "dir/test.save".to_owned(), to: "dir/test".to_owned() }
            );
            assert_eq!(state, Save::Renaming { path: "dir/test".to_owned() });
            state
        }
        Progress::Finished(_) => panic!("a save ended before it renamed"),
    };
    match state.advance(Reply::<Fault>::Done) {
        Progress::Finished(result) => assert_eq!(result, Ok(())),
        Progress::Continue { .. } => panic!("a save went on after the rename"),
    }
}

#[test]
fn a_save_hands_on_every_other_failure() {
    for stage in ["dir/test.save", "dir/test"] {
        let mut disk = Disk::new();
        disk.denied.insert(stage.to_owned());
        let saved = disk.save(Save::begin("dir/test".to_owned(), vec![1u8]));
        assert_eq!(saved, Err(Fault::Denied(stage.to_owned())));
        assert!(!disk.files.contains_key("dir/test"));
    }

    // A sibling that is already there is passed over only at its creation.
    let (state, _) = Save::begin("dir/test".to_owned(), vec![1u8]);
    let state = match state.advance(Reply::<Fault>::Done) {
        Progress::Continue { state, .. } => state,
        Progress::Finished(_) => panic!("a save ended before it wrote"),
    };
    match state.advance(already_exists("dir/test.save")) {
        Progress::Finished(result) => {
            assert_eq!(result, Err(Fault::AlreadyExists("dir/test.save".to_owned())))
        }
        Progress::Continue { .. } => panic!("a save went on after a failure"),
    }

    // A sibling's directory that is not there is a failure, not a miss.
    let (state, _) = Save::begin("dir/test".to_owned(), vec![1u8]);
    match state.advance(not_found("dir/test.save")) {
        Progress::Finished(result) => {
            assert_eq!(result, Err(Fault::NotFound("dir/test.save".to_owned())))
        }
        Progress::Continue { .. } => panic!("a save went on after a failure"),
    }
}

#[test]
fn a_lookup_hands_on_every_other_failure() {
    let cache = byte_cache("/var/cache/app");
    for stage in
        ["/var/cache/app", "/var/cache/app/data0", "/var/cache/app/data0.save"]
    {
        let mut disk = Disk::new();
        disk.denied.insert(stage.to_owned());
        let mut called = false;
        let got = disk.lookup(
            &cache,
            cache.or_insert_with("data0", || {
                called = true;
                "5".to_owned()
            }),
        );
        assert_eq!(got, Err(Fault::Denied(stage.to_owned())));
        // The producer runs only where the read found nothing.
        assert_eq!(called, stage == "/var/cache/app/data0.save");
        assert!(!disk.files.contains_key("/var/cache/app/data0"));
    }

    // A directory that cannot be made for want of something is no miss.
    let (state, request) = cache.or_insert_with("data0", || "5".to_owned());
    assert_eq!(request, Request::CreateDirAll { path: "/var/cache/app".to_owned() });
    match state.advance(&cache, not_found("/var/cache/app")) {
        Progress::Finished(result) => {
            assert_eq!(result, Err(Fault::NotFound("/var/cache/app".to_owned())))
        }
        Progress::Continue { .. } => panic!("a lookup went on after a failure"),
    }
}

#[test]
fn a_cache_lies_below_its_base() {
    let cache =
        LocalFileCache::with_base(Some("/var/cache".to_owned()), "app", to_byte, from_byte)
            .unwrap();
    assert_eq!(cache.dir(), "/var/cache/app");

    let (_, request) = cache.or_insert_with("data0", || "1".to_owned());
    assert_eq!(request, Request::CreateDirAll { path: "/var/cache/app".to_owned() });

    let nested =
        LocalFileCache::with_base(Some("/var/cache/".to_owned()), "a/b", to_byte, from_byte)
            .unwrap();
    assert_eq!(nested.dir(), "/var/cache/a/b");

    let none: Option<LocalFileCache<String, Bytes, Text>> =
        LocalFileCache::with_base(None, "app", to_byte, from_byte);
    assert!(none.is_none());
}

#[test]
fn the_platform_cache_is_where_the_handle_says() {
    let made: Option<LocalFileCache<String, Bytes, Text>> =
        LocalFileCache::new("some/app", to_byte, from_byte);
    let asked = LocalFileCache::<(), (), ()>::invalidate("some/app");
    match (made, asked) {
        (Some(cache), Some(request)) => {
            assert!(cache.dir().ends_with("some/app"));
            assert_ne!(cache.dir(), "some/app");
            assert_eq!(request, Request::RemoveDirAll { path: cache.dir().to_owned() });
        }
        (None, None) => {}
        _ => panic!("one call found a cache directory and the other none"),
    }
}

#[test]
fn invalidation_asks_for_the_deletion_and_passes_over_nothing() {
    let request =
        LocalFileCache::<(), (), ()>::invalidate_in(Some("/var/cache".to_owned()), "app");
    assert_eq!(request, Some(Request::RemoveDirAll { path: "/var/cache/app".to_owned() }));
    assert_eq!(LocalFileCache::<(), (), ()>::invalidate_in(None, "app"), None);

    let mut disk = Disk::new();
    let gone = disk.perform(&request.unwrap()).into_result();
    assert_eq!(gone, Err(Fault::NotFound("/var/cache/app".to_owned())));

    assert_eq!(Reply::<Fault>::Done.into_result(), Ok(()));
    assert_eq!(
        already_exists("x").into_result(),
        Err(Fault::AlreadyExists("x".to_owned()))
    );
    assert_eq!(denied("x").into_result(), Err(Fault::Denied("x".to_owned())));
}
