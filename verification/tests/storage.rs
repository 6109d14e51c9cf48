use intelligence::definitions::Signal;
use intelligence::storage::exchange::{
    DirEntry, EntryKind, FsReply, FsRequest, IoFault, Session, Step, Walk,
};
use intelligence::storage::paths::join;
use intelligence::storage::s3_storage_manager::S3SystemStorage;
use intelligence::storage::storage_manager::{
    user_image_path, StorageFailure, StorageManager, StorageOp, StorageOutcome, StorageTrait,
    USER_IMAGES,
};
use std::collections::BTreeMap;

/// A file system in memory that answers as a well-behaved one would.
#[derive(Debug, Default)]
struct FakeFs {
    files: BTreeMap<String, Vec<u8>>,
    dirs: BTreeMap<String, ()>,
    asked: Vec<String>,
}

fn parent(path: &str) -> Option<String> {
    let at = path.rfind('/')?;
    if at + 1 == path.len() {
        None
    } else if at == 0 {
        Some("/".to_string())
    } else {
        Some(path[..at].to_string())
    }
}

impl FakeFs {
    fn with_root() -> Self {
        let mut fs = FakeFs::default();
        fs.dirs.insert("/".to_string(), ());
        fs
    }

    fn make_dirs(&mut self, path: &str) -> bool {
        if self.dirs.contains_key(path) {
            return true;
        }
        if self.files.contains_key(path) {
            return false;
        }
        if let Some(up) = parent(path) {
            if !self.make_dirs(&up) {
                return false;
            }
        }
        self.dirs.insert(path.to_string(), ());
        true
    }

    fn children(&self, dir: &str) -> Vec<DirEntry> {
        let mut found = Vec::new();
        for (path, data) in &self.files {
            if parent(path).as_deref() == Some(dir) {
                let name = path[path.rfind('/').unwrap() + 1..].to_string();
                found.push(DirEntry { name, kind: EntryKind::File, len: data.len() as u64 });
            }
        }
        for path in self.dirs.keys() {
            if path != dir && parent(path).as_deref() == Some(dir) {
                let name = path[path.rfind('/').unwrap() + 1..].to_string();
                found.push(DirEntry { name, kind: EntryKind::Directory, len: 0 });
            }
        }
        found
    }

    fn serve(&mut self, request: FsRequest) -> FsReply {
        self.asked.push(format!("{:?}", request));
        match request {
            FsRequest::ReadFile { path } => match self.files.get(&path) {
                Some(data) => FsReply::Content(data.clone()),
                None if self.dirs.contains_key(&path) => FsReply::Failed(IoFault::Other),
                None => FsReply::Failed(IoFault::NotFound),
            },
            FsRequest::CreateParentDirs { path } => match parent(&path) {
                Some(up) => {
                    if self.make_dirs(&up) {
                        FsReply::Done
                    } else {
                        FsReply::Failed(IoFault::Other)
                    }
                }
                None => FsReply::Done,
            },
            FsRequest::WriteFile { path, data } => {
                if self.dirs.contains_key(&path) {
                    FsReply::Failed(IoFault::Other)
                } else if parent(&path).map_or(true, |up| !self.dirs.contains_key(&up)) {
                    FsReply::Failed(IoFault::NotFound)
                } else {
                    self.files.insert(path, data);
                    FsReply::Done
                }
            }
            FsRequest::RemoveFile { path } => match self.files.remove(&path) {
                Some(_) => FsReply::Done,
                None => FsReply::Failed(IoFault::NotFound),
            },
            FsRequest::Inspect { path } => {
                if let Some(data) = self.files.get(&path) {
                    FsReply::Meta { kind: EntryKind::File, len: data.len() as u64 }
                } else if self.dirs.contains_key(&path) {
                    FsReply::Meta { kind: EntryKind::Directory, len: 0 }
                } else {
                    FsReply::Failed(IoFault::NotFound)
                }
            }
            FsRequest::CreateDirAll { path } => {
                if self.make_dirs(&path) {
                    FsReply::Done
                } else {
                    FsReply::Failed(IoFault::Other)
                }
            }
            FsRequest::ListEntries { path } => {
                if self.dirs.contains_key(&path) {
                    FsReply::Entries(self.children(&path))
                } else {
                    FsReply::Failed(IoFault::NotFound)
                }
            }
            FsRequest::ListNames { path } => {
                if self.dirs.contains_key(&path) {
                    FsReply::Names(self.children(&path).into_iter().map(|e| e.name).collect())
                } else {
                    FsReply::Failed(IoFault::NotFound)
                }
            }
        }
    }

    fn run(&mut self, mut step: Step) -> StorageOutcome {
        loop {
            match step {
                Step::Done(outcome) => return outcome,
                Step::Ask(session, request) => {
                    let reply = self.serve(request);
                    step = session.advance(reply);
                }
            }
        }
    }
}

fn store() -> S3SystemStorage {
    S3SystemStorage::new("/srv", "data".to_string())
}

fn content(outcome: StorageOutcome) -> Option<Vec<u8>> {
    match outcome {
        StorageOutcome::Content(found) => found.map(|b| b.to_vec()),
        other => panic!("{:?}", other),
    }
}

fn failure(outcome: StorageOutcome) -> StorageFailure {
    match outcome {
        StorageOutcome::Failed(failure) => failure,
        other => panic!("{:?}", other),
    }
}

fn size(outcome: StorageOutcome) -> u64 {
    match outcome {
        StorageOutcome::Size(bytes) => bytes,
        other => panic!("{:?}", other),
    }
}

fn asked(step: &Step) -> String {
    match step {
        Step::Ask(_, request) => format!("{:?}", request),
        Step::Done(outcome) => panic!("{:?}", outcome),
    }
}

fn entry(name: &str, kind: EntryKind, len: u64) -> DirEntry {
    DirEntry { name: name.to_string(), kind, len }
}

#[test]
fn join_puts_one_slash_between() {
    assert_eq!(join("base", "a"), "base/a");
    assert_eq!(join("base/", "a"), "base/a");
    assert_eq!(join("/", "x"), "/x");
    assert_eq!(join("", "a"), "a");
    assert_eq!(join("base", ""), "base/");
    assert_eq!(join("", ""), "");
    assert_eq!(join("b\u{e9}", "\u{fc}/x"), "b\u{e9}/\u{fc}/x");
}

#[test]
fn join_lets_an_absolute_path_replace_the_base() {
    assert_eq!(join("base", "/abs"), "/abs");
    assert_eq!(join("/srv/data", "/etc/passwd"), "/etc/passwd");
    assert_eq!(join("", "/"), "/");
}

#[test]
fn join_does_not_stop_a_climbing_path() {
    assert_eq!(join("/srv/data", "../../etc/passwd"), "/srv/data/../../etc/passwd");
}

#[test]
fn root_is_fixed_at_construction() {
    assert_eq!(store().base_dir(), "/srv/data");
    assert_eq!(S3SystemStorage::new("/", "files".to_string()).base_dir(), "/files");
    assert_eq!(S3SystemStorage::new("/srv", "/var/files".to_string()).base_dir(), "/var/files");
    assert_eq!(store().resolve("userimages/7"), "/srv/data/userimages/7");
}

#[test]
fn every_operation_opens_with_a_question_about_the_resolved_path() {
    let s = store();
    assert_eq!(asked(&s.get("a/b")), r#"ReadFile { path: "/srv/data/a/b" }"#);
    assert_eq!(asked(&s.put("a/b", vec![1])), r#"CreateParentDirs { path: "/srv/data/a/b" }"#);
    assert_eq!(asked(&s.delete("a/b")), r#"RemoveFile { path: "/srv/data/a/b" }"#);
    assert_eq!(asked(&s.size("a")), r#"Inspect { path: "/srv/data/a" }"#);
    assert_eq!(asked(&s.get_files("a")), r#"ListNames { path: "/srv/data/a" }"#);
}

#[test]
fn entry_point_hands_every_operation_to_its_backend() {
    let s = store();
    let m = StorageManager::new(store());
    assert_eq!(format!("{:?}", m.get("a/b")), format!("{:?}", s.get("a/b")));
    assert_eq!(format!("{:?}", m.put("a/b", vec![1, 2])), format!("{:?}", s.put("a/b", vec![1, 2])));
    assert_eq!(format!("{:?}", m.delete("a/b")), format!("{:?}", s.delete("a/b")));
    assert_eq!(format!("{:?}", m.size("a")), format!("{:?}", s.size("a")));
    assert_eq!(format!("{:?}", m.get_files("a")), format!("{:?}", s.get_files("a")));
    assert_eq!(
        format!("{:?}", m.begin(StorageOp::Get { path: "a/b".to_string() })),
        format!("{:?}", s.get("a/b"))
    );
    assert_eq!(
        format!("{:?}", m.begin(StorageOp::Put { path: "a/b".to_string(), data: vec![1] })),
        format!("{:?}", s.put("a/b", vec![1]))
    );
    assert_eq!(
        format!("{:?}", m.begin(StorageOp::Delete { path: "a/b".to_string() })),
        format!("{:?}", s.delete("a/b"))
    );
    assert_eq!(
        format!("{:?}", m.begin(StorageOp::Size { path: "a".to_string() })),
        format!("{:?}", s.size("a"))
    );
    assert_eq!(
        format!("{:?}", m.begin(StorageOp::GetFiles { path: "a".to_string() })),
        format!("{:?}", s.get_files("a"))
    );
}

#[test]
fn operations_open_on_the_place_they_are_given() {
    assert_eq!(asked(&Step::get("/x/y".to_string())), r#"ReadFile { path: "/x/y" }"#);
    assert_eq!(
        asked(&Step::put("/x/y".to_string(), vec![7])),
        r#"CreateParentDirs { path: "/x/y" }"#
    );
    assert_eq!(asked(&Step::delete("/x/y".to_string())), r#"RemoveFile { path: "/x/y" }"#);
    assert_eq!(asked(&Step::size("/x".to_string())), r#"Inspect { path: "/x" }"#);
    assert_eq!(asked(&Step::get_files("/x".to_string())), r#"ListNames { path: "/x" }"#);
}

#[test]
fn round_trip_through_the_entry_point() {
    let m = StorageManager::new(store());
    let mut fs = FakeFs::with_root();
    assert!(matches!(fs.run(m.put("pictures/1", vec![1, 2, 3])), StorageOutcome::Stored));
    assert_eq!(content(fs.run(m.get("pictures/1"))), Some(vec![1, 2, 3]));
    assert_eq!(size(fs.run(m.size("pictures"))), 3);
    assert!(matches!(fs.run(m.delete("pictures/1")), StorageOutcome::Deleted));
    assert_eq!(content(fs.run(m.get("pictures/1"))), None);
    assert_eq!(size(fs.run(m.size("pictures"))), 0);
}

#[test]
fn get_hands_out_what_was_read() {
    let outcome = Session::Reading.advance(FsReply::Content(vec![9, 8, 7]));
    match outcome {
        Step::Done(StorageOutcome::Content(Some(bytes))) => {
            assert_eq!(&bytes[..], &[9u8, 8, 7][..]);
            assert_eq!(bytes.len(), 3);
        }
        other => panic!("{:?}", other),
    }
}

#[test]
fn get_tells_missing_from_failed() {
    let missing = Session::Reading.advance(FsReply::Failed(IoFault::NotFound));
    assert!(matches!(missing, Step::Done(StorageOutcome::Content(None))));
    let denied = Session::Reading.advance(FsReply::Failed(IoFault::PermissionDenied));
    assert!(matches!(
        denied,
        Step::Done(StorageOutcome::Failed(StorageFailure::PermissionDenied))
    ));
    let broken = Session::Reading.advance(FsReply::Failed(IoFault::Other));
    assert!(matches!(broken, Step::Done(StorageOutcome::Failed(StorageFailure::IoFailure))));
}

#[test]
fn put_writes_the_data_once_the_directories_are_made() {
    let step = store().put("a/b.bin", vec![1, 2, 3]);
    let session = match step {
        Step::Ask(session, FsRequest::CreateParentDirs { path }) => {
            assert_eq!(path, "/srv/data/a/b.bin");
            session
        }
        other => panic!("{:?}", other),
    };
    let session = match session.advance(FsReply::Done) {
        Step::Ask(session, FsRequest::WriteFile { path, data }) => {
            assert_eq!(path, "/srv/data/a/b.bin");
            assert_eq!(data, vec![1, 2, 3]);
            session
        }
        other => panic!("{:?}", other),
    };
    assert!(matches!(session.advance(FsReply::Done), Step::Done(StorageOutcome::Stored)));
}

#[test]
fn put_stops_at_the_first_fault() {
    let step = store().put("a/b.bin", vec![1]);
    let session = match step {
        Step::Ask(session, _) => session,
        other => panic!("{:?}", other),
    };
    assert!(matches!(
        session.advance(FsReply::Failed(IoFault::PermissionDenied)),
        Step::Done(StorageOutcome::Failed(StorageFailure::PermissionDenied))
    ));
    assert!(matches!(
        Session::Writing.advance(FsReply::Failed(IoFault::Other)),
        Step::Done(StorageOutcome::Failed(StorageFailure::IoFailure))
    ));
    assert!(matches!(
        Session::Writing.advance(FsReply::Failed(IoFault::NotFound)),
        Step::Done(StorageOutcome::Failed(StorageFailure::NotFound))
    ));
}

#[test]
fn delete_of_nothing_fails_with_not_found() {
    assert!(matches!(
        Session::Removing.advance(FsReply::Failed(IoFault::NotFound)),
        Step::Done(StorageOutcome::Failed(StorageFailure::NotFound))
    ));
    assert!(matches!(
        Session::Removing.advance(FsReply::Done),
        Step::Done(StorageOutcome::Deleted)
    ));
    let mut fs = FakeFs::with_root();
    assert_eq!(failure(fs.run(store().delete("nothing"))), StorageFailure::NotFound);
}

#[test]
fn get_files_gives_names_or_none() {
    match Session::Listing.advance(FsReply::Names(vec!["a".to_string(), "b".to_string()])) {
        Step::Done(StorageOutcome::Files(Some(names))) => assert_eq!(names, vec!["a", "b"]),
        other => panic!("{:?}", other),
    }
    for fault in [IoFault::NotFound, IoFault::PermissionDenied, IoFault::Other] {
        assert!(matches!(
            Session::Listing.advance(FsReply::Failed(fault)),
            Step::Done(StorageOutcome::Files(None))
        ));
    }
}

#[test]
fn answer_to_another_question_is_an_io_failure() {
    let sessions = [
        Session::Reading,
        Session::Writing,
        Session::Removing,
        Session::Listing,
        Session::Inspecting { path: "/p".to_string() },
        Session::MakingRoom { path: "/p".to_string(), data: vec![] },
    ];
    for session in sessions {
        assert!(matches!(
            session.advance(FsReply::Entries(Vec::new())),
            Step::Done(StorageOutcome::Failed(StorageFailure::IoFailure))
        ));
    }
    assert!(matches!(
        Session::Reading.advance(FsReply::Done),
        Step::Done(StorageOutcome::Failed(StorageFailure::IoFailure))
    ));
    assert!(matches!(
        Session::Measuring(Walk::starting_at("/p".to_string())).advance(FsReply::Done),
        Step::Done(StorageOutcome::Failed(StorageFailure::IoFailure))
    ));
}

#[test]
fn size_of_a_file_is_its_length() {
    let session = Session::Inspecting { path: "/srv/data/f".to_string() };
    let step = session.advance(FsReply::Meta { kind: EntryKind::File, len: 4096 });
    assert_eq!(size(match step {
        Step::Done(outcome) => outcome,
        other => panic!("{:?}", other),
    }), 4096);
    let odd = Session::Inspecting { path: "/srv/data/f".to_string() }
        .advance(FsReply::Meta { kind: EntryKind::Other, len: 1 });
    assert!(matches!(odd, Step::Done(StorageOutcome::Failed(StorageFailure::IoFailure))));
}

#[test]
fn size_makes_each_directory_before_listing_it() {
    let step = Session::Inspecting { path: "/srv/data/d".to_string() }
        .advance(FsReply::Failed(IoFault::NotFound));
    let session = match step {
        Step::Ask(session, FsRequest::CreateDirAll { path }) => {
            assert_eq!(path, "/srv/data/d");
            session
        }
        other => panic!("{:?}", other),
    };
    let session = match session.advance(FsReply::Done) {
        Step::Ask(session, FsRequest::ListEntries { path }) => {
            assert_eq!(path, "/srv/data/d");
            session
        }
        other => panic!("{:?}", other),
    };
    let entries = vec![
        entry("a", EntryKind::File, 10),
        entry("sub", EntryKind::Directory, 4096),
        entry("link", EntryKind::Other, 77),
        entry("b", EntryKind::File, 5),
        entry("deep", EntryKind::Directory, 4096),
    ];
    // The directory found last is looked at first; the other waits.
    let session = match session.advance(FsReply::Entries(entries)) {
        Step::Ask(Session::Preparing(walk), FsRequest::CreateDirAll { path }) => {
            assert_eq!(path, "/srv/data/d/deep");
            assert_eq!(walk.current, "/srv/data/d/deep");
            assert_eq!(walk.pending, vec!["/srv/data/d/sub"]);
            assert_eq!(walk.total, 15);
            Session::Preparing(walk)
        }
        other => panic!("{:?}", other),
    };
    let session = match session.advance(FsReply::Done) {
        Step::Ask(session, FsRequest::ListEntries { path }) => {
            assert_eq!(path, "/srv/data/d/deep");
            session
        }
        other => panic!("{:?}", other),
    };
    let session = match session.advance(FsReply::Entries(vec![entry("x", EntryKind::File, 100)])) {
        Step::Ask(session, FsRequest::CreateDirAll { path }) => {
            assert_eq!(path, "/srv/data/d/sub");
            session
        }
        other => panic!("{:?}", other),
    };
    let session = match session.advance(FsReply::Done) {
        Step::Ask(session, FsRequest::ListEntries { .. }) => session,
        other => panic!("{:?}", other),
    };
    match session.advance(FsReply::Entries(Vec::new())) {
        Step::Done(StorageOutcome::Size(bytes)) => assert_eq!(bytes, 115),
        other => panic!("{:?}", other),
    }
}

#[test]
fn size_fails_where_a_directory_cannot_be_made_or_listed() {
    let walk = Walk::starting_at("/p".to_string());
    assert!(matches!(
        Session::Preparing(walk).advance(FsReply::Failed(IoFault::PermissionDenied)),
        Step::Done(StorageOutcome::Failed(StorageFailure::PermissionDenied))
    ));
    let walk = Walk::starting_at("/p".to_string());
    assert!(matches!(
        Session::Measuring(walk).advance(FsReply::Failed(IoFault::NotFound)),
        Step::Done(StorageOutcome::Failed(StorageFailure::NotFound))
    ));
    assert!(matches!(
        Session::Inspecting { path: "/p".to_string() }.advance(FsReply::Failed(IoFault::Other)),
        Step::Done(StorageOutcome::Failed(StorageFailure::IoFailure))
    ));
}

#[test]
fn size_beyond_64_bits_is_an_io_failure() {
    let walk = Walk { current: "/p".to_string(), pending: Vec::new(), total: u64::MAX - 10 };
    let fits = walk.absorb(vec![entry("a", EntryKind::File, 10)]);
    assert!(matches!(fits, Step::Done(StorageOutcome::Size(u64::MAX))));
    let walk = Walk { current: "/p".to_string(), pending: Vec::new(), total: u64::MAX - 10 };
    let over = walk.absorb(vec![
        entry("a", EntryKind::File, 10),
        entry("d", EntryKind::Directory, 0),
        entry("b", EntryKind::File, 1),
    ]);
    assert!(matches!(over, Step::Done(StorageOutcome::Failed(StorageFailure::IoFailure))));
    // A directory's own length does not count.
    let walk = Walk { current: "/p".to_string(), pending: Vec::new(), total: u64::MAX };
    let step = walk.absorb(vec![entry("d", EntryKind::Directory, 4096)]);
    assert!(matches!(step, Step::Ask(_, FsRequest::CreateDirAll { .. })));
}

#[test]
fn put_then_get_round_trip() {
    let s = store();
    let mut fs = FakeFs::with_root();
    let cases: [(&str, &[u8]); 4] = [
        ("a.txt", b"hello"),
        ("userimages/user:1", &[0u8, 255, 7]),
        ("deep/er/still/x", b""),
        ("a.txt", b"second write wins"),
    ];
    for (path, data) in cases {
        assert!(matches!(fs.run(s.put(path, data.to_vec())), StorageOutcome::Stored));
        assert_eq!(content(fs.run(s.get(path))), Some(data.to_vec()));
    }
    assert_eq!(content(fs.run(s.get("userimages/user:1"))), Some(vec![0u8, 255, 7]));
    assert!(fs.dirs.contains_key("/srv/data/deep/er/still"));
}

#[test]
fn get_of_a_path_never_written_is_none() {
    let s = store();
    let mut fs = FakeFs::with_root();
    assert_eq!(content(fs.run(s.get("never/written"))), None);
    assert!(matches!(fs.run(s.put("a/b", vec![1])), StorageOutcome::Stored));
    assert_eq!(content(fs.run(s.get("a/c"))), None);
    assert_eq!(content(fs.run(s.get("b"))), None);
}

#[test]
fn delete_then_get_is_none() {
    let s = store();
    let mut fs = FakeFs::with_root();
    assert!(matches!(fs.run(s.put("a/b", vec![1, 2])), StorageOutcome::Stored));
    assert!(matches!(fs.run(s.delete("a/b")), StorageOutcome::Deleted));
    assert_eq!(content(fs.run(s.get("a/b"))), None);
    assert_eq!(failure(fs.run(s.delete("a/b"))), StorageFailure::NotFound);
}

#[test]
fn size_is_the_sum_of_all_files_below() {
    let s = store();
    let mut fs = FakeFs::with_root();
    for (path, len) in [("d/a", 10usize), ("d/b", 0), ("d/x/c", 7), ("d/x/y/z/e", 300), ("d/w/f", 1), ("other/g", 1000)] {
        assert!(matches!(fs.run(s.put(path, vec![0u8; len])), StorageOutcome::Stored));
    }
    assert_eq!(size(fs.run(s.size("d"))), 318);
    assert_eq!(size(fs.run(s.size("d/x"))), 307);
    assert_eq!(size(fs.run(s.size("d/x/y/z"))), 300);
    assert_eq!(size(fs.run(s.size("d/w"))), 1);
    assert_eq!(size(fs.run(s.size("d/a"))), 10);
    assert_eq!(size(fs.run(s.size("d/b"))), 0);
    assert_eq!(size(fs.run(S3SystemStorage::new("/", "srv".to_string()).size("data"))), 1318);
    let sum: u64 = ["d/a", "d/b", "d/x/c", "d/x/y/z/e", "d/w/f"]
        .iter()
        .map(|p| size(fs.run(s.size(p))))
        .sum();
    assert_eq!(size(fs.run(s.size("d"))), sum);
}

#[test]
fn size_of_a_missing_directory_is_zero_and_makes_it() {
    let s = store();
    let mut fs = FakeFs::with_root();
    assert_eq!(size(fs.run(s.size("not/yet/there"))), 0);
    assert!(fs.dirs.contains_key("/srv/data/not/yet/there"));
    assert_eq!(size(fs.run(s.size("not"))), 0);
}

#[test]
fn get_files_lists_direct_children_only() {
    let s = store();
    let mut fs = FakeFs::with_root();
    for path in ["d/a", "d/b", "d/x/c"] {
        assert!(matches!(fs.run(s.put(path, vec![1])), StorageOutcome::Stored));
    }
    match fs.run(s.get_files("d")) {
        StorageOutcome::Files(Some(mut names)) => {
            names.sort();
            assert_eq!(names, vec!["a", "b", "x"]);
        }
        other => panic!("{:?}", other),
    }
    assert!(matches!(fs.run(s.get_files("nowhere")), StorageOutcome::Files(None)));
}

#[test]
fn storage_asks_nothing_about_who_is_asking() {
    // Two stores with one root see the same content: the path alone decides.
    let mut fs = FakeFs::with_root();
    let one = S3SystemStorage::new("/srv", "data".to_string());
    let two = S3SystemStorage::new("/srv/", "data".to_string());
    assert!(matches!(fs.run(one.put("k", vec![5])), StorageOutcome::Stored));
    assert_eq!(content(fs.run(two.get("k"))), Some(vec![5]));
    assert_eq!(fs.asked.len(), 3);
}

#[test]
fn user_pictures_live_under_the_users_key() {
    assert_eq!(USER_IMAGES, "userimages/");
    assert_eq!(user_image_path("user:7"), "userimages/user:7");
    assert_eq!(user_image_path(""), "userimages/");
    assert_eq!(store().resolve(&user_image_path("7")), "/srv/data/userimages/7");
}

#[test]
fn storage_failures_are_signalled_without_detail() {
    assert_eq!(StorageFailure::NotFound.signal(), Signal::NotFound);
    assert_eq!(StorageFailure::IoFailure.signal(), Signal::InternalError);
    assert_eq!(StorageFailure::PermissionDenied.signal(), Signal::InternalError);
    assert_eq!(StorageFailure::from_fault(IoFault::NotFound), StorageFailure::NotFound);
    assert_eq!(StorageFailure::from_fault(IoFault::PermissionDenied), StorageFailure::PermissionDenied);
    assert_eq!(StorageFailure::from_fault(IoFault::Other), StorageFailure::IoFailure);
}
