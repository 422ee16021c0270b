use quickssh::sftp::{
    failure_status, read_outcome, realpath_target, FsOp, IoFailure, ReadDirStep, SftpSession,
    Status,
};

type Session = SftpSession<&'static str, Vec<&'static str>>;

#[test]
fn stat_of_missing_path_is_no_such_file() {
    assert_eq!(failure_status(FsOp::Metadata, IoFailure::NotFound), Status::NoSuchFile);
    assert_eq!(failure_status(FsOp::Metadata, IoFailure::PermissionDenied), Status::Failure);
    assert_eq!(failure_status(FsOp::Metadata, IoFailure::Other), Status::Failure);
}

#[test]
fn listing_failures_map_to_their_status() {
    assert_eq!(failure_status(FsOp::Listing, IoFailure::PermissionDenied), Status::PermissionDenied);
    assert_eq!(failure_status(FsOp::Listing, IoFailure::NotFound), Status::Failure);
}

#[test]
fn other_failures_collapse_to_failure() {
    assert_eq!(failure_status(FsOp::Other, IoFailure::NotFound), Status::Failure);
    assert_eq!(failure_status(FsOp::Other, IoFailure::PermissionDenied), Status::Failure);
    assert_eq!(failure_status(FsOp::Other, IoFailure::Other), Status::Failure);
}

#[test]
fn init_is_accepted_once() {
    let mut s = Session::new();
    assert_eq!(s.version(), None);
    assert_eq!(s.init(3), Ok(()));
    assert_eq!(s.version(), Some(3));
    assert_eq!(s.init(3), Err(Status::ConnectionLost));
    assert_eq!(s.version(), Some(3));
}

#[test]
fn handles_count_up_from_one() {
    let mut s = Session::new();
    assert_eq!(s.open(Ok("a")), Ok("1".to_string()));
    assert_eq!(s.opendir(Ok(vec![])), Ok("2".to_string()));
    assert_eq!(s.open(Err(IoFailure::NotFound)), Err(Status::Failure));
    assert_eq!(s.open(Ok("b")), Ok("4".to_string()));
    assert_eq!(s.file("1"), Some(&"a"));
    assert_eq!(s.file("4"), Some(&"b"));
    assert_eq!(s.file("2"), None);
    assert_eq!(s.file("3"), None);
    assert_eq!(s.file("04"), None);
    assert_eq!(s.file("+4"), None);
}

#[test]
fn closed_handle_is_not_reused() {
    let mut s = Session::new();
    assert_eq!(s.open(Ok("a")), Ok("1".to_string()));
    assert_eq!(s.close("1"), Ok(()));
    assert_eq!(s.file("1"), None);
    assert_eq!(s.close("1"), Err(Status::Failure));
    assert_eq!(s.open(Ok("b")), Ok("2".to_string()));
}

#[test]
fn close_of_unknown_handle_fails() {
    let mut s = Session::new();
    assert_eq!(s.close("1"), Err(Status::Failure));
    assert_eq!(s.close("handle"), Err(Status::Failure));
    assert_eq!(s.close(""), Err(Status::Failure));
}

#[test]
fn opendir_permission_denied() {
    let mut s = Session::new();
    assert_eq!(s.opendir(Err(IoFailure::PermissionDenied)), Err(Status::PermissionDenied));
    assert_eq!(s.opendir(Err(IoFailure::NotFound)), Err(Status::Failure));
}

fn drain(entries: Vec<&'static str>) {
    let mut s = Session::new();
    let h = s.opendir(Ok(entries.clone())).unwrap();
    let mut seen: Vec<&'static str> = Vec::new();
    loop {
        let batch: Vec<&'static str> = match s.readdir(&h) {
            ReadDirStep::List(d) => {
                s.listed(&h, d.is_empty());
                d
            }
            ReadDirStep::Finished => vec![],
            ReadDirStep::Invalid => panic!("handle lost before the end"),
        };
        if batch.is_empty() {
            break;
        }
        seen.extend(batch);
    }
    assert_eq!(seen, entries);
    assert!(matches!(s.readdir(&h), ReadDirStep::Invalid));
    assert_eq!(s.close(&h), Err(Status::Failure));
}

#[test]
fn empty_listing_drops_the_handle_at_once() {
    let mut s = Session::new();
    let h = s.opendir(Ok(vec![])).unwrap();
    assert!(matches!(s.readdir(&h), ReadDirStep::List(ref d) if d.is_empty()));
    s.listed(&h, true);
    assert!(matches!(s.readdir(&h), ReadDirStep::Invalid));
    assert_eq!(s.close(&h), Err(Status::Failure));
}

#[test]
fn non_empty_listing_keeps_the_handle_until_the_end() {
    let mut s = Session::new();
    let h = s.opendir(Ok(vec!["a"])).unwrap();
    assert!(matches!(s.readdir(&h), ReadDirStep::List(_)));
    s.listed(&h, false);
    assert!(matches!(s.readdir(&h), ReadDirStep::Finished));
    assert!(matches!(s.readdir(&h), ReadDirStep::Invalid));
}

#[test]
fn listed_leaves_pending_and_file_handles_alone() {
    let mut s = Session::new();
    let d = s.opendir(Ok(vec![])).unwrap();
    let f = s.open(Ok("f")).unwrap();
    s.listed(&d, true);
    s.listed(&f, true);
    assert_eq!(s.file(&f), Some(&"f"));
    assert!(matches!(s.readdir(&d), ReadDirStep::List(_)));
}

#[test]
fn readdir_lists_no_entries_once() {
    drain(vec![]);
}

#[test]
fn readdir_lists_one_entry_once() {
    drain(vec!["only"]);
}

#[test]
fn readdir_lists_many_entries_once() {
    drain(vec!["a", "b", "c", "d"]);
}

#[test]
fn readdir_on_file_handle_is_invalid() {
    let mut s = Session::new();
    let h = s.open(Ok("f")).unwrap();
    assert!(matches!(s.readdir(&h), ReadDirStep::Invalid));
    assert_eq!(s.file(&h), Some(&"f"));
}

#[test]
fn closing_a_pending_directory() {
    let mut s = Session::new();
    let h = s.opendir(Ok(vec!["x"])).unwrap();
    assert_eq!(s.close(&h), Ok(()));
    assert!(matches!(s.readdir(&h), ReadDirStep::Invalid));
}

#[test]
fn read_of_nothing_is_eof() {
    assert_eq!(read_outcome(Ok(vec![])), Err(Status::Eof));
}

#[test]
fn read_returns_the_bytes() {
    assert_eq!(read_outcome(Ok(vec![1, 2, 3])), Ok(vec![1, 2, 3]));
    assert_eq!(read_outcome(Err(IoFailure::Other)), Err(Status::Failure));
}

#[test]
fn realpath_of_empty_is_current_directory() {
    assert_eq!(realpath_target(String::new()), ".");
    assert_eq!(realpath_target("/tmp/x".to_string()), "/tmp/x");
}

#[test]
fn unimplemented_is_unsupported() {
    let s = Session::new();
    assert_eq!(s.unimplemented(), Status::OpUnsupported);
}
