//! The file-transfer handler: protocol version, handle table and directory
//! cursors of one file-transfer channel.
//!
//! The handler is generic over the open-file value `F` and the directory
//! source `D` that the caller obtains from the file system; it decides what
//! becomes of them and which status every outcome maps to.

use std::collections::HashMap;
use vstd::prelude::*;

use crate::token::{decimal, handle_of, handle_token, lemma_handle_of_token, parse_handle};

verus! {

broadcast use vstd::std_specs::hash::group_hash_axioms;

/// The status vocabulary of the file-transfer protocol, short of plain
/// success, which is the `Ok` of a `Result`.
#[derive(PartialEq, Eq, Structural, Clone, Copy, Debug)]
pub enum Status {
    Eof,
    NoSuchFile,
    PermissionDenied,
    Failure,
    OpUnsupported,
    ConnectionLost,
}

/// What went wrong in a file-system call, as far as the status vocabulary
/// tells such failures apart.
#[derive(PartialEq, Eq, Structural, Clone, Copy, Debug)]
pub enum IoFailure {
    NotFound,
    PermissionDenied,
    Other,
}

/// The kind of file-system work that failed.
#[derive(PartialEq, Eq, Structural, Clone, Copy, Debug)]
pub enum FsOp {
    /// Reading metadata: stat, lstat, fstat, and the target of a link.
    Metadata,
    /// Opening or reading a directory listing.
    Listing,
    /// Any other call: open, read, write, remove, rename, mkdir, rmdir,
    /// realpath, readlink, setstat.
    Other,
}

/// The status that a failure of the given kind of call is reported as.
pub open spec fn spec_failure_status(op: FsOp, f: IoFailure) -> Status {
    match (op, f) {
        (FsOp::Metadata, IoFailure::NotFound) => Status::NoSuchFile,
        (FsOp::Listing, IoFailure::PermissionDenied) => Status::PermissionDenied,
        _ => Status::Failure,
    }
}

/// Maps a failed file-system call to its status: a missing path is told apart
/// for metadata, a denied permission for listings, and every other failure
/// is a generic failure.
pub fn failure_status(op: FsOp, f: IoFailure) -> (r: Status)
    ensures
        r == spec_failure_status(op, f),
{
    match (op, f) {
        (FsOp::Metadata, IoFailure::NotFound) => Status::NoSuchFile,
        (FsOp::Listing, IoFailure::PermissionDenied) => Status::PermissionDenied,
        _ => Status::Failure,
    }
}

/// The answer to a read at an absolute offset: the bytes read, or end of
/// file when there were none, never an empty success.
pub fn read_outcome(read: Result<Vec<u8>, IoFailure>) -> (r: Result<Vec<u8>, Status>)
    ensures
        match read {
            Err(_) => r == Err::<Vec<u8>, Status>(Status::Failure),
            Ok(b) => if b@.len() == 0 {
                r == Err::<Vec<u8>, Status>(Status::Eof)
            } else {
                r matches Ok(v) && v@ == b@
            },
        },
{
    match read {
        Err(_) => Err(Status::Failure),
        Ok(b) => if b.len() == 0 {
            Err(Status::Eof)
        } else {
            Ok(b)
        },
    }
}

/// The path that `realpath` resolves: an empty path stands for the current
/// directory.
pub fn realpath_target(path: String) -> (r: String)
    ensures
        path@.len() == 0 ==> r@ == seq!['.'],
        path@.len() > 0 ==> r@ == path@,
{
    if path.as_str().is_empty() {
        proof {
            reveal_strlit(".");
        }
        String::from_str(".")
    } else {
        path
    }
}

/// A directory listing cursor: the source is handed out once, then the
/// cursor only waits to be dropped.
pub enum Cursor<D> {
    Pending(D),
    Drained,
}

/// What a `readdir` request comes to.
pub enum ReadDirStep<D> {
    /// The handle names no directory cursor.
    Invalid,
    /// The first request: list every entry of this source.
    List(D),
    /// The listing was already handed out: answer with no entries; the handle
    /// is gone now.
    Finished,
}

/// What `readdir` on the token `h` does to the cursor table `dirs`: the step
/// it answers with and the table after it.
pub open spec fn readdir_effect<D>(dirs: Map<u32, Cursor<D>>, h: Seq<char>) -> (
    ReadDirStep<D>,
    Map<u32, Cursor<D>>,
) {
    match handle_of(h) {
        Some(n) => if dirs.contains_key(n) {
            match dirs[n] {
                Cursor::Pending(d) => (ReadDirStep::List(d), dirs.insert(n, Cursor::Drained)),
                Cursor::Drained => (ReadDirStep::Finished, dirs.remove(n)),
            }
        } else {
            (ReadDirStep::Invalid, dirs)
        },
        None => (ReadDirStep::Invalid, dirs),
    }
}

/// What reporting a listing as read does to the cursor table: a drained
/// cursor whose listing had no entries is dropped at once, since the empty
/// answer already told the client that the listing is over.
pub open spec fn listed_effect<D>(dirs: Map<u32, Cursor<D>>, h: Seq<char>, empty: bool) -> Map<
    u32,
    Cursor<D>,
> {
    match handle_of(h) {
        Some(n) => if empty && dirs.contains_key(n) && dirs[n] is Drained {
            dirs.remove(n)
        } else {
            dirs
        },
        None => dirs,
    }
}

/// A directory bound to handle number `n` is listed exactly once: the first
/// `readdir` on its token hands out the source it was opened with. When that
/// listing is empty, the handle is gone as soon as it is reported; otherwise
/// the next `readdir` reports the end and drops it. Either way the token
/// names nothing right after the empty answer, and the other cursors are
/// left as they were.
pub proof fn lemma_listing_drains_once<D>(dirs: Map<u32, Cursor<D>>, n: u32, d: D, empty: bool)
    ensures
        ({
            let h = decimal(n as nat);
            let (first, after_first) = readdir_effect(dirs.insert(n, Cursor::Pending(d)), h);
            let after_listed = listed_effect(after_first, h, empty);
            let (second, after_second) = readdir_effect(after_listed, h);
            let (third, after_third) = readdir_effect(after_second, h);
            &&& first == ReadDirStep::List(d)
            &&& empty ==> after_listed == dirs.remove(n) && second == ReadDirStep::<D>::Invalid
                && after_second == after_listed
            &&& !empty ==> second == ReadDirStep::<D>::Finished && third == ReadDirStep::<
                D,
            >::Invalid && after_second == dirs.remove(n) && after_third == after_second
        }),
{
    lemma_handle_of_token(n);
    let m1 = dirs.insert(n, Cursor::Pending(d));
    let m2 = m1.insert(n, Cursor::Drained);
    assert(m2.remove(n) =~= dirs.remove(n));
}

/// The file-transfer handler of one channel.
pub struct SftpSession<F, D> {
    version: Option<u32>,
    dir_handles: HashMap<u32, Cursor<D>>,
    file_handles: HashMap<u32, F>,
    handle_counter: u32,
}

impl<F, D> SftpSession<F, D> {
    /// Every live handle was allocated already, and no handle names both an
    /// open file and a directory cursor.
    #[verifier::type_invariant]
    spec fn inv(&self) -> bool {
        &&& forall|k: u32| #[trigger]
            self.file_handles@.contains_key(k) ==> 1 <= k <= self.handle_counter
                && !self.dir_handles@.contains_key(k)
        &&& forall|k: u32| #[trigger]
            self.dir_handles@.contains_key(k) ==> 1 <= k <= self.handle_counter
    }

    /// The protocol version the client announced, once it has.
    pub closed spec fn spec_version(&self) -> Option<u32> {
        self.version
    }

    /// The open files, by handle number.
    pub closed spec fn files(&self) -> Map<u32, F> {
        self.file_handles@
    }

    /// The directory cursors, by handle number.
    pub closed spec fn dirs(&self) -> Map<u32, Cursor<D>> {
        self.dir_handles@
    }

    /// The number of handles allocated so far; the last one is this number.
    pub closed spec fn counter(&self) -> u32 {
        self.handle_counter
    }

    /// Every live handle number was allocated already, and no number names
    /// both an open file and a directory cursor.
    pub open spec fn handles_consistent(&self) -> bool {
        &&& forall|k: u32| #[trigger]
            self.files().contains_key(k) ==> 1 <= k <= self.counter() && !self.dirs().contains_key(
                k,
            )
        &&& forall|k: u32| #[trigger] self.dirs().contains_key(k) ==> 1 <= k <= self.counter()
    }

    /// The handle tables of every handler are consistent; a verified caller
    /// calls this to learn it of a handler it holds. It does no work.
    pub fn handles_are_consistent(&self)
        ensures
            self.handles_consistent(),
    {
        proof {
            use_type_invariant(self);
        }
    }

    /// Whether handle number `n` names an open file or a directory cursor.
    pub open spec fn is_live(&self, n: u32) -> bool {
        self.files().contains_key(n) || self.dirs().contains_key(n)
    }

    /// The open file that the token `h` names, if any.
    pub open spec fn file_named(&self, h: Seq<char>) -> Option<F> {
        match handle_of(h) {
            Some(n) => if self.files().contains_key(n) {
                Some(self.files()[n])
            } else {
                None
            },
            None => None,
        }
    }

    /// A handler before the version handshake, with no handles.
    pub fn new() -> (r: Self)
        ensures
            r.spec_version() is None,
            r.files() == Map::<u32, F>::empty(),
            r.dirs() == Map::<u32, Cursor<D>>::empty(),
            r.counter() == 0,
    {
        SftpSession {
            version: None,
            dir_handles: HashMap::new(),
            file_handles: HashMap::new(),
            handle_counter: 0,
        }
    }

    /// The protocol version the client announced, once it has.
    pub fn version(&self) -> (r: Option<u32>)
        ensures
            r == self.spec_version(),
    {
        self.version
    }

    /// The version handshake: it is recorded once; a second one is a protocol
    /// violation that ends the session.
    pub fn init(&mut self, version: u32) -> (r: Result<(), Status>)
        ensures
            old(self).spec_version() is Some ==> r == Err::<(), Status>(Status::ConnectionLost)
                && final(self).spec_version() == old(self).spec_version(),
            old(self).spec_version() is None ==> r is Ok && final(self).spec_version() == Some(
                version,
            ),
            final(self).files() == old(self).files(),
            final(self).dirs() == old(self).dirs(),
            final(self).counter() == old(self).counter(),
    {
        proof {
            use_type_invariant(&*self);
        }
        if self.version.is_some() {
            return Err(Status::ConnectionLost);
        }
        self.version = Some(version);
        Ok(())
    }

    /// Allocates the next handle number, which no live handle has.
    fn new_handle(&mut self) -> (r: Option<u32>)
        ensures
            old(self).counter() < u32::MAX ==> r == Some((old(self).counter() + 1) as u32)
                && final(self).counter() == old(self).counter() + 1,
            old(self).counter() == u32::MAX ==> r is None && final(self).counter()
                == old(self).counter(),
            final(self).files() == old(self).files(),
            final(self).dirs() == old(self).dirs(),
            final(self).spec_version() == old(self).spec_version(),
    {
        proof {
            use_type_invariant(&*self);
        }
        if self.handle_counter == u32::MAX {
            return None;
        }
        self.handle_counter = self.handle_counter + 1;
        Some(self.handle_counter)
    }

    /// Adds an open file under an allocated number that no cursor holds.
    fn put_file(&mut self, n: u32, f: F)
        requires
            1 <= n <= old(self).counter(),
            !old(self).dirs().contains_key(n),
        ensures
            final(self).files() == old(self).files().insert(n, f),
            final(self).dirs() == old(self).dirs(),
            final(self).counter() == old(self).counter(),
            final(self).spec_version() == old(self).spec_version(),
    {
        proof {
            use_type_invariant(&*self);
        }
        let mut files = HashMap::new();
        std::mem::swap(&mut files, &mut self.file_handles);
        files.insert(n, f);
        std::mem::swap(&mut files, &mut self.file_handles);
    }

    /// Takes the open file under a number out of the table.
    fn take_file(&mut self, n: u32) -> (r: Option<F>)
        ensures
            final(self).files() == old(self).files().remove(n),
            r == (if old(self).files().contains_key(n) {
                Some(old(self).files()[n])
            } else {
                None
            }),
            final(self).dirs() == old(self).dirs(),
            final(self).counter() == old(self).counter(),
            final(self).spec_version() == old(self).spec_version(),
    {
        proof {
            use_type_invariant(&*self);
        }
        let mut files = HashMap::new();
        std::mem::swap(&mut files, &mut self.file_handles);
        let r = files.remove(&n);
        std::mem::swap(&mut files, &mut self.file_handles);
        r
    }

    /// Sets the cursor under an allocated number that no open file holds.
    fn put_dir(&mut self, n: u32, c: Cursor<D>)
        requires
            1 <= n <= old(self).counter(),
            !old(self).files().contains_key(n),
        ensures
            final(self).dirs() == old(self).dirs().insert(n, c),
            final(self).files() == old(self).files(),
            final(self).counter() == old(self).counter(),
            final(self).spec_version() == old(self).spec_version(),
    {
        proof {
            use_type_invariant(&*self);
        }
        let mut dirs = HashMap::new();
        std::mem::swap(&mut dirs, &mut self.dir_handles);
        dirs.insert(n, c);
        std::mem::swap(&mut dirs, &mut self.dir_handles);
    }

    /// Takes the cursor under a number out of the table.
    fn take_dir(&mut self, n: u32) -> (r: Option<Cursor<D>>)
        ensures
            final(self).dirs() == old(self).dirs().remove(n),
            r == (if old(self).dirs().contains_key(n) {
                Some(old(self).dirs()[n])
            } else {
                None
            }),
            final(self).files() == old(self).files(),
            final(self).counter() == old(self).counter(),
            final(self).spec_version() == old(self).spec_version(),
    {
        proof {
            use_type_invariant(&*self);
        }
        let mut dirs = HashMap::new();
        std::mem::swap(&mut dirs, &mut self.dir_handles);
        let r = dirs.remove(&n);
        std::mem::swap(&mut dirs, &mut self.dir_handles);
        r
    }

    /// Binds a file that the caller opened (or failed to open) to a fresh
    /// handle. A handle number is spent even when the open failed; when the
    /// numbers are exhausted no handle is given out.
    pub fn open(&mut self, opened: Result<F, IoFailure>) -> (r: Result<String, Status>)
        ensures
            final(self).dirs() == old(self).dirs(),
            final(self).spec_version() == old(self).spec_version(),
            old(self).counter() == u32::MAX ==> r == Err::<String, Status>(Status::Failure)
                && final(self).files() == old(self).files() && final(self).counter()
                == old(self).counter(),
            old(self).counter() < u32::MAX ==> {
                let n = (old(self).counter() + 1) as u32;
                &&& final(self).counter() == n
                &&& !old(self).is_live(n)
                &&& match opened {
                    Ok(f) => r matches Ok(t) && t@ == decimal(n as nat) && final(self).files()
                        == old(self).files().insert(n, f),
                    Err(_) => r == Err::<String, Status>(Status::Failure) && final(self).files()
                        == old(self).files(),
                }
            },
    {
        proof {
            use_type_invariant(&*self);
        }
        let n = match self.new_handle() {
            Some(n) => n,
            None => return Err(Status::Failure),
        };
        match opened {
            Ok(f) => {
                self.put_file(n, f);
                Ok(handle_token(n))
            },
            Err(_) => Err(Status::Failure),
        }
    }

    /// Binds a directory that the caller opened (or failed to open) to a fresh
    /// handle with a pending cursor; its entries are read at the first
    /// `readdir`. A denied permission is reported as such.
    pub fn opendir(&mut self, opened: Result<D, IoFailure>) -> (r: Result<String, Status>)
        ensures
            final(self).files() == old(self).files(),
            final(self).spec_version() == old(self).spec_version(),
            old(self).counter() == u32::MAX ==> r == Err::<String, Status>(Status::Failure)
                && final(self).dirs() == old(self).dirs() && final(self).counter()
                == old(self).counter(),
            old(self).counter() < u32::MAX ==> {
                let n = (old(self).counter() + 1) as u32;
                &&& final(self).counter() == n
                &&& !old(self).is_live(n)
                &&& match opened {
                    Ok(d) => r matches Ok(t) && t@ == decimal(n as nat) && final(self).dirs()
                        == old(self).dirs().insert(n, Cursor::Pending(d)),
                    Err(e) => r == Err::<String, Status>(spec_failure_status(FsOp::Listing, e))
                        && final(self).dirs() == old(self).dirs(),
                }
            },
    {
        proof {
            use_type_invariant(&*self);
        }
        let n = match self.new_handle() {
            Some(n) => n,
            None => return Err(Status::Failure),
        };
        match opened {
            Ok(d) => {
                self.put_dir(n, Cursor::Pending(d));
                Ok(handle_token(n))
            },
            Err(e) => Err(failure_status(FsOp::Listing, e)),
        }
    }

    /// The open file that a token names; reads, writes and fstat go through it.
    pub fn file(&self, handle: &str) -> (r: Option<&F>)
        ensures
            match r {
                Some(f) => self.file_named(handle@) == Some(*f),
                None => self.file_named(handle@) is None,
            },
    {
        match parse_handle(handle) {
            Some(n) => self.file_handles.get(&n),
            None => None,
        }
    }

    /// Closes a handle, whichever table holds it; an unknown handle fails.
    pub fn close(&mut self, handle: &str) -> (r: Result<(), Status>)
        ensures
            final(self).counter() == old(self).counter(),
            final(self).spec_version() == old(self).spec_version(),
            match handle_of(handle@) {
                Some(n) if old(self).is_live(n) => r is Ok && final(self).files() == old(
                    self,
                ).files().remove(n) && final(self).dirs() == old(self).dirs().remove(n),
                _ => r == Err::<(), Status>(Status::Failure) && final(self).files() == old(
                    self,
                ).files() && final(self).dirs() == old(self).dirs(),
            },
    {
        let n = match parse_handle(handle) {
            Some(n) => n,
            None => return Err(Status::Failure),
        };
        proof {
            use_type_invariant(&*self);
        }
        if self.take_file(n).is_some() {
            assert(old(self).dirs().remove(n) =~= old(self).dirs());
            return Ok(());
        }
        if self.take_dir(n).is_some() {
            return Ok(());
        }
        Err(Status::Failure)
    }

    /// Steps the directory cursor that a token names: the first call hands
    /// out the listing source, the next one reports the end and drops the
    /// handle.
    pub fn readdir(&mut self, handle: &str) -> (r: ReadDirStep<D>)
        ensures
            (r, final(self).dirs()) == readdir_effect(old(self).dirs(), handle@),
            final(self).files() == old(self).files(),
            final(self).counter() == old(self).counter(),
            final(self).spec_version() == old(self).spec_version(),
    {
        let n = match parse_handle(handle) {
            Some(n) => n,
            None => return ReadDirStep::Invalid,
        };
        proof {
            use_type_invariant(&*self);
        }
        match self.take_dir(n) {
            None => ReadDirStep::Invalid,
            Some(Cursor::Pending(d)) => {
                self.put_dir(n, Cursor::Drained);
                assert(self.dirs() =~= old(self).dirs().insert(n, Cursor::Drained));
                ReadDirStep::List(d)
            },
            Some(Cursor::Drained) => ReadDirStep::Finished,
        }
    }

    /// Reports that the listing handed out by `readdir` on this token has been
    /// read, and whether it had no entries. An empty listing is the end of the
    /// directory, so its handle is dropped at once.
    pub fn listed(&mut self, handle: &str, empty: bool)
        ensures
            final(self).dirs() == listed_effect(old(self).dirs(), handle@, empty),
            final(self).files() == old(self).files(),
            final(self).counter() == old(self).counter(),
            final(self).spec_version() == old(self).spec_version(),
    {
        if !empty {
            return;
        }
        let n = match parse_handle(handle) {
            Some(n) => n,
            None => return,
        };
        proof {
            use_type_invariant(&*self);
        }
        match self.take_dir(n) {
            None => {},
            Some(Cursor::Drained) => {},
            Some(Cursor::Pending(d)) => {
                self.put_dir(n, Cursor::Pending(d));
                assert(self.dirs() =~= old(self).dirs());
            },
        }
    }

    /// The answer to any operation the handler does not offer.
    pub fn unimplemented(&self) -> (r: Status)
        ensures
            r == Status::OpUnsupported,
    {
        Status::OpUnsupported
    }
}

} // verus!
