//! The storage capability: five operations on byte content kept under
//! relative, slash-delimited paths, whatever the backend behind them.

use crate::definitions::Signal;
use crate::storage::exchange::{Step, StepView};
use bytes::Bytes;
use vstd::prelude::*;
use vstd::string::StringExecFns;

verus! {

/// `bytes::Bytes`, the shared byte buffer in which content is handed out.
/// Declared so that it can stand in signatures; of its inside only
/// [`bytes_contents`] speaks.
#[verifier::external_type_specification]
#[verifier::external_body]
pub struct ExBytes(bytes::Bytes);

/// The bytes that a `Bytes` value holds, in order.
pub uninterp spec fn bytes_contents(content: Bytes) -> Seq<u8>;

/// `Bytes::from` on a vector. Trusted: that the value holds the vector's
/// bytes, in order, and nothing else.
#[verifier::external_body]
pub(crate) fn bytes_from_vec(data: Vec<u8>) -> (content: Bytes)
    ensures
        bytes_contents(content) == data@,
{
    Bytes::from(data)
}

/// Why a storage operation failed.
#[derive(Debug, Clone, Copy, PartialEq, Eq, Structural)]
pub enum StorageFailure {
    /// There is nothing under the path.
    NotFound,
    /// The backend failed in some other way.
    IoFailure,
    /// The backend may not touch the path.
    PermissionDenied,
}

/// One of the five operations, with its arguments. Paths are relative to the
/// backend's root. Whether a user may touch a path is decided by whoever
/// builds the operation, never by the storage below.
#[derive(Debug)]
pub enum StorageOp {
    /// Read the content under `path`.
    Get { path: String },
    /// Put `data` under `path`, in place of what was there, making the
    /// directories that lead to it where they are missing.
    Put { path: String, data: Vec<u8> },
    /// Remove the content under `path`.
    Delete { path: String },
    /// The number of bytes under `path`: of the file, or of all files at any
    /// depth below the directory.
    Size { path: String },
    /// The names directly under the directory `path`.
    GetFiles { path: String },
}

/// What a [`StorageOp`] holds, as mathematical values.
pub enum StorageOpView {
    Get { path: Seq<char> },
    Put { path: Seq<char>, data: Seq<u8> },
    Delete { path: Seq<char> },
    Size { path: Seq<char> },
    GetFiles { path: Seq<char> },
}

impl View for StorageOp {
    type V = StorageOpView;

    open spec fn view(&self) -> StorageOpView {
        match self {
            StorageOp::Get { path } => StorageOpView::Get { path: path@ },
            StorageOp::Put { path, data } => StorageOpView::Put { path: path@, data: data@ },
            StorageOp::Delete { path } => StorageOpView::Delete { path: path@ },
            StorageOp::Size { path } => StorageOpView::Size { path: path@ },
            StorageOp::GetFiles { path } => StorageOpView::GetFiles { path: path@ },
        }
    }
}

/// How a storage operation ended.
#[derive(Debug)]
pub enum StorageOutcome {
    /// Of `Get`: the content, or `None` where there is nothing under the path.
    Content(Option<Bytes>),
    /// Of `Put`: the content is stored.
    Stored,
    /// Of `Delete`: the content is gone.
    Deleted,
    /// Of `Size`: the number of bytes.
    Size(u64),
    /// Of `GetFiles`: the names, or `None` where the path is no directory.
    Files(Option<Vec<String>>),
    /// Of any: the operation failed.
    Failed(StorageFailure),
}

/// What a [`StorageOutcome`] holds, as mathematical values.
pub enum StorageOutcomeView {
    Content(Option<Seq<u8>>),
    Stored,
    Deleted,
    Size(u64),
    Files(Option<Seq<Seq<char>>>),
    Failed(StorageFailure),
}

impl View for StorageOutcome {
    type V = StorageOutcomeView;

    open spec fn view(&self) -> StorageOutcomeView {
        match self {
            StorageOutcome::Content(content) => StorageOutcomeView::Content(
                match content {
                    Some(bytes) => Some(bytes_contents(*bytes)),
                    None => None,
                },
            ),
            StorageOutcome::Stored => StorageOutcomeView::Stored,
            StorageOutcome::Deleted => StorageOutcomeView::Deleted,
            StorageOutcome::Size(bytes) => StorageOutcomeView::Size(*bytes),
            StorageOutcome::Files(names) => StorageOutcomeView::Files(names.deep_view()),
            StorageOutcome::Failed(failure) => StorageOutcomeView::Failed(*failure),
        }
    }
}

impl StorageFailure {
    /// What a caller is told: nothing there, or that the service failed.
    pub open spec fn signal_spec(self) -> Signal {
        match self {
            StorageFailure::NotFound => Signal::NotFound,
            _ => Signal::InternalError,
        }
    }

    /// What a caller is told of this failure.
    pub fn signal(&self) -> (r: Signal)
        ensures
            r == self.signal_spec(),
    {
        match self {
            StorageFailure::NotFound => Signal::NotFound,
            StorageFailure::IoFailure => Signal::InternalError,
            StorageFailure::PermissionDenied => Signal::InternalError,
        }
    }
}

/// The folder, with its slash, in which every user's picture is kept.
pub const USER_IMAGES: &'static str = "userimages/";

/// The storage path of a user's picture: one object per user, under the
/// user's key in the picture folder.
pub fn user_image_path(user_id: &str) -> (path: String)
    ensures
        path@ == USER_IMAGES@ + user_id@,
{
    String::from_str(USER_IMAGES).concat(user_id)
}

/// A storage backend: for each of the five operations it says how the
/// operation opens. Callers depend on this and on no backend in particular.
pub trait StorageTrait {
    /// The place at which this backend keeps what is stored under `path`.
    spec fn place(&self, path: Seq<char>) -> Seq<char>;

    /// Opens a `Get` of `path`.
    fn get(&self, path: &str) -> (r: Step)
        ensures
            r@ == StepView::opening(StorageOpView::Get { path: self.place(path@) }),
    ;

    /// Opens a `Put` of `data` under `path`.
    fn put(&self, path: &str, data: Vec<u8>) -> (r: Step)
        ensures
            r@ == StepView::opening(StorageOpView::Put { path: self.place(path@), data: data@ }),
    ;

    /// Opens a `Delete` of `path`.
    fn delete(&self, path: &str) -> (r: Step)
        ensures
            r@ == StepView::opening(StorageOpView::Delete { path: self.place(path@) }),
    ;

    /// Opens a `Size` of `path`.
    fn size(&self, path: &str) -> (r: Step)
        ensures
            r@ == StepView::opening(StorageOpView::Size { path: self.place(path@) }),
    ;

    /// Opens a `GetFiles` of `path`.
    fn get_files(&self, path: &str) -> (r: Step)
        ensures
            r@ == StepView::opening(StorageOpView::GetFiles { path: self.place(path@) }),
    ;
}

impl StorageOpView {
    /// This operation on the place where `backend` keeps its path.
    pub open spec fn placed<S: StorageTrait>(self, backend: S) -> StorageOpView {
        match self {
            StorageOpView::Get { path } => StorageOpView::Get { path: backend.place(path) },
            StorageOpView::Put { path, data } => StorageOpView::Put {
                path: backend.place(path),
                data,
            },
            StorageOpView::Delete { path } => StorageOpView::Delete { path: backend.place(path) },
            StorageOpView::Size { path } => StorageOpView::Size { path: backend.place(path) },
            StorageOpView::GetFiles { path } => StorageOpView::GetFiles {
                path: backend.place(path),
            },
        }
    }
}

/// The one entry point to storage: it hands every operation to the backend
/// it was built with, and adds nothing of its own. It tries nothing twice.
pub struct StorageManager<S: StorageTrait> {
    storage: S,
}

impl<S: StorageTrait> StorageManager<S> {
    /// The backend behind this entry point.
    pub closed spec fn backend(&self) -> S {
        self.storage
    }

    /// The entry point to `storage`.
    pub fn new(storage: S) -> (r: Self)
        ensures
            r.backend() == storage,
    {
        StorageManager { storage }
    }

    /// Opens the reading of the content under `path`.
    pub fn get(&self, path: &str) -> (r: Step)
        ensures
            r@ == StepView::opening(StorageOpView::Get { path: self.backend().place(path@) }),
    {
        self.storage.get(path)
    }

    /// Opens the writing of `data` under `path`.
    pub fn put(&self, path: &str, data: Vec<u8>) -> (r: Step)
        ensures
            r@ == StepView::opening(
                StorageOpView::Put { path: self.backend().place(path@), data: data@ },
            ),
    {
        self.storage.put(path, data)
    }

    /// Opens the removal of the content under `path`.
    pub fn delete(&self, path: &str) -> (r: Step)
        ensures
            r@ == StepView::opening(StorageOpView::Delete { path: self.backend().place(path@) }),
    {
        self.storage.delete(path)
    }

    /// Opens the measuring of what lies under `path`.
    pub fn size(&self, path: &str) -> (r: Step)
        ensures
            r@ == StepView::opening(StorageOpView::Size { path: self.backend().place(path@) }),
    {
        self.storage.size(path)
    }

    /// Opens the listing of the names directly under `path`.
    pub fn get_files(&self, path: &str) -> (r: Step)
        ensures
            r@ == StepView::opening(
                StorageOpView::GetFiles { path: self.backend().place(path@) },
            ),
    {
        self.storage.get_files(path)
    }

    /// Opens `op`, whichever of the five it is.
    pub fn begin(&self, op: StorageOp) -> (r: Step)
        ensures
            r@ == StepView::opening(op@.placed(self.backend())),
    {
        match op {
            StorageOp::Get { path } => self.get(path.as_str()),
            StorageOp::Put { path, data } => self.put(path.as_str(), data),
            StorageOp::Delete { path } => self.delete(path.as_str()),
            StorageOp::Size { path } => self.size(path.as_str()),
            StorageOp::GetFiles { path } => self.get_files(path.as_str()),
        }
    }
}

} // verus!
