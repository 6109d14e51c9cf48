//! The backend that keeps content in files below one directory.

use crate::storage::exchange::Step;
use crate::storage::paths::{join, joined};
use crate::storage::storage_manager::StorageTrait;
use vstd::prelude::*;

verus! {

/// The storage backend that keeps content in files below one directory.
#[derive(Debug)]
pub struct S3SystemStorage {
    base_dir: String,
}

impl S3SystemStorage {
    /// The directory below which the files are kept.
    pub closed spec fn base(&self) -> Seq<char> {
        self.base_dir@
    }

    /// The backend rooted at `base_dir` as read from `working_dir`. The root
    /// is fixed here, once.
    pub fn new(working_dir: &str, base_dir: String) -> (r: Self)
        ensures
            r.base() == joined(working_dir@, base_dir@),
    {
        S3SystemStorage { base_dir: join(working_dir, base_dir.as_str()) }
    }

    /// The root, as text.
    pub fn base_dir(&self) -> (r: &str)
        ensures
            r@ == self.base(),
    {
        self.base_dir.as_str()
    }

    /// The place in the file system that the storage path `path` names.
    pub fn resolve(&self, path: &str) -> (r: String)
        ensures
            r@ == joined(self.base(), path@),
    {
        join(self.base_dir.as_str(), path)
    }
}

impl StorageTrait for S3SystemStorage {
    /// Every storage path is read from the root. Nothing keeps the place
    /// under the root: an absolute path, and one that climbs with `..`,
    /// names a place elsewhere.
    open spec fn place(&self, path: Seq<char>) -> Seq<char> {
        joined(self.base(), path)
    }

    fn get(&self, path: &str) -> (r: Step) {
        Step::get(self.resolve(path))
    }

    fn put(&self, path: &str, data: Vec<u8>) -> (r: Step) {
        Step::put(self.resolve(path), data)
    }

    fn delete(&self, path: &str) -> (r: Step) {
        Step::delete(self.resolve(path))
    }

    fn size(&self, path: &str) -> (r: Step) {
        Step::size(self.resolve(path))
    }

    fn get_files(&self, path: &str) -> (r: Step) {
        Step::get_files(self.resolve(path))
    }
}

} // verus!
