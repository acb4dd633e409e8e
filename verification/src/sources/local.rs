//! Local filesystem source: a configured list of folder entries on the
//! machine itself.

use vstd::prelude::*;
use vstd::string::*;

use crate::folder::{FolderEntry, FolderKind};

verus! {

/// A folder on the local filesystem.
#[derive(Debug)]
pub struct LocalFolder {
    pub path: String,
}

impl LocalFolder {
    pub fn new(path: &str) -> (r: LocalFolder)
        ensures
            r.path@ == path@,
    {
        LocalFolder { path: String::from_str(path) }
    }

    /// The path a backup of this folder addresses: the configured path
    /// itself.
    pub fn get_path(&self) -> (r: String)
        ensures
            r == self.path,
    {
        self.path.clone()
    }

    pub fn from_str(s: &str) -> (r: LocalFolder)
        ensures
            r.path@ == s@,
    {
        LocalFolder::new(s)
    }

    pub fn duplicate(&self) -> (r: LocalFolder)
        ensures
            r == *self,
    {
        LocalFolder { path: self.path.clone() }
    }
}

/// A group of local folder entries.
#[derive(Debug)]
pub struct LocalBackup {
    pub folders: Vec<FolderEntry<LocalFolder>>,
}

impl LocalBackup {
    /// Enumerate: each configured entry, with its tags and options, as a
    /// general folder entry.
    pub fn get_folders(&self) -> (r: Vec<FolderEntry<FolderKind>>)
        ensures
            r@.len() == self.folders@.len(),
            forall|i: int| 0 <= i < r@.len() ==> {
                &&& (#[trigger] r@[i]).tags@ == self.folders@[i].tags@
                &&& r@[i].options == self.folders@[i].options
                &&& r@[i].folder == FolderKind::Local(self.folders@[i].folder)
            },
    {
        let mut v: Vec<FolderEntry<FolderKind>> = Vec::new();
        let n = self.folders.len();
        let mut i: usize = 0;
        while i < n
            invariant
                0 <= i <= n,
                n == self.folders@.len(),
                v@.len() == i,
                forall|k: int| 0 <= k < i ==> {
                    &&& (#[trigger] v@[k]).tags@ == self.folders@[k].tags@
                    &&& v@[k].options == self.folders@[k].options
                    &&& v@[k].folder == FolderKind::Local(self.folders@[k].folder)
                },
            decreases n - i,
        {
            let f = &self.folders[i];
            let fe = FolderEntry {
                tags: crate::folder::dup_string_vec(&f.tags),
                options: f.options,
                folder: FolderKind::Local(f.folder.duplicate()),
            };
            v.push(fe);
            i = i + 1;
        }
        v
    }
}

} // verus!
