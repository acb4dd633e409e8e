//! The enumerable unit of a backup run: a folder with tags and
//! per-entry options, over one of several folder backends.

use vstd::prelude::*;
use vstd::string::*;

use crate::sources::local::LocalFolder;
use crate::sources::psql::PsqlFolder;
use crate::sources::ssh::SSHFolder;

verus! {

/// `p` with every leading path separator removed.
pub open spec fn spec_strip_leading_slash(p: Seq<char>) -> Seq<char>
    decreases p.len(),
{
    if p.len() > 0 && p[0] == '/' {
        spec_strip_leading_slash(p.drop_first())
    } else {
        p
    }
}

/// `rel` rooted under `prefix`, inserting a separator where `prefix`
/// does not already end in one.
pub open spec fn spec_join_path(prefix: Seq<char>, rel: Seq<char>) -> Seq<char> {
    if prefix.len() == 0 {
        rel
    } else if prefix.last() == '/' {
        prefix + rel
    } else {
        prefix + seq!['/'] + rel
    }
}

/// An exact copy of a vector of strings.
pub fn dup_string_vec(v: &Vec<String>) -> (r: Vec<String>)
    ensures
        r@ == v@,
{
    let mut r: Vec<String> = Vec::new();
    let n = v.len();
    let mut i: usize = 0;
    while i < n
        invariant
            0 <= i <= n,
            n == v@.len(),
            r@ == v@.take(i as int),
        decreases n - i,
    {
        r.push(v[i].clone());
        proof {
            assert(r@ =~= v@.take(i as int + 1));
        }
        i = i + 1;
    }
    proof {
        assert(v@.take(n as int) =~= v@);
    }
    r
}

/// Per-entry options.
#[derive(Clone, Copy, Debug, PartialEq, Eq, Structural)]
pub struct FolderOptions {
    /// Leave this entry out of size reporting (it is still backed up).
    pub skip_size: bool,
}

/// One of the folder backends.
#[derive(Debug)]
pub enum FolderKind {
    Local(LocalFolder),
    Ssh(SSHFolder),
    Dump(PsqlFolder),
}

/// The absolute path a folder of this shape resolves to.
pub open spec fn spec_view_path(f: FolderView) -> Seq<char> {
    match f {
        FolderView::Local { path } => path,
        FolderView::Ssh { path, prefix, .. } => spec_join_path(
            prefix,
            spec_strip_leading_slash(path),
        ),
        FolderView::Dump { path } => path,
    }
}

impl FolderKind {
    /// The absolute path this folder resolves to.
    pub open spec fn spec_path(self) -> Seq<char> {
        spec_view_path(self@)
    }

    pub fn get_path(&self) -> (r: String)
        ensures
            r@ == self.spec_path(),
    {
        match self {
            FolderKind::Local(f) => f.get_path(),
            FolderKind::Ssh(f) => f.get_path(),
            FolderKind::Dump(f) => f.get_path(),
        }
    }

    pub fn duplicate(&self) -> (r: FolderKind)
        ensures
            r == *self,
    {
        match self {
            FolderKind::Local(f) => FolderKind::Local(f.duplicate()),
            FolderKind::Ssh(f) => FolderKind::Ssh(f.duplicate()),
            FolderKind::Dump(f) => FolderKind::Dump(f.duplicate()),
        }
    }
}

/// The mathematical shape of a folder backend.
pub enum FolderView {
    Local { path: Seq<char> },
    Ssh { path: Seq<char>, prefix: Seq<char>, target: Seq<char> },
    Dump { path: Seq<char> },
}

impl View for FolderKind {
    type V = FolderView;

    open spec fn view(&self) -> FolderView {
        match *self {
            FolderKind::Local(f) => FolderView::Local { path: f.path@ },
            FolderKind::Ssh(f) => FolderView::Ssh {
                path: f.path@,
                prefix: f.prefix@,
                target: f.target@,
            },
            FolderKind::Dump(f) => FolderView::Dump { path: f.path@ },
        }
    }
}

impl DeepView for FolderKind {
    type V = FolderView;

    open spec fn deep_view(&self) -> FolderView {
        self.view()
    }
}

/// The atomic enumerable unit yielded by a source: a folder, the tags
/// that drive inclusion filtering, and per-entry options.
#[derive(Debug)]
pub struct FolderEntry<T> {
    pub tags: Vec<String>,
    pub options: Option<FolderOptions>,
    pub folder: T,
}

impl FolderEntry<LocalFolder> {
    /// An entry for a bare local path, with no tags and no options.
    pub fn from_str(value: &str) -> (r: FolderEntry<LocalFolder>)
        ensures
            r.tags@ == Seq::<String>::empty(),
            r.options is None,
            r.folder.path@ == value@,
    {
        FolderEntry { tags: Vec::new(), options: None, folder: LocalFolder::from_str(value) }
    }
}

impl FolderEntry<SSHFolder> {
    /// An entry for a bare remote path, with no tags and no options.
    pub fn from_str(value: &str) -> (r: FolderEntry<SSHFolder>)
        ensures
            r.tags@ == Seq::<String>::empty(),
            r.options is None,
            r.folder.path@ == value@,
            r.folder.prefix@ == Seq::<char>::empty(),
            r.folder.target@ == Seq::<char>::empty(),
    {
        FolderEntry { tags: Vec::new(), options: None, folder: SSHFolder::from_str(value) }
    }
}

/// The mathematical shape of one enumerated entry.
pub struct EntryView {
    pub tags: Seq<Seq<char>>,
    pub options: Option<FolderOptions>,
    pub folder: FolderView,
}

impl View for FolderEntry<FolderKind> {
    type V = EntryView;

    open spec fn view(&self) -> EntryView {
        EntryView { tags: self.tags.deep_view(), options: self.options, folder: self.folder@ }
    }
}

impl DeepView for FolderEntry<FolderKind> {
    type V = EntryView;

    open spec fn deep_view(&self) -> EntryView {
        self.view()
    }
}

impl FolderEntry<FolderKind> {
    pub fn duplicate(&self) -> (r: FolderEntry<FolderKind>)
        ensures
            r@ == (*self)@,
            r.folder == self.folder,
            r.options == self.options,
            r.tags@ == self.tags@,
    {
        let r = FolderEntry {
            tags: dup_string_vec(&self.tags),
            options: self.options,
            folder: self.folder.duplicate(),
        };
        proof {
            assert(r.tags.deep_view() =~= self.tags.deep_view());
        }
        r
    }

    /// Whether this entry is left out of size reporting.
    pub open spec fn spec_skip_size(self) -> bool {
        match self.options {
            Some(o) => o.skip_size,
            None => false,
        }
    }

    pub fn skip_size(&self) -> (r: bool)
        ensures
            r == self.spec_skip_size(),
    {
        match &self.options {
            Some(o) => o.skip_size,
            None => false,
        }
    }
}

} // verus!
