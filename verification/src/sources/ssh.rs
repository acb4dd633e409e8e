//! SSH-mounted remote source: folders on a remote host, made local
//! through a fuse mount under a per-host mount point.

use vstd::prelude::*;
use vstd::string::*;

use crate::cmd::CmdOutput;
use crate::folder::{spec_join_path, spec_strip_leading_slash, FolderEntry, FolderKind};
use crate::text;

verus! {

/// A folder on a remote host.  `path` is the configured remote path;
/// `prefix` and `target` are filled in at enumeration time with the
/// local mount point and the remote host.
#[derive(Debug)]
pub struct SSHFolder {
    pub path: String,
    pub prefix: String,
    pub target: String,
}

/// `p` begins with `i` leading separators and then, if anything is
/// left, a non-separator: stripping them leaves the rest.
proof fn lemma_strip_leading(p: Seq<char>, i: int)
    requires
        0 <= i <= p.len(),
        forall|j: int| 0 <= j < i ==> p[j] == '/',
        i < p.len() ==> p[i] != '/',
    ensures
        spec_strip_leading_slash(p) == p.subrange(i, p.len() as int),
    decreases i,
{
    if i == 0 {
        assert(p.subrange(0, p.len() as int) =~= p);
    } else {
        let q = p.drop_first();
        assert(forall|j: int| 0 <= j < i - 1 ==> q[j] == '/');
        lemma_strip_leading(q, i - 1);
        assert(q.subrange(i - 1, q.len() as int) =~= p.subrange(i, p.len() as int));
    }
}

impl SSHFolder {
    /// The resolved local path of this folder: the configured remote
    /// path, leading separators stripped, rooted under the mount point.
    pub open spec fn spec_path(self) -> Seq<char> {
        spec_join_path(self.prefix@, spec_strip_leading_slash(self.path@))
    }

    pub fn get_path(&self) -> (r: String)
        ensures
            r@ == self.spec_path(),
    {
        let n = self.path.unicode_len();
        let mut i: usize = 0;
        while i < n && self.path.as_str().get_char(i) == '/'
            invariant
                0 <= i <= n,
                n == self.path@.len(),
                forall|j: int| 0 <= j < i ==> self.path@[j] == '/',
            decreases n - i,
        {
            i = i + 1;
        }
        proof {
            lemma_strip_leading(self.path@, i as int);
        }
        let stripped = self.path.as_str().substring_char(i, n);
        let plen = self.prefix.unicode_len();
        if plen == 0 {
            String::from_str(stripped)
        } else if self.prefix.as_str().get_char(plen - 1) == '/' {
            self.prefix.clone().concat(stripped)
        } else {
            let r = self.prefix.clone().concat("/").concat(stripped);
            proof {
                reveal_strlit("/");
                assert(r@ =~= self.prefix@ + seq!['/'] + stripped@);
            }
            r
        }
    }

    /// The remote size-query command: one `du` on the remote host,
    /// summed, first column only.
    pub fn du_cmd(&self) -> (r: String)
        ensures
            r@ == "ssh "@ + self.target@ + " du -s "@ + self.path@ + " 2>/dev/null | cut -f1"@,
    {
        String::from_str("ssh ")
            .concat(self.target.as_str())
            .concat(" du -s ")
            .concat(self.path.as_str())
            .concat(" 2>/dev/null | cut -f1")
    }

    /// What the size query's output is worth: its numeric text on
    /// success, zero on failure or unparsable output.
    pub open spec fn spec_du_size(output: CmdOutput) -> u64 {
        if output.success {
            let t = output.stdout@.filter(|c: char| !text::spec_is_space(c));
            if t.len() > 0 && text::spec_all_digits(t) && text::spec_dec_val(t) <= u64::MAX {
                text::spec_dec_val(t) as u64
            } else {
                0
            }
        } else {
            0
        }
    }

    /// The folder's size as reported by the remote `du` invocation; a
    /// size that cannot be computed counts as zero.
    pub fn size_from_output(&self, output: &CmdOutput) -> (r: u64)
        ensures
            r == SSHFolder::spec_du_size(*output),
    {
        if output.success {
            let cleaned = text::remove_whitespace(output.stdout.as_str());
            match text::parse_u64(cleaned.as_str()) {
                Some(v) => v,
                None => 0,
            }
        } else {
            0
        }
    }

    pub fn duplicate(&self) -> (r: SSHFolder)
        ensures
            r == *self,
    {
        SSHFolder {
            path: self.path.clone(),
            prefix: self.prefix.clone(),
            target: self.target.clone(),
        }
    }

    pub fn from_str(s: &str) -> (r: SSHFolder)
        ensures
            r.path@ == s@,
            r.prefix@ == Seq::<char>::empty(),
            r.target@ == Seq::<char>::empty(),
    {
        SSHFolder { path: String::from_str(s), prefix: String::new(), target: String::new() }
    }
}

/// `spec_after_first_at(t)` is the remainder of `t` after its first
/// `'@'`, or nothing when `t` has none.
pub open spec fn spec_after_first_at(t: Seq<char>) -> Option<Seq<char>>
    decreases t.len(),
{
    if t.len() == 0 {
        None
    } else if t[0] == '@' {
        Some(t.drop_first())
    } else {
        spec_after_first_at(t.drop_first())
    }
}

/// The host part of a `user@host` target; a target without `'@'` (an
/// ssh alias) is its own host part.
pub open spec fn spec_host_of_target(t: Seq<char>) -> Seq<char> {
    match spec_after_first_at(t) {
        Some(h) => h,
        None => t,
    }
}

/// With the first `'@'` of `t` at `i`, the part after it is the suffix
/// from `i + 1`.
proof fn lemma_after_first_at(t: Seq<char>, i: int)
    requires
        0 <= i < t.len(),
        t[i] == '@',
        forall|j: int| 0 <= j < i ==> t[j] != '@',
    ensures
        spec_after_first_at(t) == Some(t.subrange(i + 1, t.len() as int)),
    decreases i,
{
    if i == 0 {
        assert(t.drop_first() =~= t.subrange(1, t.len() as int));
    } else {
        let q = t.drop_first();
        assert(forall|j: int| 0 <= j < i - 1 ==> q[j] != '@');
        lemma_after_first_at(q, i - 1);
        assert(q.subrange(i, q.len() as int) =~= t.subrange(i + 1, t.len() as int));
    }
}

/// Without any `'@'` in `t`, there is no part after one.
proof fn lemma_no_at(t: Seq<char>)
    requires
        forall|j: int| 0 <= j < t.len() ==> t[j] != '@',
    ensures
        spec_after_first_at(t) is None,
    decreases t.len(),
{
    if t.len() > 0 {
        lemma_no_at(t.drop_first());
    }
}

/// An SSH source group: a remote target and its configured folder
/// entries.
#[derive(Debug)]
pub struct SSHBackup {
    pub target: String,
    pub folders: Vec<FolderEntry<SSHFolder>>,
}

impl SSHBackup {
    /// The per-host local mount point.
    pub open spec fn spec_mount_path(self) -> Seq<char> {
        "/tmp/backup/"@ + self.target@
    }

    pub fn get_mount_path(&self) -> (r: String)
        ensures
            r@ == self.spec_mount_path(),
    {
        String::from_str("/tmp/backup/").concat(self.target.as_str())
    }

    /// The fuse mount command for this target's root.
    pub fn mount_cmd(&self) -> (r: String)
        ensures
            r@ == "sshfs "@ + self.target@ + ":/ "@ + self.spec_mount_path(),
    {
        String::from_str("sshfs ")
            .concat(self.target.as_str())
            .concat(":/ ")
            .concat(self.get_mount_path().as_str())
    }

    /// The force-unmount command for the mount point.
    pub fn unmount_cmd(&self) -> (r: String)
        ensures
            r@ == "fusermount -u "@ + self.spec_mount_path(),
    {
        String::from_str("fusermount -u ").concat(self.get_mount_path().as_str())
    }

    /// The identity prefix of this source: the host part of its target.
    pub fn get_hostname(&self) -> (r: String)
        ensures
            r@ == spec_host_of_target(self.target@),
    {
        let n = self.target.unicode_len();
        match text::find_char(self.target.as_str(), '@') {
            Some(i) => {
                proof {
                    lemma_after_first_at(self.target@, i as int);
                }
                String::from_str(self.target.as_str().substring_char(i + 1, n))
            },
            None => {
                proof {
                    lemma_no_at(self.target@);
                }
                self.target.clone()
            },
        }
    }

    /// Extra flags the archiver needs for a network-mounted source: a
    /// cache policy that survives remounting.
    pub fn get_additional_options(&self) -> (r: String)
        ensures
            r@ == "--files-cache ctime,size"@,
    {
        String::from_str("--files-cache ctime,size")
    }

    /// Enumerate: each configured entry, its remote path rooted under
    /// this group's mount point.
    pub fn get_folders(&self) -> (r: Vec<FolderEntry<FolderKind>>)
        ensures
            r@.len() == self.folders@.len(),
            forall|i: int| 0 <= i < r@.len() ==> {
                &&& (#[trigger] r@[i]).tags@ == self.folders@[i].tags@
                &&& r@[i].options == self.folders@[i].options
                &&& r@[i].folder matches FolderKind::Ssh(f) && f.path == self.folders@[i].folder.path
                    && f.prefix@ == self.spec_mount_path() && f.target == self.target
            },
    {
        let mut v: Vec<FolderEntry<FolderKind>> = Vec::new();
        let n = self.folders.len();
        let mut i: usize = 0;
        while i < n
            invariant
                0 <= i <= n,
                n == self.folders@.len(),
                v@.len() == i,
                forall|k: int| 0 <= k < i ==> {
                    &&& (#[trigger] v@[k]).tags@ == self.folders@[k].tags@
                    &&& v@[k].options == self.folders@[k].options
                    &&& v@[k].folder matches FolderKind::Ssh(f) && f.path == self.folders@[
                        k
                    ].folder.path && f.prefix@ == self.spec_mount_path() && f.target == self.target
                },
            decreases n - i,
        {
            let f = &self.folders[i];
            let folder = SSHFolder {
                path: f.folder.path.clone(),
                prefix: self.get_mount_path(),
                target: self.target.clone(),
            };
            let fe = FolderEntry {
                tags: crate::folder::dup_string_vec(&f.tags),
                options: f.options,
                folder: FolderKind::Ssh(folder),
            };
            v.push(fe);
            i = i + 1;
        }
        v
    }
}

} // verus!
