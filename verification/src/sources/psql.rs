//! Postgres dump source: a database reached directly or through a
//! port-forwarding proxy, dumped to a per-host temporary file.

use vstd::prelude::*;
use vstd::string::*;

use crate::folder::{FolderEntry, FolderKind};
use crate::text;

verus! {

/// The dump file produced during preparation.  Its size is modelled as
/// zero: the dump is ephemeral and excluded from size accounting.
#[derive(Debug)]
pub struct PsqlFolder {
    pub path: String,
}

impl PsqlFolder {
    pub fn new(path: &str) -> (r: PsqlFolder)
        ensures
            r.path@ == path@,
    {
        PsqlFolder { path: String::from_str(path) }
    }

    pub fn get_path(&self) -> (r: String)
        ensures
            r == self.path,
    {
        self.path.clone()
    }

    pub fn duplicate(&self) -> (r: PsqlFolder)
        ensures
            r == *self,
    {
        PsqlFolder { path: self.path.clone() }
    }

    /// The dump file's modelled size.
    pub fn get_size(&self) -> (r: u64)
        ensures
            r == 0,
    {
        0
    }
}

/// A Postgres dump source group.
#[derive(Debug)]
pub struct PsqlBackup {
    pub user: String,
    pub password: String,
    pub port: u16,
    pub host: Option<String>,
    pub k8s_deployment: Option<String>,
    pub tags: Vec<String>,
}

impl PsqlBackup {
    /// The identity prefix: the explicit host if present, else the
    /// deployment name, else a fixed literal.
    pub open spec fn spec_hostname(self) -> Seq<char> {
        match self.host {
            Some(h) => h@,
            None => match self.k8s_deployment {
                Some(d) => d@,
                None => "psql_back"@,
            },
        }
    }

    pub fn get_hostname(&self) -> (r: String)
        ensures
            r@ == self.spec_hostname(),
    {
        match &self.host {
            Some(h) => h.clone(),
            None => match &self.k8s_deployment {
                Some(d) => d.clone(),
                None => String::from_str("psql_back"),
            },
        }
    }

    /// The per-host dump file path.
    pub open spec fn spec_mount_path(self) -> Seq<char> {
        "/tmp/backup/postgresql-"@ + (match self.host {
            Some(h) => h@,
            None => "nohost"@,
        })
    }

    pub fn get_mount_path(&self) -> (r: String)
        ensures
            r@ == self.spec_mount_path(),
    {
        let tail = match &self.host {
            Some(h) => h.clone(),
            None => String::from_str("nohost"),
        };
        String::from_str("/tmp/backup/postgresql-").concat(tail.as_str())
    }

    /// The host the dump command connects to: the explicit host, else
    /// the loopback address (covering the proxied case as well).
    pub open spec fn spec_connect_host(self) -> Seq<char> {
        match self.host {
            Some(h) => h@,
            None => "127.0.0.1"@,
        }
    }

    /// The full-cluster dump command.
    pub fn dump_cmd(&self) -> (r: String)
        ensures
            r@ == "pg_dumpall --dbname=postgresql://"@ + self.user@ + ":"@ + self.password@ + "@"@
                + self.spec_connect_host() + ":"@ + text::spec_dec(self.port as nat),
    {
        let host = match &self.host {
            Some(h) => h.clone(),
            None => String::from_str("127.0.0.1"),
        };
        String::from_str("pg_dumpall --dbname=postgresql://")
            .concat(self.user.as_str())
            .concat(":")
            .concat(self.password.as_str())
            .concat("@")
            .concat(host.as_str())
            .concat(":")
            .concat(text::u64_to_string(self.port as u64).as_str())
    }

    /// Enumerate: exactly one entry, the dump file produced during
    /// preparation, carrying this group's tags.
    pub fn get_folders(&self) -> (r: Vec<FolderEntry<FolderKind>>)
        ensures
            r@.len() == 1,
            r@[0].tags@ == self.tags@,
            r@[0].options is None,
            r@[0].folder matches FolderKind::Dump(f) && f.path@ == self.spec_mount_path(),
    {
        let folder = PsqlFolder { path: self.get_mount_path() };
        let fe = FolderEntry {
            tags: crate::folder::dup_string_vec(&self.tags),
            options: None,
            folder: FolderKind::Dump(folder),
        };
        let mut v: Vec<FolderEntry<FolderKind>> = Vec::new();
        v.push(fe);
        v
    }
}

} // verus!
