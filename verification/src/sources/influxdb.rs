//! InfluxDB dump source: a database reached directly or through a
//! port-forwarding proxy, backed up into a per-host directory.

use vstd::prelude::*;
use vstd::string::*;

use crate::folder::{FolderEntry, FolderKind};
use crate::sources::local::LocalFolder;
use crate::text;

verus! {

/// An InfluxDB dump source group.
#[derive(Debug)]
pub struct InfluxdbBackup {
    pub token: String,
    pub port: Option<u16>,
    pub host: Option<String>,
    pub k8s_deployment: Option<String>,
    pub k8s_namespace: Option<String>,
    pub tags: Vec<String>,
}

impl InfluxdbBackup {
    /// The identity prefix: the explicit host if present, else the
    /// deployment name, else a fixed literal.
    pub open spec fn spec_hostname(self) -> Seq<char> {
        match self.host {
            Some(h) => h@,
            None => match self.k8s_deployment {
                Some(d) => d@,
                None => "psql_back"@,
            },
        }
    }

    pub fn get_hostname(&self) -> (r: String)
        ensures
            r@ == self.spec_hostname(),
    {
        match &self.host {
            Some(h) => h.clone(),
            None => match &self.k8s_deployment {
                Some(d) => d.clone(),
                None => String::from_str("psql_back"),
            },
        }
    }

    /// The per-identity dump directory.
    pub open spec fn spec_mount_path(self) -> Seq<char> {
        "/tmp/backup/"@ + self.spec_hostname()
    }

    pub fn get_mount_path(&self) -> (r: String)
        ensures
            r@ == self.spec_mount_path(),
    {
        String::from_str("/tmp/backup/").concat(self.get_hostname().as_str())
    }

    /// The port the dump command connects to.
    pub open spec fn spec_connect_port(self) -> u16 {
        match self.port {
            Some(p) => p,
            None => 8086,
        }
    }

    /// The host the dump command connects to: the explicit host, else
    /// the local loopback endpoint (covering the proxied case as well).
    pub open spec fn spec_connect_host(self) -> Seq<char> {
        match self.host {
            Some(h) => h@,
            None => "http://127.0.0.1"@,
        }
    }

    /// The database backup command, writing into the dump directory.
    pub fn dump_cmd(&self) -> (r: String)
        ensures
            r@ == "influx backup --host "@ + self.spec_connect_host() + ":"@ + text::spec_dec(
                self.spec_connect_port() as nat,
            ) + " --token "@ + self.token@ + " "@ + self.spec_mount_path(),
    {
        let host = match &self.host {
            Some(h) => h.clone(),
            None => String::from_str("http://127.0.0.1"),
        };
        let port: u16 = match self.port {
            Some(p) => p,
            None => 8086,
        };
        String::from_str("influx backup --host ")
            .concat(host.as_str())
            .concat(":")
            .concat(text::u64_to_string(port as u64).as_str())
            .concat(" --token ")
            .concat(self.token.as_str())
            .concat(" ")
            .concat(self.get_mount_path().as_str())
    }

    /// Enumerate: exactly one entry, the dump directory produced during
    /// preparation, carrying this group's tags.
    pub fn get_folders(&self) -> (r: Vec<FolderEntry<FolderKind>>)
        ensures
            r@.len() == 1,
            r@[0].tags@ == self.tags@,
            r@[0].options is None,
            r@[0].folder matches FolderKind::Local(f) && f.path@ == self.spec_mount_path(),
    {
        let folder = LocalFolder { path: self.get_mount_path() };
        let fe = FolderEntry {
            tags: crate::folder::dup_string_vec(&self.tags),
            options: None,
            folder: FolderKind::Local(folder),
        };
        let mut v: Vec<FolderEntry<FolderKind>> = Vec::new();
        v.push(fe);
        v
    }
}

} // verus!
