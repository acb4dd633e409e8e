//! The source variants and the groups that bundle them.

pub mod influxdb;
pub mod local;
pub mod psql;
pub mod saves;
pub mod ssh;

use vstd::prelude::*;
use vstd::string::*;

use crate::folder::{FolderEntry, FolderKind};
use crate::sources::influxdb::InfluxdbBackup;
use crate::sources::local::LocalBackup;
use crate::sources::psql::PsqlBackup;
use crate::sources::saves::{JsonOutput, SaveBackup};
use crate::sources::ssh::SSHBackup;

verus! {

/// Relies on hostname::get: the local machine's hostname, where the
/// system reports one that is valid Unicode.
#[verifier::external_body]
pub(crate) fn machine_hostname() -> (r: Option<String>) {
    match hostname::get() {
        Ok(h) => h.into_string().ok(),
        Err(_) => None,
    }
}

/// One source variant: what to protect and how to reach it.
#[derive(Debug)]
pub enum BackupType {
    Local(LocalBackup),
    Ssh(SSHBackup),
    Psql(PsqlBackup),
    Influxdb(InfluxdbBackup),
    Saves(SaveBackup),
}

impl BackupType {
    /// The identity prefix of this source with the machine hostname
    /// supplied: the explicit host if the variant has one, else its
    /// deployment name, else the machine's hostname, else a fixed
    /// literal.
    pub open spec fn spec_identity_prefix(self, machine: Option<Seq<char>>) -> Seq<char> {
        match self {
            BackupType::Local(_) | BackupType::Saves(_) => match machine {
                Some(m) => m,
                None => "psql_back"@,
            },
            BackupType::Ssh(s) => crate::sources::ssh::spec_host_of_target(s.target@),
            BackupType::Psql(p) => p.spec_hostname(),
            BackupType::Influxdb(i) => i.spec_hostname(),
        }
    }

    pub fn identity_prefix(&self, machine: &Option<String>) -> (r: String)
        ensures
            r@ == self.spec_identity_prefix(match *machine {
                Some(m) => Some(m@),
                None => None,
            }),
    {
        match self {
            BackupType::Local(_) | BackupType::Saves(_) => match machine {
                Some(m) => m.clone(),
                None => String::from_str("psql_back"),
            },
            BackupType::Ssh(s) => s.get_hostname(),
            BackupType::Psql(p) => p.get_hostname(),
            BackupType::Influxdb(i) => i.get_hostname(),
        }
    }

    /// The identity prefix, asking the machine itself for its hostname.
    pub fn get_hostname(&self) -> (r: String)
        ensures
            exists|m: Option<Seq<char>>| r@ == self.spec_identity_prefix(m),
    {
        let machine = machine_hostname();
        let r = self.identity_prefix(&machine);
        proof {
            let m = match machine {
                Some(s) => Some(s@),
                None => None::<Seq<char>>,
            };
            assert(r@ == self.spec_identity_prefix(m));
        }
        r
    }

    /// Extra archiver flags this source kind needs; empty for all but
    /// network-mounted sources.
    pub open spec fn spec_additional_options(self) -> Seq<char> {
        match self {
            BackupType::Ssh(_) => "--files-cache ctime,size"@,
            _ => ""@,
        }
    }

    pub fn get_additional_options(&self) -> (r: String)
        ensures
            r@ == self.spec_additional_options(),
    {
        match self {
            BackupType::Ssh(s) => s.get_additional_options(),
            _ => {
                let r = String::new();
                proof {
                    reveal_strlit("");
                    assert(r@ =~= ""@);
                }
                r
            },
        }
    }

    /// The command whose output enumeration needs, if any: the save-game
    /// enumerator for the snapshot variant, nothing for the rest.
    pub fn enumerate_cmd(&self) -> (r: Option<String>)
        ensures
            match self {
                BackupType::Saves(s) => r matches Some(c) && c@ == s.spec_enumerate_cmd(),
                _ => r is None,
            },
    {
        match self {
            BackupType::Saves(s) => Some(s.enumerate_cmd()),
            _ => None,
        }
    }

    /// Enumerate this source's folder entries.  `saves_report` is the
    /// parsed output of the enumerator command for the snapshot variant
    /// (treated as an empty report when absent) and ignored by every
    /// other variant.
    pub fn get_folders(&self, saves_report: &Option<JsonOutput>) -> (r: Vec<
        FolderEntry<FolderKind>,
    >)
        ensures
            match self {
                BackupType::Local(b) => r@.len() == b.folders@.len() && (forall|i: int|
                    0 <= i < r@.len() ==> {
                        &&& (#[trigger] r@[i]).tags@ == b.folders@[i].tags@
                        &&& r@[i].options == b.folders@[i].options
                        &&& r@[i].folder == FolderKind::Local(b.folders@[i].folder)
                    }),
                BackupType::Ssh(b) => r@.len() == b.folders@.len() && (forall|i: int|
                    0 <= i < r@.len() ==> {
                        &&& (#[trigger] r@[i]).tags@ == b.folders@[i].tags@
                        &&& r@[i].options == b.folders@[i].options
                        &&& r@[i].folder matches FolderKind::Ssh(f) && f.path == b.folders@[
                            i
                        ].folder.path && f.prefix@ == b.spec_mount_path() && f.target == b.target
                    }),
                BackupType::Psql(b) => r@.len() == 1 && r@[0].tags@ == b.tags@ && r@[0].options
                    is None && (r@[0].folder matches FolderKind::Dump(f) && f.path@
                    == b.spec_mount_path()),
                BackupType::Influxdb(b) => r@.len() == 1 && r@[0].tags@ == b.tags@ && r@[0].options
                    is None && (r@[0].folder matches FolderKind::Local(f) && f.path@
                    == b.spec_mount_path()),
                BackupType::Saves(b) => r.deep_view() == b.spec_save_entries(
                    match *saves_report {
                        Some(j) => j.games@,
                        None => Seq::empty(),
                    },
                ),
            },
    {
        match self {
            BackupType::Local(b) => b.get_folders(),
            BackupType::Ssh(b) => b.get_folders(),
            BackupType::Psql(b) => b.get_folders(),
            BackupType::Influxdb(b) => b.get_folders(),
            BackupType::Saves(b) => match saves_report {
                Some(j) => b.get_folders(j),
                None => {
                    let empty = JsonOutput { games: Vec::new() };
                    b.get_folders(&empty)
                },
            },
        }
    }
}

/// One named collection of data to protect.
#[derive(Debug)]
pub struct BackupGroup {
    pub name: String,
    pub source: BackupType,
}

} // verus!
