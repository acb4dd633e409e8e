//! Repositories and the configuration root: archive destinations, their
//! effective options, and the exact command lines the archiver is given.

use vstd::prelude::*;
use vstd::string::*;

use crate::cmd::CmdOutput;
use crate::options::{PruneSettings, RepositoryOptions};
use crate::sources::BackupGroup;
use crate::text;

verus! {

/// One archive destination: its path, the tags that drive entry
/// filtering, and its (eventually merged) options.
#[derive(Debug)]
pub struct Repository {
    pub path: String,
    pub tags: Vec<String>,
    pub options: RepositoryOptions,
}

/// The retention count used for a period: the configured count, or zero
/// where none is set.
pub open spec fn spec_keep(o: Option<u32>) -> nat {
    match o {
        Some(v) => v as nat,
        None => 0,
    }
}

fn keep_count(o: Option<u32>) -> (r: u32)
    ensures
        r as nat == spec_keep(o),
{
    match o {
        Some(v) => v,
        None => 0,
    }
}

impl Repository {
    /// A repository given as a bare path string: no tags, no options of
    /// its own.
    pub fn from_str(value: &str) -> (r: Repository)
        ensures
            r.path@ == value@,
            r.tags@ == Seq::<String>::empty(),
            r.options == RepositoryOptions::spec_default(),
    {
        Repository {
            path: String::from_str(value),
            tags: Vec::new(),
            options: RepositoryOptions::new_empty(),
        }
    }

    /// Merge this repository's own options over the given parent scope.
    pub fn merge_options(&mut self, options: &RepositoryOptions)
        ensures
            final(self).path == old(self).path,
            final(self).tags == old(self).tags,
            final(self).options == old(self).options.spec_merge(*options),
    {
        let merged = self.options.merge(options);
        self.options = merged;
    }

    /// The repository-information query; its success is the validity of
    /// this repository.
    pub fn info_cmd(&self) -> (r: String)
        ensures
            r@ == "borg info "@ + self.path@,
    {
        String::from_str("borg info ").concat(self.path.as_str())
    }

    /// A plain archiver command against this repository.
    pub fn repo_cmd(&self, command: &str) -> (r: String)
        ensures
            r@ == "borg "@ + command@ + " "@ + self.path@,
    {
        String::from_str("borg ").concat(command).concat(" ").concat(self.path.as_str())
    }

    /// The passphrase this repository's operations run under: the
    /// resolved policy value where the policy yields one, else whatever
    /// the interactive prompt produced.  `lookup` is the output of the
    /// policy's secret-store lookup command, where the policy needs one;
    /// `prompted` is the interactively typed password, where one was
    /// asked for.  A result of nothing is fatal for this repository.
    pub open spec fn spec_resolved_password(
        self,
        lookup: Option<CmdOutput>,
        prompted: Option<String>,
    ) -> Option<String> {
        match self.options.password {
            Some(p) => match p.spec_resolved(lookup) {
                Some(s) => Some(s),
                None => prompted,
            },
            None => prompted,
        }
    }

    pub fn resolved_password(&self, lookup: &Option<CmdOutput>, prompted: &Option<String>) -> (r:
        Option<String>)
        ensures
            r == self.spec_resolved_password(*lookup, *prompted),
    {
        let from_policy = match &self.options.password {
            Some(p) => p.get_password(lookup),
            None => None,
        };
        match from_policy {
            Some(s) => Some(s),
            None => match prompted {
                Some(p) => Some(p.clone()),
                None => None,
            },
        }
    }

    /// The effective prune settings: the merged options' settings, or
    /// all-absent where none were configured.
    pub open spec fn spec_prune_settings(self) -> PruneSettings {
        match self.options.prune {
            Some(p) => p,
            None => PruneSettings::spec_default(),
        }
    }

    /// The prune command for archives of one identity prefix, keeping
    /// the effective counts per period (unset counts keep zero).
    pub open spec fn spec_prune_cmd(self, prefix: Seq<char>) -> Seq<char> {
        "borg prune --list --stats -v --keep-daily="@ + text::spec_dec(
            spec_keep(self.spec_prune_settings().daily),
        ) + " --keep-weekly="@ + text::spec_dec(spec_keep(self.spec_prune_settings().weekly))
            + " --keep-monthly="@ + text::spec_dec(spec_keep(self.spec_prune_settings().monthly))
            + " --keep-yearly="@ + text::spec_dec(spec_keep(self.spec_prune_settings().yearly))
            + " --glob-archives '"@ + prefix + "*' "@ + self.path@
    }

    pub fn prune_cmd(&self, prefix: &str) -> (r: String)
        ensures
            r@ == self.spec_prune_cmd(prefix@),
    {
        let settings = match &self.options.prune {
            Some(p) => *p,
            None => PruneSettings::new_empty(),
        };
        String::from_str("borg prune --list --stats -v --keep-daily=")
            .concat(text::u32_to_string(keep_count(settings.daily)).as_str())
            .concat(" --keep-weekly=")
            .concat(text::u32_to_string(keep_count(settings.weekly)).as_str())
            .concat(" --keep-monthly=")
            .concat(text::u32_to_string(keep_count(settings.monthly)).as_str())
            .concat(" --keep-yearly=")
            .concat(text::u32_to_string(keep_count(settings.yearly)).as_str())
            .concat(" --glob-archives '")
            .concat(prefix)
            .concat("*' ")
            .concat(self.path.as_str())
    }
}

impl Repository {
    /// The prune commands of this repository, one per source group,
    /// each constrained to the group's identity prefix, in group order.
    /// `machine` is the local hostname, for the sources whose identity
    /// comes from it.
    pub fn prune_cmds(&self, groups: &Vec<BackupGroup>, machine: &Option<String>) -> (r: Vec<
        String,
    >)
        ensures
            r@.len() == groups@.len(),
            forall|i: int| 0 <= i < r@.len() ==> (#[trigger] r@[i])@ == self.spec_prune_cmd(
                groups@[i].source.spec_identity_prefix(match *machine {
                    Some(m) => Some(m@),
                    None => None,
                }),
            ),
    {
        let mut r: Vec<String> = Vec::new();
        let n = groups.len();
        let mut i: usize = 0;
        while i < n
            invariant
                0 <= i <= n,
                n == groups@.len(),
                r@.len() == i,
                forall|k: int| 0 <= k < i ==> (#[trigger] r@[k])@ == self.spec_prune_cmd(
                    groups@[k].source.spec_identity_prefix(match *machine {
                        Some(m) => Some(m@),
                        None => None,
                    }),
                ),
            decreases n - i,
        {
            let prefix = groups[i].source.identity_prefix(machine);
            r.push(self.prune_cmd(prefix.as_str()));
            i = i + 1;
        }
        r
    }
}

/// The repository list together with the global default options.
#[derive(Debug)]
pub struct Repositories {
    pub repositories: Vec<Repository>,
    pub options: RepositoryOptions,
}

/// An exclusion set that applies only when one of its trigger paths is
/// being backed up.  Parsed from configuration; not consulted by the
/// engine.
#[derive(Debug)]
pub struct ConditionalExclude {
    pub triggers: Vec<String>,
    pub excludes: Vec<String>,
}

/// The configuration root: repositories with global defaults, source
/// groups, global excludes, and the timestamp of this run.
#[derive(Debug)]
pub struct Borg {
    pub repository: Repositories,
    pub backups: Vec<BackupGroup>,
    pub excludes: Vec<String>,
    pub conditional_excludes: Vec<ConditionalExclude>,
    pub timestamp: String,
}

impl Borg {
    /// Applied once at load time: merge every repository's own options
    /// over the global defaults, producing its effective options.
    pub fn fill_parent_options(&mut self)
        ensures
            final(self).repository.repositories@.len() == old(
                self,
            ).repository.repositories@.len(),
            forall|i: int| 0 <= i < final(self).repository.repositories@.len() ==> {
                &&& (#[trigger] final(self).repository.repositories@[i]).path == old(
                    self,
                ).repository.repositories@[i].path
                &&& final(self).repository.repositories@[i].tags@ == old(
                    self,
                ).repository.repositories@[i].tags@
                &&& final(self).repository.repositories@[i].options == old(
                    self,
                ).repository.repositories@[i].options.spec_merge(old(self).repository.options)
            },
            final(self).repository.options == old(self).repository.options,
            final(self).backups == old(self).backups,
            final(self).excludes == old(self).excludes,
            final(self).conditional_excludes == old(self).conditional_excludes,
            final(self).timestamp == old(self).timestamp,
    {
        let n = self.repository.repositories.len();
        let mut i: usize = 0;
        while i < n
            invariant
                0 <= i <= n,
                n == self.repository.repositories@.len(),
                self.repository.options == old(self).repository.options,
                self.backups == old(self).backups,
                self.excludes == old(self).excludes,
                self.conditional_excludes == old(self).conditional_excludes,
                self.timestamp == old(self).timestamp,
                forall|k: int| i <= k < n ==> (#[trigger] self.repository.repositories@[k]) == old(
                    self,
                ).repository.repositories@[k],
                forall|k: int| 0 <= k < i ==> {
                    &&& (#[trigger] self.repository.repositories@[k]).path == old(
                        self,
                    ).repository.repositories@[k].path
                    &&& self.repository.repositories@[k].tags@ == old(
                        self,
                    ).repository.repositories@[k].tags@
                    &&& self.repository.repositories@[k].options == old(
                        self,
                    ).repository.repositories@[k].options.spec_merge(old(self).repository.options)
                },
            decreases n - i,
        {
            let merged = self.repository.repositories[i].options.merge(&self.repository.options);
            let path = self.repository.repositories[i].path.clone();
            let tags = crate::folder::dup_string_vec(&self.repository.repositories[i].tags);
            self.repository.repositories.set(i, Repository { path, tags, options: merged });
            i = i + 1;
        }
    }
}

} // verus!
