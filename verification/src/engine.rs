//! The create loop's per-group decisions: tag filtering, the
//! inclusion-patterns file, the exact create command, and the lifecycle
//! bookkeeping that guarantees a backup is only requested after a
//! successful preparation and that cleanup tears down exactly what was
//! acquired.

use vstd::prelude::*;
use vstd::string::*;

use crate::folder::{dup_string_vec, spec_view_path, EntryView, FolderEntry, FolderKind};
use crate::lifecycle::{CleanupStep, PrepareHandle};
use crate::options::RepositoryOptions;
use crate::repo::Repository;
use crate::sources::BackupType;

verus! {

/// An entry passes the repository's filter when the repository declares
/// no tags at all, or when some repository tag occurs among the entry's
/// tags.
pub open spec fn spec_entry_passes(entry_tags: Seq<Seq<char>>, repo_tags: Seq<Seq<char>>) -> bool {
    repo_tags.len() == 0 || exists|i: int, j: int|
        0 <= i < repo_tags.len() && 0 <= j < entry_tags.len() && repo_tags[i] == entry_tags[j]
}

/// The entries that pass the filter, in order.
pub open spec fn spec_pass_filter(evs: Seq<EntryView>, repo_tags: Seq<Seq<char>>) -> Seq<
    EntryView,
> {
    evs.filter(|e: EntryView| spec_entry_passes(e.tags, repo_tags))
}

/// The resolved paths of a run of entries, in order.
pub open spec fn spec_paths_of(evs: Seq<EntryView>) -> Seq<Seq<char>> {
    evs.map_values(|e: EntryView| spec_view_path(e.folder))
}

fn tags_contain(tags: &Vec<String>, item: &String) -> (r: bool)
    ensures
        r == exists|j: int| 0 <= j < tags@.len() && (#[trigger] tags@[j])@ == item@,
{
    let n = tags.len();
    let mut i: usize = 0;
    while i < n
        invariant
            0 <= i <= n,
            n == tags@.len(),
            forall|j: int| 0 <= j < i ==> (#[trigger] tags@[j])@ != item@,
        decreases n - i,
    {
        if tags[i] == *item {
            return true;
        }
        i = i + 1;
    }
    false
}

/// Whether one entry passes the repository's tag filter.
pub fn entry_passes(entry: &FolderEntry<FolderKind>, repo_tags: &Vec<String>) -> (r: bool)
    ensures
        r == spec_entry_passes(entry@.tags, repo_tags.deep_view()),
{
    let n = repo_tags.len();
    if n == 0 {
        return true;
    }
    let mut i: usize = 0;
    while i < n
        invariant
            0 <= i <= n,
            n == repo_tags@.len(),
            forall|k: int, j: int|
                0 <= k < i && 0 <= j < entry.tags@.len() ==> (#[trigger] repo_tags@[k])@ != (
                #[trigger] entry.tags@[j])@,
        decreases n - i,
    {
        if tags_contain(&entry.tags, &repo_tags[i]) {
            proof {
                let j = choose|j: int|
                    0 <= j < entry.tags@.len() && (#[trigger] entry.tags@[j])@ == repo_tags@[
                        i as int
                    ]@;
                assert(repo_tags.deep_view()[i as int] == entry@.tags[j]);
            }
            return true;
        }
        i = i + 1;
    }
    proof {
        assert forall|k: int, j: int|
            0 <= k < repo_tags.deep_view().len() && 0 <= j
                < entry@.tags.len() implies repo_tags.deep_view()[k] != entry@.tags[j] by {
            assert((repo_tags@[k])@ != (entry.tags@[j])@);
        }
    }
    false
}

/// Keep exactly the entries whose tags intersect the repository's tags;
/// with no repository tags, keep everything.
pub fn filter_entries(entries: Vec<FolderEntry<FolderKind>>, repo_tags: &Vec<String>) -> (r: Vec<
    FolderEntry<FolderKind>,
>)
    ensures
        r.deep_view() == spec_pass_filter(entries.deep_view(), repo_tags.deep_view()),
{
    let ghost evs = entries.deep_view();
    let ghost pred = |e: EntryView| spec_entry_passes(e.tags, repo_tags.deep_view());
    let mut r: Vec<FolderEntry<FolderKind>> = Vec::new();
    proof {
        reveal(Seq::filter);
        assert(r.deep_view() =~= evs.take(0).filter(pred));
    }
    let n = entries.len();
    let mut i: usize = 0;
    while i < n
        invariant
            0 <= i <= n,
            n == entries@.len(),
            evs == entries.deep_view(),
            pred == (|e: EntryView| spec_entry_passes(e.tags, repo_tags.deep_view())),
            r.deep_view() == evs.take(i as int).filter(pred),
        decreases n - i,
    {
        let ghost before = r.deep_view();
        let e = &entries[i];
        proof {
            assert(evs[i as int] == entries@[i as int]@);
        }
        if entry_passes(e, repo_tags) {
            r.push(e.duplicate());
            proof {
                assert(r.deep_view() =~= before.push(entries@[i as int]@));
            }
        }
        proof {
            reveal(Seq::filter);
            assert(evs.take(i as int + 1).drop_last() =~= evs.take(i as int));
            assert(evs.take(i as int + 1).last() == evs[i as int]);
        }
        i = i + 1;
    }
    proof {
        assert(evs.take(n as int) =~= evs);
    }
    r
}

/// With no repository tags every entry passes: the filter keeps the
/// enumeration unchanged.
pub proof fn lemma_empty_tags_pass_all(evs: Seq<EntryView>, repo_tags: Seq<Seq<char>>)
    requires
        repo_tags.len() == 0,
    ensures
        spec_pass_filter(evs, repo_tags) == evs,
    decreases evs.len(),
{
    reveal(Seq::filter);
    if evs.len() > 0 {
        lemma_empty_tags_pass_all(evs.drop_last(), repo_tags);
        assert(spec_pass_filter(evs, repo_tags) =~= evs);
    }
}

/// The resolved absolute paths of the given entries, in order.
pub fn resolved_paths(entries: &Vec<FolderEntry<FolderKind>>) -> (r: Vec<String>)
    ensures
        r.deep_view() == spec_paths_of(entries.deep_view()),
{
    let mut r: Vec<String> = Vec::new();
    let n = entries.len();
    let mut i: usize = 0;
    proof {
        assert(r.deep_view() =~= spec_paths_of(entries.deep_view().take(0)));
    }
    while i < n
        invariant
            0 <= i <= n,
            n == entries@.len(),
            r.deep_view() == spec_paths_of(entries.deep_view().take(i as int)),
        decreases n - i,
    {
        let ghost before = r.deep_view();
        r.push(entries[i].folder.get_path());
        proof {
            let evs = entries.deep_view();
            assert(evs[i as int] == entries@[i as int]@);
            assert(r.deep_view() =~= before.push(spec_view_path(evs[i as int].folder)));
            assert(before.push(spec_view_path(evs[i as int].folder)) =~= spec_paths_of(
                evs.take(i as int + 1),
            ));
        }
        i = i + 1;
    }
    proof {
        assert(entries.deep_view().take(n as int) =~= entries.deep_view());
    }
    r
}

/// The inclusion-patterns file: one `R <path>` line per entry.
pub open spec fn spec_patterns(paths: Seq<Seq<char>>) -> Seq<char>
    decreases paths.len(),
{
    if paths.len() == 0 {
        Seq::empty()
    } else if paths.len() == 1 {
        "R "@ + paths[0]
    } else {
        spec_patterns(paths.drop_last()) + "\n"@ + "R "@ + paths.last()
    }
}

pub fn patterns_content(paths: &Vec<String>) -> (r: String)
    ensures
        r@ == spec_patterns(paths.deep_view()),
{
    let ghost pvs = paths.deep_view();
    let mut r = String::new();
    proof {
        assert(r@ =~= spec_patterns(pvs.take(0)));
    }
    let n = paths.len();
    let mut i: usize = 0;
    while i < n
        invariant
            0 <= i <= n,
            n == paths@.len(),
            pvs == paths.deep_view(),
            r@ == spec_patterns(pvs.take(i as int)),
        decreases n - i,
    {
        proof {
            assert(pvs[i as int] == paths@[i as int]@);
        }
        if i == 0 {
            r = String::from_str("R ").concat(paths[0].as_str());
        } else {
            r = r.concat("\n").concat("R ").concat(paths[i].as_str());
        }
        proof {
            assert(pvs.take(i as int + 1).drop_last() =~= pvs.take(i as int));
            assert(pvs.take(i as int + 1).last() == pvs[i as int]);
        }
        i = i + 1;
    }
    proof {
        assert(pvs.take(n as int) =~= pvs);
    }
    r
}

/// The exclusion arguments: ` --exclude <pattern>` for each global
/// exclude, in order.
pub open spec fn spec_exclude_args(excludes: Seq<Seq<char>>) -> Seq<char>
    decreases excludes.len(),
{
    if excludes.len() == 0 {
        Seq::empty()
    } else {
        spec_exclude_args(excludes.drop_last()) + " --exclude "@ + excludes.last()
    }
}

pub fn exclude_args(excludes: &Vec<String>) -> (r: String)
    ensures
        r@ == spec_exclude_args(excludes.deep_view()),
{
    let ghost evs = excludes.deep_view();
    let mut r = String::new();
    proof {
        assert(r@ =~= spec_exclude_args(evs.take(0)));
    }
    let n = excludes.len();
    let mut i: usize = 0;
    while i < n
        invariant
            0 <= i <= n,
            n == excludes@.len(),
            evs == excludes.deep_view(),
            r@ == spec_exclude_args(evs.take(i as int)),
        decreases n - i,
    {
        proof {
            assert(evs[i as int] == excludes@[i as int]@);
        }
        r = r.concat(" --exclude ").concat(excludes[i].as_str());
        proof {
            assert(evs.take(i as int + 1).drop_last() =~= evs.take(i as int));
            assert(evs.take(i as int + 1).last() == evs[i as int]);
        }
        i = i + 1;
    }
    proof {
        assert(evs.take(n as int) =~= evs);
    }
    r
}

/// The archiver options of one invocation: the source's extra flags
/// followed by the repository's extra command line, if any.
pub open spec fn spec_combined_options(source: BackupType, options: RepositoryOptions) -> Seq<
    char,
> {
    source.spec_additional_options() + " "@ + (match options.cmdline {
        Some(c) => c@,
        None => Seq::<char>::empty(),
    })
}

pub fn combined_options(source: &BackupType, options: &RepositoryOptions) -> (r: String)
    ensures
        r@ == spec_combined_options(*source, *options),
{
    let tail = match &options.cmdline {
        Some(c) => c.clone(),
        None => String::new(),
    };
    source.get_additional_options().concat(" ").concat(tail.as_str())
}

/// The archive name of one invocation: the source's identity prefix and
/// the run's timestamp.
pub fn archive_name(prefix: &str, timestamp: &str) -> (r: String)
    ensures
        r@ == prefix@ + "-"@ + timestamp@,
{
    String::from_str(prefix).concat("-").concat(timestamp)
}

/// Everything one backup invocation needs, short of the temporary file
/// the patterns are delivered through.
#[derive(Debug)]
pub struct BackupRequest {
    pub options: String,
    pub repo_path: String,
    pub archive_name: String,
    pub exclude_args: String,
    pub patterns: String,
}

impl BackupRequest {
    /// The create command, given the path of the temporary file that
    /// holds [`Self::patterns`].
    pub fn command(&self, patterns_path: &str) -> (r: String)
        ensures
            r@ == "borg create "@ + self.options@ + " "@ + self.repo_path@ + "::"@
                + self.archive_name@ + " "@ + self.exclude_args@
                + " --exclude-if-present .nobackup --exclude-if-present CACHEDIR.TAG --patterns-from "@
                + patterns_path@,
    {
        String::from_str("borg create ")
            .concat(self.options.as_str())
            .concat(" ")
            .concat(self.repo_path.as_str())
            .concat("::")
            .concat(self.archive_name.as_str())
            .concat(" ")
            .concat(self.exclude_args.as_str())
            .concat(" --exclude-if-present .nobackup --exclude-if-present CACHEDIR.TAG --patterns-from ")
            .concat(patterns_path)
    }
}

/// The lifecycle phase of one group within one repository's run.
#[derive(Clone, Copy, Debug, PartialEq, Eq, Structural)]
pub enum RunPhase {
    Idle,
    Preparing,
    Ready,
    CreatingBackup,
    Failed,
}

/// One group's run against one repository: lifecycle phase, what the
/// preparation acquired, and how many backups and cleanups this cycle
/// has emitted.
#[derive(Debug)]
pub struct GroupRun {
    pub phase: RunPhase,
    pub handle: PrepareHandle,
    pub prepare_ok: bool,
    pub backups_this_cycle: u32,
    pub cleanups_this_cycle: u32,
}

impl GroupRun {
    /// The lifecycle invariant: a backup is only ever requested from a
    /// successfully prepared group, never after a failed preparation,
    /// and an idle group holds no acquired resources.
    pub open spec fn wf(self) -> bool {
        &&& (self.phase is Preparing ==> self.backups_this_cycle == 0 && self.cleanups_this_cycle
            == 0 && self.handle == PrepareHandle::spec_empty())
        &&& (self.phase is Failed ==> self.backups_this_cycle == 0 && !self.prepare_ok)
        &&& (self.phase is Ready ==> self.prepare_ok && self.backups_this_cycle == 0)
        &&& (self.phase is CreatingBackup ==> self.prepare_ok && self.backups_this_cycle == 1)
        &&& (self.phase is Idle ==> self.handle == PrepareHandle::spec_empty())
        &&& self.backups_this_cycle <= 1
    }

    pub fn new() -> (r: GroupRun)
        ensures
            r.wf(),
            r.phase is Idle,
            r.backups_this_cycle == 0,
            r.cleanups_this_cycle == 0,
            r.handle == PrepareHandle::spec_empty(),
    {
        GroupRun {
            phase: RunPhase::Idle,
            handle: PrepareHandle::new_empty(),
            prepare_ok: false,
            backups_this_cycle: 0,
            cleanups_this_cycle: 0,
        }
    }

    /// Start a new prepare/cleanup cycle.
    pub fn begin_prepare(&mut self)
        requires
            old(self).wf(),
            old(self).phase is Idle,
        ensures
            final(self).wf(),
            final(self).phase is Preparing,
            final(self).backups_this_cycle == 0,
            final(self).cleanups_this_cycle == 0,
            final(self).handle == PrepareHandle::spec_empty(),
    {
        self.phase = RunPhase::Preparing;
        self.backups_this_cycle = 0;
        self.cleanups_this_cycle = 0;
        self.handle = PrepareHandle::new_empty();
    }

    /// Record the preparation's outcome and what it acquired.
    pub fn finish_prepare(&mut self, ok: bool, handle: PrepareHandle)
        requires
            old(self).wf(),
            old(self).phase is Preparing,
        ensures
            final(self).wf(),
            final(self).phase == if ok {
                RunPhase::Ready
            } else {
                RunPhase::Failed
            },
            final(self).prepare_ok == ok,
            final(self).handle == handle,
            final(self).backups_this_cycle == 0,
            final(self).cleanups_this_cycle == 0,
    {
        self.phase = if ok {
            RunPhase::Ready
        } else {
            RunPhase::Failed
        };
        self.prepare_ok = ok;
        self.handle = handle;
    }

    /// Filter the enumerated entries by the repository's tags and, when
    /// any remain, emit the one backup invocation of this cycle.
    pub fn backup_request(
        &mut self,
        source: &BackupType,
        repo: &Repository,
        excludes: &Vec<String>,
        entries: Vec<FolderEntry<FolderKind>>,
        prefix: &str,
        timestamp: &str,
    ) -> (r: Option<BackupRequest>)
        requires
            old(self).wf(),
            old(self).phase is Ready,
        ensures
            final(self).wf(),
            final(self).handle == old(self).handle,
            final(self).prepare_ok == old(self).prepare_ok,
            final(self).cleanups_this_cycle == old(self).cleanups_this_cycle,
            r is Some <==> spec_pass_filter(entries.deep_view(), repo.tags.deep_view()).len() > 0,
            match r {
                Some(req) => {
                    &&& req.options@ == spec_combined_options(*source, repo.options)
                    &&& req.repo_path@ == repo.path@
                    &&& req.archive_name@ == prefix@ + "-"@ + timestamp@
                    &&& req.exclude_args@ == spec_exclude_args(excludes.deep_view())
                    &&& req.patterns@ == spec_patterns(
                        spec_paths_of(
                            spec_pass_filter(entries.deep_view(), repo.tags.deep_view()),
                        ),
                    )
                    &&& final(self).phase is CreatingBackup
                    &&& final(self).backups_this_cycle == 1
                },
                None => final(self).phase is Ready && final(self).backups_this_cycle == 0,
            },
    {
        let kept = filter_entries(entries, &repo.tags);
        if kept.len() == 0 {
            proof {
                assert(spec_pass_filter(entries.deep_view(), repo.tags.deep_view()).len() == 0);
            }
            return None;
        }
        let paths = resolved_paths(&kept);
        let req = BackupRequest {
            options: combined_options(source, &repo.options),
            repo_path: repo.path.clone(),
            archive_name: archive_name(prefix, timestamp),
            exclude_args: exclude_args(excludes),
            patterns: patterns_content(&paths),
        };
        self.phase = RunPhase::CreatingBackup;
        self.backups_this_cycle = 1;
        Some(req)
    }

    /// End the cycle: return the teardown steps for exactly what was
    /// acquired, and go back to idle.  Safe after a failed preparation
    /// (nothing never-acquired is touched) and safe to repeat (a second
    /// call finds nothing left to tear down).
    pub fn cleanup(&mut self, source: &BackupType) -> (steps: Vec<CleanupStep>)
        requires
            old(self).wf(),
            !(old(self).phase is Preparing),
            old(self).cleanups_this_cycle < u32::MAX,
        ensures
            final(self).wf(),
            final(self).phase is Idle,
            final(self).handle == PrepareHandle::spec_empty(),
            final(self).cleanups_this_cycle == old(self).cleanups_this_cycle + 1,
            final(self).backups_this_cycle == old(self).backups_this_cycle,
            old(self).handle == PrepareHandle::spec_empty() ==> steps@ == Seq::<
                CleanupStep,
            >::empty(),
            match *source {
                BackupType::Local(_) | BackupType::Saves(_) => steps@ == Seq::<
                    CleanupStep,
                >::empty(),
                BackupType::Ssh(b) => {
                    if old(self).handle.mounted {
                        steps@.len() == 1 && (steps@[0] matches CleanupStep::RunCommand { cmd }
                            && cmd@ == "fusermount -u "@ + b.spec_mount_path())
                    } else {
                        steps@ == Seq::<CleanupStep>::empty()
                    }
                },
                BackupType::Psql(_) | BackupType::Influxdb(_) => steps@ == spec_dump_cleanup(
                    old(self).handle,
                ),
            },
    {
        let mut steps: Vec<CleanupStep> = Vec::new();
        match source {
            BackupType::Local(_) | BackupType::Saves(_) => {
            },
            BackupType::Ssh(b) => {
                if self.handle.mounted {
                    steps.push(CleanupStep::RunCommand { cmd: b.unmount_cmd() });
                }
            },
            BackupType::Psql(_) | BackupType::Influxdb(_) => {
                if self.handle.proxy_live {
                    steps.push(CleanupStep::KillProxy);
                }
                match &self.handle.dump_file {
                    Some(p) => {
                        steps.push(CleanupStep::RemoveFile { path: p.clone() });
                    },
                    None => {
                    },
                };
                proof {
                    assert(steps@ =~= spec_dump_cleanup(self.handle));
                }
            },
        }
        self.phase = RunPhase::Idle;
        self.handle = PrepareHandle::new_empty();
        self.cleanups_this_cycle = self.cleanups_this_cycle + 1;
        steps
    }
}

/// The teardown of a dump source: terminate the proxy where one is
/// still running, then remove the dump file where one was written.
pub open spec fn spec_dump_cleanup(handle: PrepareHandle) -> Seq<CleanupStep> {
    (if handle.proxy_live {
        seq![CleanupStep::KillProxy]
    } else {
        Seq::empty()
    }) + (match handle.dump_file {
        Some(p) => seq![CleanupStep::RemoveFile { path: p }],
        None => Seq::empty(),
    })
}

/// After a failed preparation the group has requested no backup: the
/// backup step of a failed group is always skipped.
pub proof fn lemma_failed_prepare_skips_backup(r: GroupRun)
    requires
        r.wf(),
        r.phase is Failed,
    ensures
        r.backups_this_cycle == 0,
{
}

} // verus!
