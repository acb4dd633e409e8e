use borg_backup::engine::{filter_entries, patterns_content, exclude_args, GroupRun, RunPhase};
use borg_backup::folder::{FolderEntry, FolderKind};
use borg_backup::lifecycle::{
    CleanupStep, PrepAction, PrepEvent, PrepareMachine,
};
use borg_backup::options::RepositoryOptions;
use borg_backup::repo::Repository;
use borg_backup::sources::local::{LocalBackup, LocalFolder};
use borg_backup::sources::psql::PsqlBackup;
use borg_backup::sources::ssh::SSHBackup;
use borg_backup::sources::{BackupGroup, BackupType};

fn local_entry(path: &str, tags: Vec<&str>) -> FolderEntry<FolderKind> {
    FolderEntry {
        tags: tags.into_iter().map(|t| t.to_string()).collect(),
        options: None,
        folder: FolderKind::Local(LocalFolder::new(path)),
    }
}

fn plain_repo(path: &str, tags: Vec<&str>) -> Repository {
    Repository {
        path: path.to_string(),
        tags: tags.into_iter().map(|t| t.to_string()).collect(),
        options: RepositoryOptions { prune: None, password: None, cmdline: None },
    }
}

#[test]
fn test_tag_filtering() {
    let entries = vec![
        local_entry("/a", vec!["important"]),
        local_entry("/b", vec!["misc"]),
        local_entry("/c", vec![]),
    ];
    let repo_tags = vec!["important".to_string()];
    let kept = filter_entries(entries, &repo_tags);
    assert_eq!(kept.len(), 1);
    assert_eq!(kept[0].folder.get_path(), "/a");

    let entries = vec![
        local_entry("/a", vec!["important"]),
        local_entry("/b", vec!["misc"]),
        local_entry("/c", vec![]),
    ];
    let no_tags: Vec<String> = vec![];
    let kept = filter_entries(entries, &no_tags);
    assert_eq!(kept.len(), 3);
}

#[test]
fn test_patterns_and_exclude_args() {
    let paths = vec!["/data/a".to_string(), "/data/b".to_string()];
    assert_eq!(patterns_content(&paths), "R /data/a\nR /data/b");
    assert_eq!(patterns_content(&vec![]), "");

    let excludes = vec!["*.tmp".to_string(), "cache".to_string()];
    assert_eq!(exclude_args(&excludes), " --exclude *.tmp --exclude cache");
    assert_eq!(exclude_args(&vec![]), "");
}

#[test]
fn test_create_run_backs_up_only_tagged_entry() {
    // One local group with two entries, tagged ["important"] and [];
    // a repository tagged ["important"]: exactly one backup command,
    // whose patterns file holds exactly the first folder's path.
    let source = BackupType::Local(LocalBackup {
        folders: vec![
            FolderEntry {
                tags: vec!["important".to_string()],
                options: None,
                folder: LocalFolder::new("/data/a"),
            },
            FolderEntry { tags: vec![], options: None, folder: LocalFolder::new("/data/b") },
        ],
    });
    let repo = plain_repo("/backup/repo", vec!["important"]);
    let excludes: Vec<String> = vec![];

    let mut run = GroupRun::new();
    run.begin_prepare();

    let mut machine = PrepareMachine::new(&source, 16);
    let outcome = loop {
        match machine.action() {
            PrepAction::Done { ok } => break ok,
            other => panic!("a local source asks for no external action, got {:?}", other),
        }
    };
    assert!(outcome);
    run.finish_prepare(outcome, machine.handle_copy());
    assert!(matches!(run.phase, RunPhase::Ready));

    let entries = source.get_folders(&None);
    let request = run
        .backup_request(&source, &repo, &excludes, entries, "myhost", "2024-05-01T10:00:00+00:00")
        .expect("one entry passes the filter, a backup is owed");

    assert_eq!(request.patterns, "R /data/a");
    assert_eq!(request.archive_name, "myhost-2024-05-01T10:00:00+00:00");
    assert_eq!(request.repo_path, "/backup/repo");
    assert_eq!(run.backups_this_cycle, 1);

    let cmd = request.command("/tmp/patterns");
    assert_eq!(
        cmd,
        "borg create   /backup/repo::myhost-2024-05-01T10:00:00+00:00  \
         --exclude-if-present .nobackup --exclude-if-present CACHEDIR.TAG \
         --patterns-from /tmp/patterns"
    );

    let steps = run.cleanup(&source);
    assert!(steps.is_empty());
    assert_eq!(run.cleanups_this_cycle, 1);
}

#[test]
fn test_no_matching_entries_skips_backup() {
    let source = BackupType::Local(LocalBackup {
        folders: vec![FolderEntry {
            tags: vec!["misc".to_string()],
            options: None,
            folder: LocalFolder::new("/data/a"),
        }],
    });
    let repo = plain_repo("/backup/repo", vec!["important"]);
    let mut run = GroupRun::new();
    run.begin_prepare();
    run.finish_prepare(true, PrepareMachine::new(&source, 4).handle_copy());
    let entries = source.get_folders(&None);
    let request = run.backup_request(&source, &repo, &vec![], entries, "h", "t");
    assert!(request.is_none());
    assert_eq!(run.backups_this_cycle, 0);
    let steps = run.cleanup(&source);
    assert!(steps.is_empty());
}

#[test]
fn test_proxy_exit_fails_prepare_and_cleanup_runs_once() {
    // A dump source whose proxy process exits before the port opens:
    // prepare fails, the backup step is skipped, cleanup runs exactly
    // once and touches nothing that was never acquired.
    let source = BackupType::Psql(PsqlBackup {
        user: "u".to_string(),
        password: "p".to_string(),
        port: 5432,
        host: None,
        k8s_deployment: Some("pg-main".to_string()),
        tags: vec![],
    });

    let mut run = GroupRun::new();
    run.begin_prepare();

    let mut machine = PrepareMachine::new(&source, 16);
    match machine.action() {
        PrepAction::StartProxy { cmd } => {
            assert_eq!(cmd, "kubectl -n default port-forward pg-main 5432:5432");
        }
        other => panic!("expected the proxy spawn first, got {:?}", other),
    }
    machine.feed(&PrepEvent::ProxySpawned { success: true });
    match machine.action() {
        PrepAction::PollPort { port } => assert_eq!(port, 5432),
        other => panic!("expected a port poll, got {:?}", other),
    }
    machine.feed(&PrepEvent::PortStatus { listening: false, proxy_exited: true });

    let outcome = machine.outcome().expect("the machine has finished");
    assert!(!outcome);

    run.finish_prepare(outcome, machine.handle_copy());
    assert!(matches!(run.phase, RunPhase::Failed));
    assert_eq!(run.backups_this_cycle, 0);

    let steps = run.cleanup(&source);
    // The proxy already exited and no dump file was written: nothing to
    // tear down, but the cleanup itself has run.
    assert!(steps.is_empty());
    assert_eq!(run.cleanups_this_cycle, 1);
    assert!(matches!(run.phase, RunPhase::Idle));
}

#[test]
fn test_exhausted_port_wait_leaves_proxy_to_kill() {
    let source = BackupType::Psql(PsqlBackup {
        user: "u".to_string(),
        password: "p".to_string(),
        port: 5432,
        host: None,
        k8s_deployment: Some("pg-main".to_string()),
        tags: vec![],
    });
    let mut machine = PrepareMachine::new(&source, 1);
    machine.feed(&PrepEvent::ProxySpawned { success: true });
    machine.feed(&PrepEvent::PortStatus { listening: false, proxy_exited: false });
    machine.feed(&PrepEvent::PortStatus { listening: false, proxy_exited: false });
    assert_eq!(machine.outcome(), Some(false));

    let mut run = GroupRun::new();
    run.begin_prepare();
    run.finish_prepare(false, machine.handle_copy());
    let steps = run.cleanup(&source);
    // The proxy is still running: exactly one step, its termination.
    assert_eq!(steps.len(), 1);
    assert!(matches!(steps[0], CleanupStep::KillProxy));
}

#[test]
fn test_successful_dump_prepare_and_teardown() {
    let source = BackupType::Psql(PsqlBackup {
        user: "u".to_string(),
        password: "p".to_string(),
        port: 5432,
        host: Some("db".to_string()),
        k8s_deployment: None,
        tags: vec![],
    });
    let mut machine = PrepareMachine::new(&source, 4);
    match machine.action() {
        PrepAction::RunDump { cmd } => {
            assert_eq!(cmd, "pg_dumpall --dbname=postgresql://u:p@db:5432");
        }
        other => panic!("expected the dump command, got {:?}", other),
    }
    machine.feed(&PrepEvent::DumpFinished { success: true });
    match machine.action() {
        PrepAction::WriteDumpFile { path } => {
            assert_eq!(path, "/tmp/backup/postgresql-db");
        }
        other => panic!("expected the dump-file write, got {:?}", other),
    }
    machine.feed(&PrepEvent::FileWritten { success: true });
    assert_eq!(machine.outcome(), Some(true));

    let mut run = GroupRun::new();
    run.begin_prepare();
    run.finish_prepare(true, machine.handle_copy());
    let steps = run.cleanup(&source);
    assert_eq!(steps.len(), 1);
    match &steps[0] {
        CleanupStep::RemoveFile { path } => assert_eq!(path, "/tmp/backup/postgresql-db"),
        other => panic!("expected the dump file's removal, got {:?}", other),
    }
}

#[test]
fn test_cleanup_after_failed_mount_is_idempotent() {
    // A failed mount acquired nothing: cleanup tears nothing down and
    // may be repeated without effect.
    let source = BackupType::Ssh(SSHBackup { target: "host".to_string(), folders: vec![] });
    let mut machine = PrepareMachine::new(&source, 4);
    match machine.action() {
        PrepAction::CreateMountDir { path } => assert_eq!(path, "/tmp/backup/host"),
        other => panic!("expected the mount directory creation, got {:?}", other),
    }
    machine.feed(&PrepEvent::DirCreated);
    match machine.action() {
        PrepAction::RunMount { cmd } => assert_eq!(cmd, "sshfs host:/ /tmp/backup/host"),
        other => panic!("expected the mount command, got {:?}", other),
    }
    machine.feed(&PrepEvent::MountFinished { success: false });
    assert_eq!(machine.outcome(), Some(false));

    let mut run = GroupRun::new();
    run.begin_prepare();
    run.finish_prepare(false, machine.handle_copy());
    let steps = run.cleanup(&source);
    assert!(steps.is_empty());
    let again = run.cleanup(&source);
    assert!(again.is_empty());
    assert_eq!(run.cleanups_this_cycle, 2);
}

#[test]
fn test_successful_mount_is_unmounted() {
    let source = BackupType::Ssh(SSHBackup { target: "host".to_string(), folders: vec![] });
    let mut machine = PrepareMachine::new(&source, 4);
    machine.feed(&PrepEvent::DirCreated);
    machine.feed(&PrepEvent::MountFinished { success: true });
    assert_eq!(machine.outcome(), Some(true));

    let mut run = GroupRun::new();
    run.begin_prepare();
    run.finish_prepare(true, machine.handle_copy());
    let steps = run.cleanup(&source);
    assert_eq!(steps.len(), 1);
    match &steps[0] {
        CleanupStep::RunCommand { cmd } => assert_eq!(cmd, "fusermount -u /tmp/backup/host"),
        other => panic!("expected the unmount command, got {:?}", other),
    }
}

#[test]
fn test_prune_commands_per_group_prefix() {
    let repo = plain_repo("/backup/repo", vec![]);
    let groups = vec![
        BackupGroup {
            name: "remote".to_string(),
            source: BackupType::Ssh(SSHBackup { target: "bob@box".to_string(), folders: vec![] }),
        },
        BackupGroup {
            name: "home".to_string(),
            source: BackupType::Local(LocalBackup { folders: vec![] }),
        },
    ];
    let machine = Some("workstation".to_string());
    let cmds = repo.prune_cmds(&groups, &machine);
    assert_eq!(cmds.len(), 2);
    assert_eq!(
        cmds[0],
        "borg prune --list --stats -v --keep-daily=0 --keep-weekly=0 --keep-monthly=0 \
         --keep-yearly=0 --glob-archives 'box*' /backup/repo"
    );
    assert!(cmds[1].contains("--glob-archives 'workstation*'"));
}
