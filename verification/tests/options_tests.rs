use borg_backup::cmd::CmdOutput;
use borg_backup::options::{
    PasswordOptions, PasswordStore, PlainPassword, PruneSettings, RepositoryOptions,
};
use borg_backup::repo::{Borg, Repositories, Repository};

fn empty_prune() -> PruneSettings {
    PruneSettings { yearly: None, monthly: None, weekly: None, daily: None, hourly: None }
}

fn empty_options() -> RepositoryOptions {
    RepositoryOptions { prune: None, password: None, cmdline: None }
}

#[test]
fn test_from_str() {
    let repo1 = Repository {
        path: "a".to_string(),
        tags: vec![],
        options: empty_options(),
    };
    let repo2 = Repository::from_str("a");

    assert_eq!(repo1.path, repo2.path);
    assert_eq!(repo1.tags, repo2.tags);
}

#[test]
fn test_prune_merge_absent_child_keeps_parent() {
    let parent = PruneSettings {
        yearly: Some(1),
        monthly: Some(6),
        weekly: Some(4),
        daily: Some(7),
        hourly: None,
    };
    let merged = empty_prune().merge(&parent);
    assert_eq!(merged.yearly, Some(1));
    assert_eq!(merged.monthly, Some(6));
    assert_eq!(merged.weekly, Some(4));
    assert_eq!(merged.daily, Some(7));
    assert_eq!(merged.hourly, None);
}

#[test]
fn test_prune_merge_full_child_wins() {
    let child = PruneSettings {
        yearly: Some(9),
        monthly: Some(8),
        weekly: Some(7),
        daily: Some(6),
        hourly: Some(5),
    };
    let parent = PruneSettings {
        yearly: Some(1),
        monthly: Some(2),
        weekly: Some(3),
        daily: Some(4),
        hourly: Some(0),
    };
    let merged = child.merge(&parent);
    assert_eq!(merged.yearly, Some(9));
    assert_eq!(merged.monthly, Some(8));
    assert_eq!(merged.weekly, Some(7));
    assert_eq!(merged.daily, Some(6));
    assert_eq!(merged.hourly, Some(5));
}

#[test]
fn test_options_merge_absent_child_keeps_parent() {
    let parent = RepositoryOptions {
        prune: Some(PruneSettings { daily: Some(7), ..empty_prune() }),
        password: Some(PasswordOptions::Plain(PlainPassword { value: "pw".to_string() })),
        cmdline: Some("--progress".to_string()),
    };
    let merged = empty_options().merge(&parent);
    assert_eq!(merged.prune.as_ref().unwrap().daily, Some(7));
    assert_eq!(merged.cmdline.as_deref(), Some("--progress"));
    match merged.password {
        Some(PasswordOptions::Plain(p)) => assert_eq!(p.value, "pw"),
        _ => panic!("parent password lost in merge"),
    }
}

#[test]
fn test_options_merge_is_associative() {
    // Three levels of inheritance: a overrides b overrides c.
    let a = RepositoryOptions {
        prune: Some(PruneSettings { daily: Some(1), ..empty_prune() }),
        password: None,
        cmdline: None,
    };
    let b = RepositoryOptions {
        prune: Some(PruneSettings { weekly: Some(2), ..empty_prune() }),
        password: None,
        cmdline: Some("-v".to_string()),
    };
    let c = RepositoryOptions {
        prune: Some(PruneSettings { daily: Some(9), monthly: Some(3), ..empty_prune() }),
        password: Some(PasswordOptions::Plain(PlainPassword { value: "pw".to_string() })),
        cmdline: Some("-q".to_string()),
    };

    let left = a.merge(&b).merge(&c);
    let right = a.merge(&b.merge(&c));

    let lp = left.prune.unwrap();
    let rp = right.prune.unwrap();
    assert_eq!(lp.daily, rp.daily);
    assert_eq!(lp.weekly, rp.weekly);
    assert_eq!(lp.monthly, rp.monthly);
    assert_eq!(lp.yearly, rp.yearly);
    assert_eq!(lp.hourly, rp.hourly);
    assert_eq!(lp.daily, Some(1));
    assert_eq!(lp.weekly, Some(2));
    assert_eq!(lp.monthly, Some(3));
    assert_eq!(left.cmdline, right.cmdline);
    assert_eq!(left.cmdline.as_deref(), Some("-v"));
}

#[test]
fn test_plain_password_resolves_to_value() {
    let policy = PasswordOptions::Plain(PlainPassword { value: "secret".to_string() });
    assert_eq!(policy.lookup_cmd(), None);
    assert_eq!(policy.get_password(&None), Some("secret".to_string()));
}

#[test]
fn test_store_password_lookup_command_and_result() {
    let policy = PasswordOptions::PasswordStore(PasswordStore {
        system: "borg".to_string(),
        user: "alice".to_string(),
    });
    assert_eq!(policy.lookup_cmd().as_deref(), Some("secret-tool lookup borg alice"));

    let hit = CmdOutput {
        success: true,
        stdout: "stored-secret".to_string(),
        stderr: String::new(),
    };
    assert_eq!(policy.get_password(&Some(hit)), Some("stored-secret".to_string()));

    let miss = CmdOutput { success: false, stdout: String::new(), stderr: String::new() };
    assert_eq!(policy.get_password(&Some(miss)), None);
    assert_eq!(policy.get_password(&None), None);
}

#[test]
fn test_resolved_password_falls_back_to_prompt() {
    let repo = Repository {
        path: "/backup/repo".to_string(),
        tags: vec![],
        options: RepositoryOptions {
            prune: None,
            password: Some(PasswordOptions::PasswordStore(PasswordStore {
                system: "borg".to_string(),
                user: "alice".to_string(),
            })),
            cmdline: None,
        },
    };
    let miss = CmdOutput { success: false, stdout: String::new(), stderr: String::new() };
    // Lookup failed, prompt supplied a value: the prompt wins.
    assert_eq!(
        repo.resolved_password(&Some(miss), &Some("typed".to_string())),
        Some("typed".to_string())
    );
    // Lookup failed and the prompt failed too: fatal for this repository.
    let miss2 = CmdOutput { success: false, stdout: String::new(), stderr: String::new() };
    assert_eq!(repo.resolved_password(&Some(miss2), &None), None);
}

#[test]
fn test_fill_parent_options_merges_global_defaults() {
    let global = RepositoryOptions {
        prune: Some(PruneSettings { daily: Some(7), weekly: Some(4), ..empty_prune() }),
        password: None,
        cmdline: Some("--stats".to_string()),
    };
    let repo_own = RepositoryOptions {
        prune: Some(PruneSettings { weekly: Some(2), ..empty_prune() }),
        password: None,
        cmdline: None,
    };
    let mut borg = Borg {
        repository: Repositories {
            repositories: vec![
                Repository { path: "/r0".to_string(), tags: vec![], options: empty_options() },
                Repository { path: "/r1".to_string(), tags: vec![], options: repo_own },
            ],
            options: global,
        },
        backups: vec![],
        excludes: vec![],
        conditional_excludes: vec![],
        timestamp: "t".to_string(),
    };
    borg.fill_parent_options();

    let r0 = &borg.repository.repositories[0];
    assert_eq!(r0.path, "/r0");
    let p0 = r0.options.prune.as_ref().unwrap();
    assert_eq!(p0.daily, Some(7));
    assert_eq!(p0.weekly, Some(4));
    assert_eq!(r0.options.cmdline.as_deref(), Some("--stats"));

    let r1 = &borg.repository.repositories[1];
    let p1 = r1.options.prune.as_ref().unwrap();
    // The repository's own weekly count overrides the global one; the
    // global daily count is inherited.
    assert_eq!(p1.weekly, Some(2));
    assert_eq!(p1.daily, Some(7));
}

#[test]
fn test_prune_command_inherits_global_daily() {
    // Repository-level prune {daily: None} over global {daily: 7}: the
    // prune invocation keeps 7 daily archives.
    let global = RepositoryOptions {
        prune: Some(PruneSettings { daily: Some(7), ..empty_prune() }),
        password: None,
        cmdline: None,
    };
    let mut repo = Repository {
        path: "/backup/repo".to_string(),
        tags: vec![],
        options: RepositoryOptions {
            prune: Some(PruneSettings { daily: None, monthly: Some(6), ..empty_prune() }),
            password: None,
            cmdline: None,
        },
    };
    repo.merge_options(&global);
    let cmd = repo.prune_cmd("myhost");
    assert_eq!(
        cmd,
        "borg prune --list --stats -v --keep-daily=7 --keep-weekly=0 --keep-monthly=6 \
         --keep-yearly=0 --glob-archives 'myhost*' /backup/repo"
    );
}

#[test]
fn test_info_and_repo_commands() {
    let repo = Repository {
        path: "/backup/repo".to_string(),
        tags: vec![],
        options: empty_options(),
    };
    assert_eq!(repo.info_cmd(), "borg info /backup/repo");
    assert_eq!(repo.repo_cmd("compact"), "borg compact /backup/repo");
}
