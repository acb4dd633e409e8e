use borg_backup::cmd::CmdOutput;
use borg_backup::folder::{FolderEntry, FolderKind, FolderOptions};
use borg_backup::sources::influxdb::InfluxdbBackup;
use borg_backup::sources::local::{LocalBackup, LocalFolder};
use borg_backup::sources::psql::{PsqlBackup, PsqlFolder};
use borg_backup::sources::saves::{GameSettings, JsonOutput, SaveBackup, SaveGameReport};
use borg_backup::sources::ssh::{SSHBackup, SSHFolder};
use borg_backup::sources::BackupType;

fn entry_tags(e: &FolderEntry<FolderKind>) -> &Vec<String> {
    &e.tags
}

#[test]
fn test_tags() {
    let back = SaveBackup {
        games: vec![GameSettings {
            name: "Stardew Valley".to_string(),
            tags: vec!["local_tag".to_string()],
        }],
        tags: vec!["global_tag".to_string()],
        binary: None,
    };
    let report = JsonOutput {
        games: vec![
            SaveGameReport {
                name: "Stardew Valley".to_string(),
                operative: true,
                files: vec!["/home/player/.config/StardewValley/Saves/save1".to_string()],
            },
            SaveGameReport {
                name: "Another Game".to_string(),
                operative: true,
                files: vec!["/home/player/.local/share/another/slot0".to_string()],
            },
        ],
    };
    let folders = back.get_folders(&report);
    assert!(folders.len() >= 1);

    assert!(folders
        .iter()
        .all(|entry| entry_tags(entry).contains(&"global_tag".to_string())));
    assert!(folders.iter().any(|entry| entry.folder.get_path().contains("StardewValley")
        && entry_tags(entry).contains(&"local_tag".to_string())));
}

#[test]
fn test_ludusavi() {
    let back = SaveBackup { games: vec![], tags: vec![], binary: None };
    assert_eq!(back.enumerate_cmd(), "ludusavi backup --preview --api");
    let report = JsonOutput {
        games: vec![SaveGameReport {
            name: "Some Game".to_string(),
            operative: true,
            files: vec!["/home/player/.saves/slot0".to_string()],
        }],
    };
    let folders = back.get_folders(&report);
    assert!(folders.len() >= 1);
}

#[test]
fn test_saves_skip_non_operative_games() {
    let back = SaveBackup { games: vec![], tags: vec![], binary: None };
    let report = JsonOutput {
        games: vec![
            SaveGameReport { name: "Stored".to_string(), operative: false, files: vec![] },
            SaveGameReport {
                name: "Live".to_string(),
                operative: true,
                files: vec!["/a".to_string(), "/b".to_string()],
            },
        ],
    };
    let folders = back.get_folders(&report);
    assert_eq!(folders.len(), 2);
    assert_eq!(folders[0].folder.get_path(), "/a");
    assert_eq!(folders[1].folder.get_path(), "/b");
}

#[test]
fn test_saves_custom_binary() {
    let back = SaveBackup {
        games: vec![],
        tags: vec![],
        binary: Some("/opt/bin/ludusavi".to_string()),
    };
    assert_eq!(back.enumerate_cmd(), "/opt/bin/ludusavi backup --preview --api");
}

#[test]
fn test_ssh_folder_path_resolution() {
    // Configured path /var/data under mount point /tmp/backup/host:
    // the leading separator is stripped before joining.
    let folder = SSHFolder {
        path: "/var/data".to_string(),
        prefix: "/tmp/backup/host".to_string(),
        target: "host".to_string(),
    };
    assert_eq!(folder.get_path(), "/tmp/backup/host/var/data");

    let relative = SSHFolder {
        path: "var/data".to_string(),
        prefix: "/tmp/backup/host".to_string(),
        target: "host".to_string(),
    };
    assert_eq!(relative.get_path(), "/tmp/backup/host/var/data");
}

#[test]
fn test_ssh_hostname_from_target() {
    let with_user = SSHBackup { target: "alice@files.example".to_string(), folders: vec![] };
    assert_eq!(with_user.get_hostname(), "files.example");

    let alias = SSHBackup { target: "backupbox".to_string(), folders: vec![] };
    assert_eq!(alias.get_hostname(), "backupbox");
}

#[test]
fn test_ssh_commands_and_options() {
    let back = SSHBackup { target: "alice@files.example".to_string(), folders: vec![] };
    assert_eq!(back.get_mount_path(), "/tmp/backup/alice@files.example");
    assert_eq!(
        back.mount_cmd(),
        "sshfs alice@files.example:/ /tmp/backup/alice@files.example"
    );
    assert_eq!(back.unmount_cmd(), "fusermount -u /tmp/backup/alice@files.example");
    assert_eq!(back.get_additional_options(), "--files-cache ctime,size");

    let local = BackupType::Local(LocalBackup { folders: vec![] });
    assert_eq!(local.get_additional_options(), "");
}

#[test]
fn test_ssh_enumeration_roots_under_mount_point() {
    let back = SSHBackup {
        target: "host".to_string(),
        folders: vec![FolderEntry {
            tags: vec!["important".to_string()],
            options: None,
            folder: SSHFolder {
                path: "/srv/www".to_string(),
                prefix: String::new(),
                target: String::new(),
            },
        }],
    };
    let folders = back.get_folders();
    assert_eq!(folders.len(), 1);
    assert_eq!(folders[0].tags, vec!["important".to_string()]);
    assert_eq!(folders[0].folder.get_path(), "/tmp/backup/host/srv/www");
}

#[test]
fn test_ssh_size_from_du_output() {
    let folder = SSHFolder {
        path: "/srv".to_string(),
        prefix: String::new(),
        target: "host".to_string(),
    };
    assert_eq!(folder.du_cmd(), "ssh host du -s /srv 2>/dev/null | cut -f1");

    let ok = CmdOutput { success: true, stdout: " 4096\n".to_string(), stderr: String::new() };
    assert_eq!(folder.size_from_output(&ok), 4096);

    let failed = CmdOutput { success: false, stdout: "9".to_string(), stderr: String::new() };
    assert_eq!(folder.size_from_output(&failed), 0);

    let junk = CmdOutput { success: true, stdout: "du: denied".to_string(), stderr: String::new() };
    assert_eq!(folder.size_from_output(&junk), 0);
}

#[test]
fn test_local_enumeration_keeps_entries() {
    let back = LocalBackup {
        folders: vec![
            FolderEntry {
                tags: vec!["important".to_string()],
                options: Some(FolderOptions { skip_size: true }),
                folder: LocalFolder::new("/data/a"),
            },
            FolderEntry { tags: vec![], options: None, folder: LocalFolder::new("/data/b") },
        ],
    };
    let folders = back.get_folders();
    assert_eq!(folders.len(), 2);
    assert_eq!(folders[0].folder.get_path(), "/data/a");
    assert_eq!(folders[0].tags, vec!["important".to_string()]);
    assert!(folders[0].skip_size());
    assert!(!folders[1].skip_size());
}

#[test]
fn test_psql_paths_and_commands() {
    let with_host = PsqlBackup {
        user: "postgres".to_string(),
        password: "pw".to_string(),
        port: 5432,
        host: Some("db.example".to_string()),
        k8s_deployment: None,
        tags: vec![],
    };
    assert_eq!(with_host.get_hostname(), "db.example");
    assert_eq!(with_host.get_mount_path(), "/tmp/backup/postgresql-db.example");
    assert_eq!(
        with_host.dump_cmd(),
        "pg_dumpall --dbname=postgresql://postgres:pw@db.example:5432"
    );

    let proxied = PsqlBackup {
        user: "postgres".to_string(),
        password: "pw".to_string(),
        port: 5432,
        host: None,
        k8s_deployment: Some("pg-main".to_string()),
        tags: vec![],
    };
    assert_eq!(proxied.get_hostname(), "pg-main");
    assert_eq!(proxied.get_mount_path(), "/tmp/backup/postgresql-nohost");
    assert_eq!(
        proxied.dump_cmd(),
        "pg_dumpall --dbname=postgresql://postgres:pw@127.0.0.1:5432"
    );

    let bare = PsqlBackup {
        user: "u".to_string(),
        password: "p".to_string(),
        port: 5432,
        host: None,
        k8s_deployment: None,
        tags: vec![],
    };
    assert_eq!(bare.get_hostname(), "psql_back");
}

#[test]
fn test_psql_enumeration_yields_single_dump_entry() {
    let back = PsqlBackup {
        user: "u".to_string(),
        password: "p".to_string(),
        port: 5432,
        host: Some("db".to_string()),
        k8s_deployment: None,
        tags: vec!["db-tag".to_string()],
    };
    let folders = back.get_folders();
    assert_eq!(folders.len(), 1);
    assert_eq!(folders[0].tags, vec!["db-tag".to_string()]);
    assert_eq!(folders[0].folder.get_path(), "/tmp/backup/postgresql-db");

    let dump = PsqlFolder::new("/tmp/backup/postgresql-db");
    assert_eq!(dump.get_size(), 0);
}

#[test]
fn test_influxdb_paths_and_commands() {
    let back = InfluxdbBackup {
        token: "tok123".to_string(),
        port: None,
        host: None,
        k8s_deployment: Some("influx-main".to_string()),
        k8s_namespace: None,
        tags: vec![],
    };
    assert_eq!(back.get_hostname(), "influx-main");
    assert_eq!(back.get_mount_path(), "/tmp/backup/influx-main");
    assert_eq!(
        back.dump_cmd(),
        "influx backup --host http://127.0.0.1:8086 --token tok123 /tmp/backup/influx-main"
    );

    let folders = back.get_folders();
    assert_eq!(folders.len(), 1);
    assert_eq!(folders[0].folder.get_path(), "/tmp/backup/influx-main");
}

#[test]
fn test_identity_prefix_chains() {
    let machine = Some("workstation".to_string());
    let local = BackupType::Local(LocalBackup { folders: vec![] });
    assert_eq!(local.identity_prefix(&machine), "workstation");
    assert_eq!(local.identity_prefix(&None), "psql_back");

    let ssh = BackupType::Ssh(SSHBackup { target: "bob@box".to_string(), folders: vec![] });
    assert_eq!(ssh.identity_prefix(&machine), "box");

    let saves = BackupType::Saves(SaveBackup { games: vec![], tags: vec![], binary: None });
    assert_eq!(saves.identity_prefix(&machine), "workstation");
}
