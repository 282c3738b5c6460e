use restic_snapshot::command::BackupError;
use restic_snapshot::command::ProcessOutcome;
use restic_snapshot::config::ResticConfig;
use restic_snapshot::config::SourceConfig;
use restic_snapshot::transaction::Action;
use restic_snapshot::transaction::Event;
use restic_snapshot::transaction::PathKind;
use restic_snapshot::transaction::Phase;
use restic_snapshot::transaction::Transaction;

fn sample_source() -> SourceConfig {
    SourceConfig {
        vg: "data".to_string(),
        lv: "home".to_string(),
        snapshot_size: "10GiB".to_string(),
    }
}

fn sample_restic() -> ResticConfig {
    ResticConfig {
        exe_path: "/usr/bin/restic".to_string(),
        repo_dir: "/srv/repo".to_string(),
        cache_dir: "/var/cache/restic".to_string(),
        password_file: "/etc/restic/pw".to_string(),
    }
}

fn ran_ok() -> Event {
    Event::Ran(ProcessOutcome::Exited { code: Some(0), stdout: Vec::new(), stderr: Vec::new() })
}

fn ran_failed(code: i32) -> Event {
    Event::Ran(ProcessOutcome::Exited {
        code: Some(code),
        stdout: b"out".to_vec(),
        stderr: b"err".to_vec(),
    })
}

fn expect_run_argv(t: &Transaction) -> Vec<String> {
    match t.next_action() {
        Some(Action::Run(c)) => {
            let mut argv = vec![c.program.clone()];
            argv.extend(c.args.iter().cloned());
            argv
        },
        _ => panic!("expected a command to run"),
    }
}

#[test]
fn full_transaction_runs_the_five_commands_in_order_even_when_backup_fails() {
    let mut t = Transaction::new(&sample_source(), &sample_restic(), "2024_0101_000000-00", "/mnt");

    match t.next_action() {
        Some(Action::Probe(p)) => assert_eq!(p, "/mnt/2024_0101_000000-00"),
        _ => panic!("expected a probe of the mount directory"),
    }
    t.step(Event::PathProbed(PathKind::Directory));

    assert_eq!(
        expect_run_argv(&t),
        vec![
            "lvcreate",
            "--size",
            "10GiB",
            "--snapshot",
            "--name",
            "2024_0101_000000-00",
            "/dev/data/home",
        ]
    );
    t.step(ran_ok());

    assert_eq!(
        expect_run_argv(&t),
        vec!["mount", "/dev/data/2024_0101_000000-00", "/mnt/2024_0101_000000-00"]
    );
    t.step(ran_ok());

    let snap = t.snapshot.as_ref().expect("a snapshot value exists while mounted");
    assert_eq!(snap.vol_path, "/dev/data/2024_0101_000000-00");
    assert_eq!(snap.mount_path, "/mnt/2024_0101_000000-00");

    let backup = expect_run_argv(&t);
    assert_eq!(backup[0], "/usr/bin/restic");
    assert_eq!(
        backup[1..].to_vec(),
        vec![
            "--quiet",
            "--repo",
            "/srv/repo",
            "--cache-dir",
            "/var/cache/restic",
            "--password-file",
            "/etc/restic/pw",
            "backup",
            "--one-file-system",
            "--tag",
            "home",
            "/mnt/2024_0101_000000-00",
        ]
    );
    // The backup tool itself fails; release must still run in full.
    t.step(ran_failed(3));

    assert_eq!(expect_run_argv(&t), vec!["umount", "/mnt/2024_0101_000000-00"]);
    t.step(ran_ok());

    match t.next_action() {
        Some(Action::RemoveDirectory(p)) => assert_eq!(p, "/mnt/2024_0101_000000-00"),
        _ => panic!("expected the mount directory removal"),
    }
    t.step(Event::DirRemoved(None));

    assert_eq!(
        expect_run_argv(&t),
        vec!["lvremove", "--yes", "/dev/data/2024_0101_000000-00"]
    );
    t.step(ran_ok());

    assert_eq!(t.phase, Phase::Done);
    assert!(t.next_action().is_none());
    assert!(t.acquired);
    assert!(t.released);
    assert!(t.snapshot.is_none());
    // The backup failure is the reported error, not masked by the release.
    match t.first_error() {
        Some(BackupError::NonZeroExit(cr)) => assert_eq!(cr.exit_code, Some(3)),
        _ => panic!("expected the backup failure to be reported"),
    }
}

#[test]
fn successful_transaction_reports_no_error() {
    let mut t = Transaction::new(&sample_source(), &sample_restic(), "snap", "/mnt");
    t.step(Event::PathProbed(PathKind::Directory));
    t.step(ran_ok()); // volume create
    t.step(ran_ok()); // mount
    t.step(ran_ok()); // backup
    t.step(ran_ok()); // unmount
    t.step(Event::DirRemoved(None));
    t.step(ran_ok()); // volume remove
    assert_eq!(t.phase, Phase::Done);
    assert!(t.first_error().is_none());
    assert!(t.released);
}

#[test]
fn existing_mount_directory_is_reused() {
    let mut t = Transaction::new(&sample_source(), &sample_restic(), "snap", "/mnt");
    t.step(Event::PathProbed(PathKind::Directory));
    // Directory preparation succeeded: the next step creates the volume.
    assert_eq!(t.phase, Phase::CreateVolume);
    assert_eq!(expect_run_argv(&t)[0], "lvcreate");
}

#[test]
fn mount_path_occupied_by_a_file_is_a_path_conflict() {
    let mut t = Transaction::new(&sample_source(), &sample_restic(), "snap", "/mnt");
    t.step(Event::PathProbed(PathKind::OtherFile));
    assert_eq!(t.phase, Phase::Done);
    match t.first_error() {
        Some(BackupError::PathConflict(p)) => assert_eq!(p, "/mnt/snap"),
        _ => panic!("expected a path conflict"),
    }
    // Acquisition failed: release is never invoked.
    assert!(!t.acquired);
    assert!(!t.released);
    assert!(t.next_action().is_none());
}

#[test]
fn missing_mount_directory_is_created() {
    let mut t = Transaction::new(&sample_source(), &sample_restic(), "snap", "/mnt");
    t.step(Event::PathProbed(PathKind::Missing));
    match t.next_action() {
        Some(Action::MakeDir(p)) => assert_eq!(p, "/mnt/snap"),
        _ => panic!("expected a directory creation"),
    }
    t.step(Event::DirMade(None));
    assert_eq!(t.phase, Phase::CreateVolume);
}

#[test]
fn directory_creation_failure_ends_the_transaction() {
    let mut t = Transaction::new(&sample_source(), &sample_restic(), "snap", "/mnt");
    t.step(Event::PathProbed(PathKind::Missing));
    t.step(Event::DirMade(Some("permission denied".to_string())));
    assert_eq!(t.phase, Phase::Done);
    match t.first_error() {
        Some(BackupError::DirectoryError(p, m)) => {
            assert_eq!(p, "/mnt/snap");
            assert_eq!(m, "permission denied");
        },
        _ => panic!("expected a directory error"),
    }
    assert!(!t.released);
}

#[test]
fn volume_creation_failure_needs_no_cleanup() {
    let mut t = Transaction::new(&sample_source(), &sample_restic(), "snap", "/mnt");
    t.step(Event::PathProbed(PathKind::Directory));
    t.step(ran_failed(5));
    assert_eq!(t.phase, Phase::Done);
    assert!(!t.acquired);
    assert!(!t.released);
    assert!(t.snapshot.is_none());
    match t.first_error() {
        Some(BackupError::NonZeroExit(cr)) => assert_eq!(cr.exit_code, Some(5)),
        _ => panic!("expected the volume-creation failure"),
    }
}

#[test]
fn mount_failure_surfaces_as_partial_mount_failure() {
    let mut t = Transaction::new(&sample_source(), &sample_restic(), "snap", "/mnt");
    t.step(Event::PathProbed(PathKind::Directory));
    t.step(ran_ok()); // volume create
    t.step(ran_failed(32)); // mount fails: volume exists, nothing to release
    assert_eq!(t.phase, Phase::Done);
    assert!(!t.acquired);
    assert!(t.snapshot.is_none());
    match t.first_error() {
        Some(BackupError::PartialMountFailure { vol_group, snapshot_name, device, cause }) => {
            assert_eq!(vol_group, "data");
            assert_eq!(snapshot_name, "snap");
            assert_eq!(device, "/dev/data/snap");
            match cause.as_ref() {
                BackupError::NonZeroExit(cr) => assert_eq!(cr.exit_code, Some(32)),
                _ => panic!("expected the mount failure as the cause"),
            }
        },
        _ => panic!("expected a partial mount failure"),
    }
}

#[test]
fn launch_failure_of_backup_tool_still_releases() {
    let mut t = Transaction::new(&sample_source(), &sample_restic(), "snap", "/mnt");
    t.step(Event::PathProbed(PathKind::Directory));
    t.step(ran_ok());
    t.step(ran_ok());
    t.step(Event::Ran(ProcessOutcome::LaunchFailed("not found".to_string())));
    // Release still runs.
    assert_eq!(t.phase, Phase::Unmount);
    t.step(ran_ok());
    t.step(Event::DirRemoved(None));
    t.step(ran_ok());
    assert!(t.released);
    match t.first_error() {
        Some(BackupError::LaunchError(m)) => assert_eq!(m, "not found"),
        _ => panic!("expected the launch failure to be reported"),
    }
}

#[test]
fn first_release_error_is_kept_but_does_not_stop_release() {
    let mut t = Transaction::new(&sample_source(), &sample_restic(), "snap", "/mnt");
    t.step(Event::PathProbed(PathKind::Directory));
    t.step(ran_ok());
    t.step(ran_ok());
    t.step(ran_ok()); // backup succeeds
    t.step(ran_failed(1)); // unmount fails
    // The remaining release steps are still attempted.
    match t.next_action() {
        Some(Action::RemoveDirectory(_)) => {},
        _ => panic!("expected the directory removal to still be attempted"),
    }
    t.step(Event::DirRemoved(Some("directory not empty".to_string())));
    assert_eq!(expect_run_argv(&t)[0], "lvremove");
    t.step(ran_ok());
    assert!(t.released);
    // The first release error (the unmount failure) is the one reported.
    match t.first_error() {
        Some(BackupError::NonZeroExit(cr)) => assert_eq!(cr.exit_code, Some(1)),
        _ => panic!("expected the unmount failure to be reported"),
    }
}
