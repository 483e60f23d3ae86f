use sftpman::{
    command_to_string, mount_status, sshfs_pid_by_definition, Action, AuthType,
    FilesystemMountDefinition, KillSequence, Manager, MountEntry, Outcome, PreflightCheckError,
    PreflightOp, ProcessInfo, SftpManError, KILL_WAIT_MILLIS,
};

fn srv() -> FilesystemMountDefinition {
    let mut d = FilesystemMountDefinition::default();
    d.id = "srv".to_string();
    d.host = "example.com".to_string();
    d.port = 2222;
    d.user = "bob".to_string();
    d.remote_path = "/data".to_string();
    d.auth_type = AuthType::PublicKey;
    d.ssh_key = "/home/bob/.ssh/id_ed25519".to_string();
    d
}

fn manager() -> Manager {
    Manager::new(Some("/home/bob/.config/sftpman".to_string()), true).unwrap()
}

fn entry(file: &str, vfstype: &str) -> MountEntry {
    MountEntry { file: file.to_string(), vfstype: vfstype.to_string() }
}

fn mounted_table() -> Outcome {
    Outcome::MountTable(Ok(vec![entry("/mnt/sshfs/srv", "fuse.sshfs")]))
}

fn empty_table() -> Outcome {
    Outcome::MountTable(Ok(vec![]))
}

fn ok() -> Outcome {
    Outcome::Completed(Ok(()))
}

fn failed(msg: &str) -> Outcome {
    Outcome::Completed(Err(SftpManError::Generic(msg.to_string())))
}

fn is_read(a: &Action, path: &str) -> bool {
    matches!(a, Action::ReadMountTable(p) if p == path)
}

#[test]
fn mount_status_lookup() {
    let p = "/mnt/sshfs/srv".to_string();
    assert!(matches!(mount_status(&p, &vec![]), Ok(false)));
    assert!(matches!(mount_status(&p, &vec![entry("/mnt/sshfs/srv2", "ext4")]), Ok(false)));
    assert!(matches!(mount_status(&p, &vec![entry("/mnt/sshfs/srv", "fuse.sshfs")]), Ok(true)));
    let r = mount_status(&p, &vec![entry("/mnt/sshfs/srv", "ext4"), entry("/mnt/sshfs/srv", "fuse.sshfs")]);
    assert!(matches!(r, Err(SftpManError::MountVfsTypeMismatch { path, found_vfs_type, expected_vfs_type })
        if path == "/mnt/sshfs/srv" && found_vfs_type == "ext4" && expected_vfs_type == "fuse.sshfs"));
    let m = manager();
    assert!(matches!(m.is_definition_mounted(&srv(), &vec![entry("/mnt/sshfs/srv", "fuse.sshfs")]), Ok(true)));
}

#[test]
fn full_state_pairs_definitions() {
    let mut other = srv();
    other.id = "other".to_string();
    let states = manager().full_state(
        vec![srv(), other],
        &vec![entry("/mnt/sshfs/srv", "fuse.sshfs"), entry("/mnt/sshfs/other", "nfs")],
    );
    assert_eq!(states.len(), 2);
    assert_eq!(states[0].definition.id, "srv");
    assert!(states[0].mounted);
    assert_eq!(states[1].definition.id, "other");
    assert!(!states[1].mounted);
}

#[test]
fn manager_paths() {
    let m = manager();
    assert_eq!(m.config_path_mounts(), "/home/bob/.config/sftpman/mounts");
    assert_eq!(m.config_path_for_definition_id("srv"), "/home/bob/.config/sftpman/mounts/srv.json");
    assert!(matches!(Manager::new(None, false), Err(sftpman::ManagerInitError::NoConfigDirectory)));
    assert_eq!(command_to_string(&m.open(&srv())), "xdg-open /mnt/sshfs/srv");
}

#[test]
fn helper_process_lookup() {
    let d = srv();
    let ps = vec![
        ProcessInfo { pid: 10, cmdline: vec!["bash".to_string(), "bob@[example.com]:/data".to_string()] },
        ProcessInfo { pid: 11, cmdline: vec!["sshfs".to_string()] },
        ProcessInfo { pid: 12, cmdline: vec!["sshfs".to_string(), "alice@[example.com]:/data".to_string()] },
        ProcessInfo {
            pid: 13,
            cmdline: vec!["sshfs".to_string(), "-o".to_string(), "bob@[example.com]:/data".to_string()],
        },
        ProcessInfo { pid: 14, cmdline: vec!["sshfs".to_string(), "bob@[example.com]:/data".to_string()] },
    ];
    assert_eq!(sshfs_pid_by_definition(&d, &ps), Some(13));
    assert_eq!(sshfs_pid_by_definition(&d, &ps[..3].to_vec()), None);
    assert_eq!(sshfs_pid_by_definition(&d, &vec![]), None);
}

#[test]
fn kill_dead_after_term() {
    let mut k = KillSequence::new(42, 500);
    assert!(matches!(k.step(Outcome::Begin), Action::Signal { pid: 42, forceful: false }));
    assert!(matches!(k.step(ok()), Action::Sleep(500)));
    assert!(matches!(k.step(ok()), Action::CheckAlive(42)));
    assert!(matches!(k.step(Outcome::Alive(Some(false))), Action::Done(Ok(()))));
    assert!(!k.accepts_outcome(&ok()));
}

#[test]
fn kill_escalates_and_fails() {
    let mut k = KillSequence::new(7, 0);
    k.step(Outcome::Begin);
    k.step(failed("no permission"));
    k.step(ok());
    assert!(matches!(k.step(Outcome::Alive(Some(true))), Action::Sleep(0)));
    assert!(matches!(k.step(ok()), Action::Signal { pid: 7, forceful: true }));
    assert!(matches!(k.step(ok()), Action::CheckAlive(7)));
    assert!(matches!(k.step(Outcome::Alive(Some(true))), Action::Done(Err(SftpManError::ProcessTerminationFailed(7)))));
}

#[test]
fn kill_unknown_liveness() {
    let mut k = KillSequence::new(7, 0);
    k.step(Outcome::Begin);
    k.step(ok());
    k.step(ok());
    assert!(matches!(k.step(Outcome::Alive(None)), Action::Sleep(0)));
    k.step(ok());
    k.step(ok());
    assert!(matches!(k.step(Outcome::Alive(None)), Action::Done(Ok(()))));
    let mut k2 = KillSequence::new(7, 0);
    k2.step(Outcome::Begin);
    k2.step(ok());
    k2.step(ok());
    k2.step(Outcome::Alive(Some(true)));
    k2.step(ok());
    k2.step(ok());
    assert!(matches!(k2.step(Outcome::Alive(Some(false))), Action::Done(Ok(()))));
}

#[test]
fn mount_when_mounted_is_a_no_op() {
    let m = manager();
    for _ in 0..2 {
        let mut op = m.mount(&srv());
        assert!(is_read(&op.step(Outcome::Begin), "/mnt/sshfs/srv"));
        assert!(matches!(op.step(mounted_table()), Action::Done(Ok(()))));
        assert!(!op.accepts_outcome(&ok()));
    }
}

#[test]
fn umount_when_unmounted_is_a_no_op() {
    let m = manager();
    for _ in 0..2 {
        let mut op = m.umount(&srv());
        assert!(is_read(&op.step(Outcome::Begin), "/mnt/sshfs/srv"));
        assert!(matches!(op.step(empty_table()), Action::Done(Ok(()))));
        assert!(!op.accepts_outcome(&ok()));
    }
}

#[test]
fn mount_runs_commands_in_order() {
    let mut d = srv();
    d.cmd_before_mount = "wake srv".to_string();
    let mut op = manager().mount(&d);
    op.step(Outcome::Begin);
    assert!(matches!(op.step(empty_table()), Action::CreateDirectory(p) if p == "/mnt/sshfs/srv"));
    assert!(matches!(op.step(ok()), Action::RunCommand(c) if command_to_string(&c) == "wake srv"));
    assert!(matches!(op.step(ok()), Action::RunCommand(c) if c.program == "sshfs"));
    assert!(matches!(op.step(ok()), Action::Done(Ok(()))));
}

#[test]
fn mount_type_mismatch_is_an_error() {
    let mut op = manager().mount(&srv());
    op.step(Outcome::Begin);
    let a = op.step(Outcome::MountTable(Ok(vec![entry("/mnt/sshfs/srv", "ext4")])));
    assert!(matches!(a, Action::Done(Err(SftpManError::MountVfsTypeMismatch { .. }))));
}

#[test]
fn mount_table_unreadable_is_an_error() {
    let mut op = manager().mount(&srv());
    op.step(Outcome::Begin);
    let a = op.step(Outcome::MountTable(Err(SftpManError::MountListParse("bad line".to_string()))));
    assert!(matches!(a, Action::Done(Err(SftpManError::MountListParse(m))) if m == "bad line"));
}

#[test]
fn mount_directory_failure_is_an_error() {
    let mut op = manager().mount(&srv());
    op.step(Outcome::Begin);
    op.step(empty_table());
    let a = op.step(Outcome::Completed(Err(SftpManError::IO("/mnt/sshfs/srv".to_string(), "denied".to_string()))));
    assert!(matches!(a, Action::Done(Err(SftpManError::IO(_, m))) if m == "denied"));
}

#[test]
fn mount_build_failure_is_an_error() {
    let mut d = srv();
    d.cmd_before_mount = " x".to_string();
    let mut op = manager().mount(&d);
    op.step(Outcome::Begin);
    op.step(empty_table());
    assert!(matches!(op.step(ok()), Action::Done(Err(SftpManError::MountCommandBuilding(_)))));
}

#[test]
fn failed_mount_cleans_up_and_returns_helper_error() {
    let mut op = manager().mount(&srv());
    op.step(Outcome::Begin);
    op.step(empty_table());
    assert!(matches!(op.step(ok()), Action::RunCommand(_)));
    let helper_error = Outcome::Completed(Err(SftpManError::Generic("sshfs: connection refused".to_string())));
    // the cleanup unmount starts by looking at the mount table
    assert!(is_read(&op.step(helper_error), "/mnt/sshfs/srv"));
    // half mounted: the cleanup runs the unmount command, which fails too
    assert!(matches!(op.step(mounted_table()), Action::RunCommand(c) if c.program == "fusermount"));
    assert!(matches!(op.step(failed("busy")), Action::RemoveDirectory(_)));
    assert!(matches!(op.step(ok()), Action::FindHelperProcess(t) if t == "bob@[example.com]:/data"));
    // no process: the cleanup fails, the mount goes on to remove the directory
    assert!(matches!(op.step(Outcome::HelperProcess(Ok(None))), Action::RemoveDirectory(p) if p == "/mnt/sshfs/srv"));
    let a = op.step(failed("not empty"));
    assert!(matches!(a, Action::Done(Err(SftpManError::Generic(m))) if m == "sshfs: connection refused"));
}

#[test]
fn failed_mount_with_clean_cleanup() {
    let mut op = manager().mount(&srv());
    op.step(Outcome::Begin);
    op.step(empty_table());
    op.step(ok());
    op.step(failed("helper"));
    assert!(matches!(op.step(empty_table()), Action::RemoveDirectory(_)));
    assert!(matches!(op.step(ok()), Action::Done(Err(SftpManError::Generic(m))) if m == "helper"));
}

#[test]
fn busy_umount_without_process_fails() {
    let mut op = manager().umount(&srv());
    op.step(Outcome::Begin);
    assert!(matches!(op.step(mounted_table()), Action::RunCommand(c) if command_to_string(&c) == "fusermount -u /mnt/sshfs/srv"));
    assert!(matches!(op.step(failed("Device or resource busy")), Action::RemoveDirectory(p) if p == "/mnt/sshfs/srv"));
    assert!(matches!(op.step(failed("busy")), Action::FindHelperProcess(_)));
    let a = op.step(Outcome::HelperProcess(Ok(None)));
    assert!(matches!(a, Action::Done(Err(SftpManError::ProcessNotDetermined(id))) if id == "srv"));
}

#[test]
fn busy_umount_kills_the_helper() {
    let mut op = manager().umount(&srv());
    op.step(Outcome::Begin);
    op.step(mounted_table());
    op.step(failed("busy"));
    op.step(ok());
    assert!(matches!(op.step(Outcome::HelperProcess(Ok(Some(99)))), Action::Signal { pid: 99, forceful: false }));
    assert!(matches!(op.step(ok()), Action::Sleep(w) if w == KILL_WAIT_MILLIS));
    assert!(matches!(op.step(ok()), Action::CheckAlive(99)));
    assert!(matches!(op.step(Outcome::Alive(Some(false))), Action::RemoveDirectory(_)));
    assert!(matches!(op.step(ok()), Action::Done(Ok(()))));
}

#[test]
fn busy_umount_process_list_error() {
    let mut op = manager().umount(&srv());
    op.step(Outcome::Begin);
    op.step(mounted_table());
    op.step(failed("busy"));
    op.step(ok());
    let a = op.step(Outcome::HelperProcess(Err(SftpManError::Generic("failed to list processes".to_string()))));
    assert!(matches!(a, Action::Done(Err(SftpManError::Generic(_)))));
}

#[test]
fn clean_umount() {
    let mut op = manager().umount(&srv());
    op.step(Outcome::Begin);
    op.step(mounted_table());
    assert!(matches!(op.step(ok()), Action::RemoveDirectory(_)));
    assert!(matches!(op.step(failed("gone")), Action::Done(Ok(()))));
}

#[test]
fn remove_unmounts_then_deletes() {
    let mut op = manager().remove(&srv());
    assert!(is_read(&op.step(Outcome::Begin), "/mnt/sshfs/srv"));
    assert!(matches!(op.step(empty_table()), Action::DeleteFile(p) if p == "/home/bob/.config/sftpman/mounts/srv.json"));
    let e = SftpManError::FilesystemMountDefinitionRemove("x".to_string(), "denied".to_string());
    assert!(matches!(op.step(Outcome::Completed(Err(e))), Action::Done(Err(SftpManError::FilesystemMountDefinitionRemove(..)))));
}

#[test]
fn remove_stops_when_unmount_fails() {
    let mut op = manager().remove(&srv());
    op.step(Outcome::Begin);
    let a = op.step(Outcome::MountTable(Ok(vec![entry("/mnt/sshfs/srv", "nfs")])));
    assert!(matches!(a, Action::Done(Err(SftpManError::MountVfsTypeMismatch { .. }))));
}

#[test]
fn persist_new_definition() {
    let mut op = manager().persist(srv());
    assert!(matches!(op.step(Outcome::Begin), Action::LoadDefinition(id) if id == "srv"));
    assert!(matches!(op.step(Outcome::Stored(None)), Action::EnsureDirectory(p) if p == "/home/bob/.config/sftpman/mounts"));
    assert!(matches!(op.step(ok()), Action::WriteDefinition(p) if p == "/home/bob/.config/sftpman/mounts/srv.json"));
    assert!(matches!(op.step(ok()), Action::Done(Ok(()))));
}

#[test]
fn persist_mounted_definition_with_new_host() {
    let old = srv();
    let mut new = srv();
    new.host = "backup.example.com".to_string();
    let mut op = manager().persist(new);
    op.step(Outcome::Begin);
    assert!(is_read(&op.step(Outcome::Stored(Some(old))), "/mnt/sshfs/srv"));
    // the old definition is mounted: it is unmounted before the write
    assert!(is_read(&op.step(mounted_table()), "/mnt/sshfs/srv"));
    assert!(matches!(op.step(mounted_table()), Action::RunCommand(c) if c.program == "fusermount"));
    assert!(matches!(op.step(ok()), Action::RemoveDirectory(_)));
    assert!(matches!(op.step(ok()), Action::EnsureDirectory(_)));
    assert!(matches!(op.step(ok()), Action::WriteDefinition(_)));
    assert_eq!(op.definition.host, "backup.example.com");
    // after the write the new definition is mounted
    assert!(is_read(&op.step(ok()), "/mnt/sshfs/srv"));
    op.step(empty_table());
    let run = op.step(ok());
    assert!(matches!(run, Action::RunCommand(c) if c.args.iter().any(|a| a == "bob@[backup.example.com]:/data")));
    // the remount fails; the persist still succeeds
    assert!(is_read(&op.step(failed("refused")), "/mnt/sshfs/srv"));
    op.step(empty_table());
    assert!(matches!(op.step(ok()), Action::Done(Ok(()))));
}

#[test]
fn persist_write_failure_is_an_error() {
    let mut op = manager().persist(srv());
    op.step(Outcome::Begin);
    op.step(Outcome::Stored(None));
    op.step(ok());
    let e = SftpManError::JSON("p".to_string(), "bad".to_string());
    assert!(matches!(op.step(Outcome::Completed(Err(e))), Action::Done(Err(SftpManError::JSON(..)))));
}

#[test]
fn persist_directory_failure_is_an_error() {
    let mut op = manager().persist(srv());
    op.step(Outcome::Begin);
    op.step(Outcome::Stored(None));
    let e = SftpManError::IO("p".to_string(), "denied".to_string());
    assert!(matches!(op.step(Outcome::Completed(Err(e))), Action::Done(Err(SftpManError::IO(..)))));
}

#[test]
fn preflight_all_good() {
    let mut op = PreflightOp::with_test_number(1234);
    assert_eq!(op.test_dir, "/mnt/sshfs/_sftpman_test_1234");
    assert!(matches!(op.step(Outcome::Begin), Action::RunCommand(c) if command_to_string(&c) == "sshfs -h"));
    assert!(matches!(op.step(ok()), Action::RunCommand(c) if command_to_string(&c) == "ssh -V"));
    assert!(matches!(op.step(ok()), Action::RunCommand(c) if command_to_string(&c) == "fusermount3 -V"));
    assert!(matches!(op.step(ok()), Action::EnsureDirectory(p) if p == "/mnt/sshfs"));
    assert!(matches!(op.step(ok()), Action::CreateDirectory(p) if p == "/mnt/sshfs/_sftpman_test_1234"));
    assert!(matches!(op.step(ok()), Action::RemoveDirectory(_)));
    assert!(matches!(op.step(ok()), Action::Checked(v) if v.is_empty()));
}

#[test]
fn preflight_reports_every_failure() {
    let cmd_fail = |p: &str| {
        Outcome::Completed(Err(SftpManError::CommandExecution(sftpman::ExternalCommand::new(p), "not found".to_string())))
    };
    let mut op = manager().preflight_check();
    op.step(Outcome::Begin);
    op.step(cmd_fail("sshfs"));
    // fusermount3 fails, the fallback succeeds: no failure for that tool
    assert!(matches!(op.step(ok()), Action::RunCommand(c) if c.program == "fusermount3"));
    assert!(matches!(op.step(cmd_fail("fusermount3")), Action::RunCommand(c) if c.program == "fusermount"));
    assert!(matches!(op.step(ok()), Action::EnsureDirectory(_)));
    let a = op.step(Outcome::Completed(Err(SftpManError::IO("/mnt/sshfs".to_string(), "denied".to_string()))));
    match a {
        Action::Checked(v) => {
            assert_eq!(v.len(), 2);
            assert!(matches!(&v[0], PreflightCheckError::CommandExecution(c, _) if c.program == "sshfs"));
            assert!(matches!(&v[1], PreflightCheckError::DefaultBasePathIO(p, m) if p == "/mnt/sshfs" && m == "denied"));
        }
        _ => panic!("expected the report"),
    }
}

#[test]
fn preflight_both_unmount_helpers_fail() {
    let unsuccessful = |p: &str| {
        Outcome::Completed(Err(SftpManError::CommandUnsuccessful(
            sftpman::ExternalCommand::new(p),
            sftpman::CommandOutput { status: Some(1), stdout: vec![], stderr: vec![] },
        )))
    };
    let mut op = PreflightOp::with_test_number(0);
    op.step(Outcome::Begin);
    op.step(ok());
    op.step(ok());
    op.step(unsuccessful("fusermount3"));
    op.step(unsuccessful("fusermount"));
    op.step(ok());
    assert!(matches!(op.step(failed("cannot create")), Action::Checked(v)
        if v.len() == 3 && matches!(&v[2], PreflightCheckError::TestUnderBasePathIO(p, _) if p == "/mnt/sshfs/_sftpman_test_0")));
}

#[test]
fn preflight_test_dir_removal_failure() {
    let mut op = PreflightOp::with_test_number(5);
    op.step(Outcome::Begin);
    op.step(ok());
    op.step(ok());
    op.step(ok());
    op.step(ok());
    op.step(ok());
    assert!(matches!(op.step(Outcome::Completed(Err(SftpManError::IO("t".to_string(), "busy".to_string())))),
        Action::Checked(v) if v.len() == 1 && matches!(&v[0], PreflightCheckError::TestUnderBasePathIO(_, m) if m == "busy")));
}
