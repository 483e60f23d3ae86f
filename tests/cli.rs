use sftpman::cli::{
    bind_command_arguments_to_definition, create_update_status, mount, mount_all, preflight_check,
    remove, run_create, select_by_ids, umount, umount_all, DefinitionArguments, Status,
};
use sftpman::{
    create_check_command, command_to_string, get_fusermount_command, AuthType,
    FilesystemMountDefinition, MountState, PreflightCheckError, SftpManError, ValidationIssue,
};

fn def(id: &str) -> FilesystemMountDefinition {
    let mut d = FilesystemMountDefinition::default();
    d.id = id.to_string();
    d
}

fn no_args() -> DefinitionArguments {
    DefinitionArguments {
        host: None,
        port: None,
        user: None,
        mount_opt: None,
        remote_path: None,
        mount_path: None,
        cmd_before_mount: None,
        auth_type: None,
        ssh_key: None,
    }
}

#[test]
fn status_codes() {
    assert_eq!(Status::Success.code(), 0);
    assert_eq!(Status::DefinitionAlreadyExists.code(), 10);
    assert_eq!(Status::DefinitionNotFound.code(), 11);
    assert_eq!(Status::Failure.code(), 20);
    assert_eq!(Status::UnknownCommand.code(), 30);
    assert_eq!(Status::ValidationFailure.code(), 40);
}

#[test]
fn selection_by_ids() {
    let defs = vec![def("a"), def("b"), def("a")];
    let ids = vec!["b".to_string(), "zz".to_string(), "a".to_string()];
    let mut batch = mount(&defs, &ids);
    assert_eq!(batch.targets, vec![1, 0]);
    assert!(!batch.all_found);
    assert_eq!(batch.status(), Status::DefinitionNotFound);
    batch.record(false);
    batch.record(true);
    assert_eq!(batch.status(), Status::Failure);
    assert_eq!(umount(&defs, &vec!["a".to_string()]).status(), Status::Success);
    assert_eq!(remove(&defs, &vec![]).targets, Vec::<usize>::new());
    assert_eq!(select_by_ids(&vec![], &vec!["a".to_string()]).targets, Vec::<usize>::new());
}

#[test]
fn all_batches() {
    let defs = vec![def("a"), def("b")];
    assert_eq!(mount_all(&defs).targets, vec![0, 1]);
    let states = vec![
        MountState::new(def("a"), false),
        MountState::new(def("b"), true),
        MountState::new(def("c"), true),
    ];
    let b = umount_all(&states);
    assert_eq!(b.targets, vec![1, 2]);
    assert_eq!(b.status(), Status::Success);
}

#[test]
fn preflight_status() {
    assert_eq!(preflight_check(&vec![]), Status::Success);
    let e = PreflightCheckError::DefaultBasePathIO("/mnt/sshfs".to_string(), "denied".to_string());
    assert_eq!(preflight_check(&vec![e]), Status::Failure);
}

#[test]
fn create_decisions() {
    assert_eq!(run_create(&Ok(def("a"))), Some(Status::DefinitionAlreadyExists));
    assert_eq!(run_create(&Err(SftpManError::JSON("p".to_string(), "bad".to_string()))), Some(Status::Failure));
    assert_eq!(
        run_create(&Err(SftpManError::FilesystemMountDefinitionRead("p".to_string(), "missing".to_string()))),
        None
    );
    assert_eq!(create_update_status(&Err(vec![ValidationIssue::MissingHost]), &Ok(())), Status::ValidationFailure);
    assert_eq!(create_update_status(&Ok(()), &Err(SftpManError::NoMountsConfigDirectory)), Status::Failure);
    assert_eq!(create_update_status(&Ok(()), &Ok(())), Status::Success);
}

#[test]
fn bind_arguments_on_create() {
    let mut d = def("srv");
    let mut args = no_args();
    args.host = Some("example.com".to_string());
    args.port = Some(2222);
    args.user = Some("bob".to_string());
    args.mount_opt = Some("follow_symlinks,,workaround=rename,".to_string());
    args.remote_path = Some("/data".to_string());
    args.mount_path = Some("/home/bob/data".to_string());
    args.auth_type = Some(AuthType::PublicKey);
    args.ssh_key = Some("/k".to_string());
    bind_command_arguments_to_definition(args, &mut d, true);
    assert_eq!(d.id, "srv");
    assert_eq!(d.host, "example.com");
    assert_eq!(d.port, 2222);
    assert_eq!(d.mount_options, vec!["follow_symlinks".to_string(), "workaround=rename".to_string()]);
    assert_eq!(d.mount_dest_path, Some("/home/bob/data".to_string()));
    assert_eq!(d.ssh_key, "/k");
    assert_eq!(d.validate(), Ok(()));
}

#[test]
fn bind_arguments_on_update() {
    let mut d = def("srv");
    d.ssh_key = "/k".to_string();
    d.mount_dest_path = Some("/x".to_string());
    let mut args = no_args();
    args.auth_type = Some(AuthType::Password);
    args.mount_path = Some(String::new());
    bind_command_arguments_to_definition(args, &mut d, false);
    assert_eq!(d.ssh_key, "");
    assert_eq!(d.mount_dest_path, None);
    assert_eq!(d.auth_type, AuthType::Password);
    let mut kept = def("srv");
    kept.ssh_key = "/k".to_string();
    bind_command_arguments_to_definition(no_args(), &mut kept, false);
    assert_eq!(kept.ssh_key, "/k");
}

#[test]
fn fusermount_variants() {
    assert_eq!(get_fusermount_command(true), "fusermount3");
    assert_eq!(get_fusermount_command(false), "fusermount");
    assert_eq!(command_to_string(&create_check_command("fusermount3")), "fusermount3 -V");
    assert_eq!(command_to_string(&sftpman::create_fusermount_check_command()), "fusermount -V");
}

#[test]
fn error_messages() {
    assert_eq!(sftpman::ManagerInitError::NoConfigDirectory.message(), "The config directory could not be determined");
    assert_eq!(SftpManError::ProcessTerminationFailed(3).message(), "Ultimately failed to kill process");
    assert_eq!(
        SftpManError::MountCommandBuilding(String::new()).message(),
        "The mount command could not be constructed"
    );
    assert_eq!(ValidationIssue::MissingHost.message(), "A host must be provided.");
    let e = PreflightCheckError::TestUnderBasePathIO("/t".to_string(), "x".to_string());
    assert!(e.message().starts_with("A test directory"));
}
