use sftpman::{
    command_result, command_to_string, decimal_string, split_on, split_on_spaces, AuthType,
    CommandOutput, ExternalCommand, FilesystemMountDefinition, SftpManError, ValidationIssue,
    DEFAULT_MOUNT_PATH_PREFIX,
};

fn srv() -> FilesystemMountDefinition {
    let mut d = FilesystemMountDefinition::default();
    d.id = "srv".to_string();
    d.host = "example.com".to_string();
    d.port = 2222;
    d.user = "bob".to_string();
    d.remote_path = "/data".to_string();
    d.auth_type = AuthType::PublicKey;
    d.ssh_key = "/home/bob/.ssh/id_ed25519".to_string();
    d
}

fn strings(v: &[&str]) -> Vec<String> {
    v.iter().map(|s| s.to_string()).collect()
}

#[test]
fn auth_type_tokens() {
    assert_eq!(AuthType::PublicKey.to_static_str(), "publickey");
    assert_eq!(AuthType::AuthenticationAgent.to_static_str(), "authentication-agent");
    assert_eq!(AuthType::Password.to_static_str(), "password");
    assert_eq!(AuthType::KeyboardInteractive.to_static_str(), "keyboard-interactive");
    assert_eq!(AuthType::HostBased.to_static_str(), "hostbased");
    assert_eq!(AuthType::GSSAPIWithMic.to_static_str(), "gssapi-with-mic");
}

#[test]
fn auth_type_round_trip() {
    for a in AuthType::all() {
        assert_eq!(AuthType::from_string(a.to_static_str()), Ok(a));
    }
    assert_eq!(AuthType::all().len(), 6);
}

#[test]
fn auth_type_unknown_token() {
    assert!(AuthType::from_string("PublicKey").is_err());
    assert!(AuthType::from_string("").is_err());
    assert!(AuthType::from_string("publickey ").is_err());
}

#[test]
fn default_definition() {
    let d = FilesystemMountDefinition::default();
    assert_eq!(d.port, 22);
    assert_eq!(d.auth_type, AuthType::PublicKey);
    assert!(d.mount_dest_path.is_none());
    assert!(d.mount_options.is_empty());
    assert_eq!(d.id, "");
}

#[test]
fn scenario_effective_path_and_mount_command() {
    let d = srv();
    assert_eq!(d.local_mount_path(), "/mnt/sshfs/srv");
    assert_eq!(d.connection_target(), "bob@[example.com]:/data");
    let cmds = d.mount_commands().unwrap();
    assert_eq!(cmds.len(), 1);
    let sshfs = &cmds[0];
    assert_eq!(sshfs.program, "sshfs");
    assert_eq!(
        sshfs.args,
        strings(&[
            "-o",
            "ssh_command=ssh -p 2222 -o ConnectTimeout=10 -o PreferredAuthentications=publickey -i /home/bob/.ssh/id_ed25519",
            "bob@[example.com]:/data",
            "/mnt/sshfs/srv",
        ])
    );
    assert!(sshfs.args[1].contains("PreferredAuthentications=publickey"));
    assert!(sshfs.args[1].contains("/home/bob/.ssh/id_ed25519"));
}

#[test]
fn agent_auth_omits_preferred_and_identity() {
    let mut d = srv();
    d.auth_type = AuthType::AuthenticationAgent;
    let cmds = d.mount_commands().unwrap();
    let ssh = &cmds[0].args[1];
    assert_eq!(ssh, "ssh_command=ssh -p 2222 -o ConnectTimeout=10");
    assert!(!ssh.contains("PreferredAuthentications"));
    assert!(!ssh.contains("-i "));
}

#[test]
fn other_auth_sets_preferred_only() {
    let mut d = srv();
    d.auth_type = AuthType::KeyboardInteractive;
    let cmds = d.mount_commands().unwrap();
    assert_eq!(
        cmds[0].args[1],
        "ssh_command=ssh -p 2222 -o ConnectTimeout=10 -o PreferredAuthentications=keyboard-interactive"
    );
}

#[test]
fn local_mount_path_given() {
    let mut d = srv();
    d.mount_dest_path = Some("/home/bob/data".to_string());
    assert_eq!(d.local_mount_path(), "/home/bob/data");
    assert_eq!(d.mount_commands().unwrap()[0].args[3], "/home/bob/data");
    d.mount_dest_path = None;
    assert_eq!(d.local_mount_path(), format!("{}/srv", DEFAULT_MOUNT_PATH_PREFIX));
    assert!(d.local_mount_path().starts_with('/'));
}

#[test]
fn mount_commands_are_repeatable() {
    let d = srv();
    let a = d.mount_commands().unwrap();
    let _ = d.umount_commands();
    let b = d.mount_commands().unwrap();
    let c = d.clone().mount_commands().unwrap();
    let lines = |v: &Vec<ExternalCommand>| v.iter().map(command_to_string).collect::<Vec<_>>();
    assert_eq!(lines(&a), lines(&b));
    assert_eq!(lines(&a), lines(&c));
}

#[test]
fn mount_options_each_get_an_o() {
    let mut d = srv();
    d.mount_options = strings(&["follow_symlinks", "rename", "rename"]);
    let args = &d.mount_commands().unwrap()[0].args;
    assert_eq!(&args[0..6], &strings(&["-o", "follow_symlinks", "-o", "rename", "-o", "rename"])[..]);
    assert_eq!(args.len(), 10);
}

#[test]
fn before_mount_command_first() {
    let mut d = srv();
    d.cmd_before_mount = "/usr/bin/wake host  now".to_string();
    let cmds = d.mount_commands().unwrap();
    assert_eq!(cmds.len(), 2);
    assert_eq!(cmds[0].program, "/usr/bin/wake");
    assert_eq!(cmds[0].args, strings(&["host", "", "now"]));
    assert_eq!(cmds[1].program, "sshfs");
}

#[test]
fn before_mount_noops_are_skipped() {
    for noop in ["", "true", "/bin/true"] {
        let mut d = srv();
        d.cmd_before_mount = noop.to_string();
        let cmds = d.mount_commands().unwrap();
        assert_eq!(cmds.len(), 1);
        assert_eq!(cmds[0].program, "sshfs");
    }
}

#[test]
fn before_mount_without_program_fails() {
    let mut d = srv();
    d.cmd_before_mount = " ls".to_string();
    assert!(matches!(d.mount_commands(), Err(SftpManError::MountCommandBuilding(m)) if m == "could not extract program name from  ls"));
}

#[test]
fn umount_and_open_commands() {
    let d = srv();
    let u = d.umount_commands().unwrap();
    assert_eq!(u.len(), 1);
    assert_eq!(command_to_string(&u[0]), "fusermount -u /mnt/sshfs/srv");
    assert_eq!(command_to_string(&d.open_command()), "xdg-open /mnt/sshfs/srv");
}

#[test]
fn valid_definition_passes() {
    assert_eq!(srv().validate(), Ok(()));
}

#[test]
fn public_key_without_key_fails_validation() {
    let mut d = srv();
    d.ssh_key = String::new();
    assert_eq!(d.validate(), Err(vec![ValidationIssue::MissingSshKey]));
    for a in AuthType::all() {
        if a != AuthType::PublicKey {
            d.auth_type = a;
            assert_eq!(d.validate(), Ok(()));
            assert!(d.validate_ssh_key_for_publickey_auth());
        }
    }
}

#[test]
fn validation_reports_every_issue() {
    let mut d = FilesystemMountDefinition::default();
    d.mount_dest_path = Some(String::new());
    assert_eq!(
        d.validate(),
        Err(vec![
            ValidationIssue::MissingId,
            ValidationIssue::MissingHost,
            ValidationIssue::MissingUser,
            ValidationIssue::MissingRemotePath,
            ValidationIssue::RelativeRemotePath,
            ValidationIssue::MissingMountDestPath,
            ValidationIssue::RelativeMountDestPath,
            ValidationIssue::MissingSshKey,
        ])
    );
}

#[test]
fn validation_of_id_and_paths() {
    let mut d = srv();
    d.id = "my-host_1.x".to_string();
    assert_eq!(d.validate(), Ok(()));
    d.id = "bad id".to_string();
    assert_eq!(d.validate(), Err(vec![ValidationIssue::InvalidId]));
    d.id = "srv".to_string();
    d.remote_path = "data".to_string();
    d.mount_dest_path = Some("rel/path".to_string());
    assert_eq!(
        d.validate(),
        Err(vec![ValidationIssue::RelativeRemotePath, ValidationIssue::RelativeMountDestPath])
    );
    assert!(!ValidationIssue::InvalidId.message().is_empty());
}

#[test]
fn id_char_rule() {
    assert!(sftpman::id_char_allowed('_', false));
    assert!(sftpman::id_char_allowed('.', false));
    assert!(sftpman::id_char_allowed('-', false));
    assert!(sftpman::id_char_allowed('x', true));
    assert!(!sftpman::id_char_allowed(' ', false));
    assert!(!sftpman::id_char_allowed('/', false));
}

#[test]
fn text_helpers() {
    assert_eq!(decimal_string(0), "0");
    assert_eq!(decimal_string(22), "22");
    assert_eq!(decimal_string(65535), "65535");
    assert_eq!(split_on_spaces(""), strings(&[""]));
    assert_eq!(split_on_spaces("a  b"), strings(&["a", "", "b"]));
    assert_eq!(split_on("x,,y,", ','), strings(&["x", "", "y", ""]));
    assert!(sftpman::same_text("abc", "abc"));
    assert!(!sftpman::same_text("abc", "abd"));
    assert_eq!(sftpman::join_with_spaces(&strings(&["a", "b", "c"])), "a b c");
}

#[test]
fn command_line_and_result() {
    let mut c = ExternalCommand::new("ssh");
    c.arg_str("-V");
    assert_eq!(command_to_string(&c), "ssh -V");
    assert_eq!(command_to_string(&ExternalCommand::new("ls")), "ls");
    let ok = CommandOutput { status: Some(0), stdout: vec![], stderr: vec![] };
    assert!(command_result(c.clone(), ok).is_ok());
    let bad = CommandOutput { status: Some(1), stdout: vec![], stderr: b"busy".to_vec() };
    assert!(matches!(command_result(c.clone(), bad), Err(SftpManError::CommandUnsuccessful(_, o)) if o.stderr == b"busy"));
    let killed = CommandOutput { status: None, stdout: vec![], stderr: vec![] };
    assert!(command_result(c, killed).is_err());
}

#[test]
fn unicode_letters_are_valid_in_ids() {
    let mut d = srv();
    d.id = "café-2".to_string();
    assert_eq!(d.validate(), Ok(()));
    d.id = "a+b".to_string();
    assert_eq!(d.validate(), Err(vec![ValidationIssue::InvalidId]));
}

#[test]
fn definitions_sorted_by_id() {
    let ids = ["beta", "alpha", "b", "Zeta", "alpha", ""];
    let defs: Vec<FilesystemMountDefinition> = ids
        .iter()
        .enumerate()
        .map(|(i, id)| {
            let mut d = srv();
            d.id = id.to_string();
            d.port = i as u16;
            d
        })
        .collect();
    let sorted = sftpman::sort_by_id(defs);
    let got: Vec<(String, u16)> = sorted.iter().map(|d| (d.id.clone(), d.port)).collect();
    assert_eq!(
        got,
        vec![
            ("".to_string(), 5),
            ("Zeta".to_string(), 3),
            ("alpha".to_string(), 1),
            ("alpha".to_string(), 4),
            ("b".to_string(), 2),
            ("beta".to_string(), 0),
        ]
    );
    assert!(sftpman::text_le_exec("ab", "abc"));
    assert!(!sftpman::text_le_exec("abc", "ab"));
    assert!(sftpman::text_le_exec("é", "é"));
    assert!(!sftpman::text_le_exec("é", "z"));
}
