//! Mount definitions: what they hold, when they are valid, where they mount,
//! and the commands that mount, unmount and open them.

use vstd::prelude::*;

use crate::auth_type::AuthType;
use crate::command::{command_views, CommandView, ExternalCommand};
use crate::errors::SftpManError;
use crate::text::{decimal, decimal_string, split_on_spaces, split_spaces, views};

verus! {

/// Where definitions without a local mount path are mounted, one directory per id.
pub const DEFAULT_MOUNT_PATH_PREFIX: &'static str = "/mnt/sshfs";

/// Seconds that SSH waits for a connection.
pub const SSH_DEFAULT_TIMEOUT: u64 = 10;

/// A named remote filesystem and how to mount it.
#[derive(Debug, Clone)]
pub struct FilesystemMountDefinition {
    /// Unique identifier; also names the default local mount directory.
    pub id: String,
    /// Host name or IP address of the remote machine.
    pub host: String,
    pub port: u16,
    pub user: String,
    /// Options handed to sshfs, one `-o` each, in order.
    pub mount_options: Vec<String>,
    /// Absolute path on the remote machine.
    pub remote_path: String,
    /// Absolute local path to mount at; the default mount root is used when absent.
    pub mount_dest_path: Option<String>,
    /// Command run before mounting; empty, `/bin/true` and `true` do nothing.
    pub cmd_before_mount: String,
    pub auth_type: AuthType,
    /// Private key for `AuthType::PublicKey`.
    pub ssh_key: String,
}

/// One broken rule of a definition.
#[derive(Debug, Clone, Copy, PartialEq, Eq, Structural)]
pub enum ValidationIssue {
    MissingId,
    InvalidId,
    MissingHost,
    MissingUser,
    MissingRemotePath,
    RelativeRemotePath,
    MissingMountDestPath,
    RelativeMountDestPath,
    MissingSshKey,
}

impl ValidationIssue {
    /// The human-readable description.
    pub open spec fn text(self) -> Seq<char> {
        match self {
            ValidationIssue::MissingId => "An ID must be provided."@,
            ValidationIssue::InvalidId => "The ID must be a valid identifier (alphanumeric characters, underscores, dashes, or dots)."@,
            ValidationIssue::MissingHost => "A host must be provided."@,
            ValidationIssue::MissingUser => "A user must be provided."@,
            ValidationIssue::MissingRemotePath => "A remote path must be provided."@,
            ValidationIssue::RelativeRemotePath => "The remote path must be absolute."@,
            ValidationIssue::MissingMountDestPath => "A local mount destination path must be provided."@,
            ValidationIssue::RelativeMountDestPath => "The local mount destination path must be absolute."@,
            ValidationIssue::MissingSshKey => "The publickey authentication type requires an SSH key to be provided."@,
        }
    }

    /// The human-readable description.
    pub fn message(&self) -> (r: &'static str)
        ensures
            r@ == self.text(),
    {
        match self {
            ValidationIssue::MissingId => "An ID must be provided.",
            ValidationIssue::InvalidId => "The ID must be a valid identifier (alphanumeric characters, underscores, dashes, or dots).",
            ValidationIssue::MissingHost => "A host must be provided.",
            ValidationIssue::MissingUser => "A user must be provided.",
            ValidationIssue::MissingRemotePath => "A remote path must be provided.",
            ValidationIssue::RelativeRemotePath => "The remote path must be absolute.",
            ValidationIssue::MissingMountDestPath => "A local mount destination path must be provided.",
            ValidationIssue::RelativeMountDestPath => "The local mount destination path must be absolute.",
            ValidationIssue::MissingSshKey => "The publickey authentication type requires an SSH key to be provided.",
        }
    }
}

/// Whether `char::is_alphanumeric` holds of a character.
pub uninterp spec fn alphanumeric(c: char) -> bool;

/// Relies on `char::is_alphanumeric`: whether the character is a letter or a
/// digit by Unicode's tables, a function of the character alone.
#[verifier::external_body]
fn is_alphanumeric(c: char) -> (r: bool)
    ensures
        r == alphanumeric(c),
{
    c.is_alphanumeric()
}

/// A character allowed in an id, given whether it is alphanumeric.
pub open spec fn id_char(c: char, c_is_alphanumeric: bool) -> bool {
    c_is_alphanumeric || c == '_' || c == '-' || c == '.'
}

/// Whether `c` may stand in an id, given whether it is alphanumeric.
pub fn id_char_allowed(c: char, c_is_alphanumeric: bool) -> (r: bool)
    ensures
        r == id_char(c, c_is_alphanumeric),
{
    c_is_alphanumeric || c == '_' || c == '-' || c == '.'
}

/// Every character of the id is a letter, a digit, `_`, `-` or `.`.
pub open spec fn id_chars_ok(id: Seq<char>) -> bool {
    forall|i: int| 0 <= i < id.len() ==> #[trigger] id_char(id[i], alphanumeric(id[i]))
}

/// The path starts with `/`.
pub open spec fn absolute(p: Seq<char>) -> bool {
    p.len() > 0 && p[0] == '/'
}

/// `issue` when `broken`, else nothing.
pub open spec fn flag(broken: bool, issue: ValidationIssue) -> Seq<ValidationIssue> {
    if broken { seq![issue] } else { Seq::<ValidationIssue>::empty() }
}

/// The arguments `-o opt` for each option, in order.
pub open spec fn option_args(opts: Seq<Seq<char>>) -> Seq<Seq<char>>
    decreases opts.len(),
{
    if opts.len() == 0 {
        Seq::<Seq<char>>::empty()
    } else {
        option_args(opts.drop_last()) + seq!["-o"@, opts.last()]
    }
}

impl FilesystemMountDefinition {
    /// The local mount path: the given one, else `{DEFAULT_MOUNT_PATH_PREFIX}/{id}`.
    pub open spec fn local_path(self) -> Seq<char> {
        match self.mount_dest_path {
            Some(p) => p@,
            None => DEFAULT_MOUNT_PATH_PREFIX@ + "/"@ + self.id@,
        }
    }

    /// The connection target `user@[host]:remote_path`; the brackets keep the
    /// colons of an IPv6 address apart from the path.
    pub open spec fn target(self) -> Seq<char> {
        self.user@ + "@["@ + self.host@ + "]:"@ + self.remote_path@
    }

    /// The broken rules, in field order.
    pub open spec fn issues(self) -> Seq<ValidationIssue> {
        flag(self.id@.len() == 0, ValidationIssue::MissingId)
            + flag(!id_chars_ok(self.id@), ValidationIssue::InvalidId)
            + flag(self.host@.len() == 0, ValidationIssue::MissingHost)
            + flag(self.user@.len() == 0, ValidationIssue::MissingUser)
            + flag(self.remote_path@.len() == 0, ValidationIssue::MissingRemotePath)
            + flag(!absolute(self.remote_path@), ValidationIssue::RelativeRemotePath)
            + flag(
                self.mount_dest_path is Some && self.mount_dest_path->Some_0@.len() == 0,
                ValidationIssue::MissingMountDestPath,
            )
            + flag(
                self.mount_dest_path is Some && !absolute(self.mount_dest_path->Some_0@),
                ValidationIssue::RelativeMountDestPath,
            )
            + flag(self.key_missing(), ValidationIssue::MissingSshKey)
    }

    /// The one rule on the whole record: public-key authentication needs a key.
    pub open spec fn key_missing(self) -> bool {
        self.auth_type == AuthType::PublicKey && self.ssh_key@.len() == 0
    }

    pub open spec fn valid(self) -> bool {
        self.issues().len() == 0
    }

    /// The before-mount command does nothing.
    pub open spec fn before_mount_noop(self) -> bool {
        self.cmd_before_mount@.len() == 0 || self.cmd_before_mount@ == "/bin/true"@
            || self.cmd_before_mount@ == "true"@
    }

    /// The authentication arguments of the SSH transport.
    pub open spec fn auth_args(self) -> Seq<Seq<char>> {
        match self.auth_type {
            AuthType::PublicKey => seq![
                "-o PreferredAuthentications="@ + AuthType::PublicKey.token(),
                "-i "@ + self.ssh_key@,
            ],
            AuthType::AuthenticationAgent => Seq::<Seq<char>>::empty(),
            _ => seq!["-o PreferredAuthentications="@ + self.auth_type.token()],
        }
    }

    /// The SSH transport that sshfs is told to use.
    pub open spec fn ssh_command(self) -> CommandView {
        CommandView {
            program: "ssh"@,
            args: seq![
                "-p"@,
                decimal(self.port as nat),
                "-o"@,
                "ConnectTimeout="@ + decimal(SSH_DEFAULT_TIMEOUT as nat),
            ] + self.auth_args(),
        }
    }

    /// The sshfs invocation that mounts the definition.
    pub open spec fn sshfs_command(self) -> CommandView {
        CommandView {
            program: "sshfs"@,
            args: option_args(views(self.mount_options@)) + seq![
                "-o"@,
                "ssh_command="@ + self.ssh_command().line(),
                self.target(),
                self.local_path(),
            ],
        }
    }

    /// The before-mount command, split on single spaces.
    pub open spec fn before_mount_parts(self) -> Seq<Seq<char>> {
        split_spaces(self.cmd_before_mount@)
    }

    /// The mount commands can be built: the before-mount command, unless it
    /// does nothing, names a program.
    pub open spec fn mount_buildable(self) -> bool {
        self.before_mount_noop() || self.before_mount_parts()[0].len() > 0
    }

    /// The commands that mount the definition, in order.
    pub open spec fn mount_command_list(self) -> Seq<CommandView> {
        if self.before_mount_noop() {
            seq![self.sshfs_command()]
        } else {
            seq![
                CommandView {
                    program: self.before_mount_parts()[0],
                    args: self.before_mount_parts().drop_first(),
                },
                self.sshfs_command(),
            ]
        }
    }

    /// The command that unmounts the definition.
    pub open spec fn umount_command(self) -> CommandView {
        CommandView { program: "fusermount"@, args: seq!["-u"@, self.local_path()] }
    }

    /// The command that opens the local mount path in a file manager.
    pub open spec fn open_command_view(self) -> CommandView {
        CommandView { program: "xdg-open"@, args: seq![self.local_path()] }
    }

    /// A definition with every text empty, port 22, no options, no local
    /// mount path and public-key authentication.
    pub fn default() -> (r: FilesystemMountDefinition)
        ensures
            r.id@.len() == 0,
            r.host@.len() == 0,
            r.port == 22,
            r.user@.len() == 0,
            r.mount_options@.len() == 0,
            r.remote_path@.len() == 0,
            r.mount_dest_path is None,
            r.cmd_before_mount@.len() == 0,
            r.auth_type == AuthType::PublicKey,
            r.ssh_key@.len() == 0,
    {
        FilesystemMountDefinition {
            id: String::new(),
            host: String::new(),
            port: 22,
            user: String::new(),
            mount_options: Vec::new(),
            remote_path: String::new(),
            mount_dest_path: None,
            cmd_before_mount: String::new(),
            auth_type: AuthType::PublicKey,
            ssh_key: String::new(),
        }
    }

    /// The local mount path: `mount_dest_path` when set, else
    /// `{DEFAULT_MOUNT_PATH_PREFIX}/{id}`. Computed anew on every call.
    pub fn local_mount_path(&self) -> (r: String)
        ensures
            r@ == self.local_path(),
    {
        match &self.mount_dest_path {
            Some(path) => path.clone(),
            None => {
                let mut r = String::from_str(DEFAULT_MOUNT_PATH_PREFIX);
                r.append("/");
                r.append(self.id.as_str());
                r
            },
        }
    }

    /// The connection target `user@[host]:remote_path`.
    pub fn connection_target(&self) -> (r: String)
        ensures
            r@ == self.target(),
    {
        let mut r = self.user.clone();
        r.append("@[");
        r.append(self.host.as_str());
        r.append("]:");
        r.append(self.remote_path.as_str());
        r
    }

    /// Checks every rule and reports the broken ones, in field order.
    pub fn validate(&self) -> (r: Result<(), Vec<ValidationIssue>>)
        ensures
            r is Ok <==> self.valid(),
            r is Err ==> r->Err_0@ == self.issues(),
    {
        let mut v: Vec<ValidationIssue> = Vec::new();
        let id_len = self.id.as_str().unicode_len();
        push_if(&mut v, id_len == 0, ValidationIssue::MissingId);
        push_if(&mut v, !validate_id(self.id.as_str()), ValidationIssue::InvalidId);
        push_if(&mut v, self.host.as_str().unicode_len() == 0, ValidationIssue::MissingHost);
        push_if(&mut v, self.user.as_str().unicode_len() == 0, ValidationIssue::MissingUser);
        push_if(
            &mut v,
            self.remote_path.as_str().unicode_len() == 0,
            ValidationIssue::MissingRemotePath,
        );
        push_if(
            &mut v,
            !validate_absolute_path(self.remote_path.as_str()),
            ValidationIssue::RelativeRemotePath,
        );
        match &self.mount_dest_path {
            Some(p) => {
                push_if(&mut v, p.as_str().unicode_len() == 0, ValidationIssue::MissingMountDestPath);
                push_if(
                    &mut v,
                    !validate_absolute_path(p.as_str()),
                    ValidationIssue::RelativeMountDestPath,
                );
            },
            None => {
                push_if(&mut v, false, ValidationIssue::MissingMountDestPath);
                push_if(&mut v, false, ValidationIssue::RelativeMountDestPath);
            },
        }
        push_if(&mut v, !self.validate_ssh_key_for_publickey_auth(), ValidationIssue::MissingSshKey);
        assert(v@ =~= self.issues());
        if v.len() == 0 {
            Ok(())
        } else {
            Err(v)
        }
    }

    /// The whole-record rule: public-key authentication needs a key path.
    pub fn validate_ssh_key_for_publickey_auth(&self) -> (r: bool)
        ensures
            r == !self.key_missing(),
    {
        match self.auth_type {
            AuthType::PublicKey => self.ssh_key.as_str().unicode_len() > 0,
            _ => true,
        }
    }

    /// The commands that mount the definition: the before-mount command
    /// (unless it does nothing), then the sshfs invocation.
    pub fn mount_commands(&self) -> (r: Result<Vec<ExternalCommand>, SftpManError>)
        ensures
            r is Ok <==> self.mount_buildable(),
            r is Ok ==> command_views(r->Ok_0@) == self.mount_command_list(),
            r is Err ==> r->Err_0 is MountCommandBuilding,
    {
        let mut list: Vec<ExternalCommand> = Vec::new();
        let noop = self.cmd_before_mount.as_str().unicode_len() == 0
            || crate::text::same_text(self.cmd_before_mount.as_str(), "/bin/true")
            || crate::text::same_text(self.cmd_before_mount.as_str(), "true");
        if !noop {
            let mut parts = split_on_spaces(self.cmd_before_mount.as_str());
            proof {
                crate::text::lemma_split_nonempty(self.cmd_before_mount@, ' ');
            }
            let program = parts.remove(0);
            if program.as_str().unicode_len() == 0 {
                let mut msg = String::from_str("could not extract program name from ");
                msg.append(self.cmd_before_mount.as_str());
                return Err(SftpManError::MountCommandBuilding(msg));
            }
            let before = ExternalCommand { program, args: parts };
            proof {
                assert(before@.args =~= self.before_mount_parts().drop_first());
            }
            list.push(before);
        }
        let sshfs = self.sshfs_invocation();
        list.push(sshfs);
        proof {
            if noop {
                assert(command_views(list@) =~= self.mount_command_list());
            } else {
                assert(command_views(list@) =~= self.mount_command_list());
            }
        }
        Ok(list)
    }

    /// The SSH transport command.
    fn ssh_invocation(&self) -> (r: ExternalCommand)
        ensures
            r@ == self.ssh_command(),
    {
        let mut cmd = ExternalCommand::new("ssh");
        cmd.arg_str("-p");
        cmd.arg(decimal_string(self.port as u64));
        cmd.arg_str("-o");
        let mut timeout = String::from_str("ConnectTimeout=");
        timeout.append(decimal_string(SSH_DEFAULT_TIMEOUT).as_str());
        cmd.arg(timeout);
        let ghost base = cmd@.args;
        match self.auth_type {
            AuthType::PublicKey => {
                let mut pref = String::from_str("-o PreferredAuthentications=");
                pref.append(AuthType::PublicKey.to_static_str());
                cmd.arg(pref);
                let mut key = String::from_str("-i ");
                key.append(self.ssh_key.as_str());
                cmd.arg(key);
            },
            AuthType::AuthenticationAgent => {},
            _ => {
                let mut pref = String::from_str("-o PreferredAuthentications=");
                pref.append(self.auth_type.to_static_str());
                cmd.arg(pref);
            },
        }
        assert(cmd@.args =~= base + self.auth_args());
        assert(cmd@.args =~= self.ssh_command().args);
        cmd
    }

    /// The sshfs command that mounts the definition.
    fn sshfs_invocation(&self) -> (r: ExternalCommand)
        ensures
            r@ == self.sshfs_command(),
    {
        let mut cmd = ExternalCommand::new("sshfs");
        let mut i: usize = 0;
        while i < self.mount_options.len()
            invariant
                i <= self.mount_options@.len(),
                cmd@.program == "sshfs"@,
                cmd@.args == option_args(views(self.mount_options@.take(i as int))),
            decreases self.mount_options@.len() - i,
        {
            proof {
                let before = views(self.mount_options@.take(i as int));
                let after = views(self.mount_options@.take(i + 1));
                assert(after.drop_last() =~= before);
                assert(after.last() == self.mount_options@[i as int]@);
            }
            cmd.arg_str("-o");
            cmd.arg(self.mount_options[i].clone());
            i = i + 1;
        }
        proof {
            assert(self.mount_options@.take(self.mount_options@.len() as int) =~= self.mount_options@);
        }
        let ssh = self.ssh_invocation();
        let mut ssh_option = String::from_str("ssh_command=");
        ssh_option.append(crate::command::command_to_string(&ssh).as_str());
        cmd.arg_str("-o");
        cmd.arg(ssh_option);
        cmd.arg(self.connection_target());
        cmd.arg(self.local_mount_path());
        assert(cmd@.args =~= self.sshfs_command().args);
        cmd
    }

    /// The commands that unmount the definition: `fusermount -u <local path>`.
    pub fn umount_commands(&self) -> (r: Result<Vec<ExternalCommand>, SftpManError>)
        ensures
            r is Ok,
            r is Ok ==> command_views(r->Ok_0@) == seq![self.umount_command()],
    {
        let mut cmd = ExternalCommand::new("fusermount");
        cmd.arg_str("-u");
        cmd.arg(self.local_mount_path());
        assert(cmd@.args =~= self.umount_command().args);
        let mut list: Vec<ExternalCommand> = Vec::new();
        list.push(cmd);
        assert(command_views(list@) =~= seq![self.umount_command()]);
        Ok(list)
    }

    /// The command that opens the local mount path with `xdg-open`.
    /// The path must already be mounted; nothing here checks it.
    pub fn open_command(&self) -> (r: ExternalCommand)
        ensures
            r@ == self.open_command_view(),
    {
        let mut cmd = ExternalCommand::new("xdg-open");
        cmd.arg(self.local_mount_path());
        assert(cmd@.args =~= self.open_command_view().args);
        cmd
    }
}

fn push_if(v: &mut Vec<ValidationIssue>, broken: bool, issue: ValidationIssue)
    ensures
        final(v)@ == old(v)@ + flag(broken, issue),
{
    if broken {
        v.push(issue);
    }
    assert(v@ =~= old(v)@ + flag(broken, issue));
}

/// Every character of the id is alphanumeric, `_`, `-` or `.`.
fn validate_id(id: &str) -> (r: bool)
    ensures
        r == id_chars_ok(id@),
{
    let n = id.unicode_len();
    let mut i: usize = 0;
    while i < n
        invariant
            n == id@.len(),
            i <= n,
            forall|j: int| 0 <= j < i ==> #[trigger] id_char(id@[j], alphanumeric(id@[j])),
        decreases n - i,
    {
        let c = id.get_char(i);
        if !id_char_allowed(c, is_alphanumeric(c)) {
            assert(!id_char(id@[i as int], alphanumeric(id@[i as int])));
            return false;
        }
        i = i + 1;
    }
    true
}

/// The path starts with `/`.
fn validate_absolute_path(path: &str) -> (r: bool)
    ensures
        r == absolute(path@),
{
    path.unicode_len() > 0 && path.get_char(0) == '/'
}

} // verus!
