//! Properties of the library that relate several functions or several
//! steps, stated over the specifications the functions are proved against.

use vstd::prelude::*;

use crate::auth_type::AuthType;
use crate::definition::{absolute, FilesystemMountDefinition, ValidationIssue, DEFAULT_MOUNT_PATH_PREFIX};
use crate::errors::SftpManError;
use crate::lifecycle::{Action, Outcome};
use crate::mount_state::{vfs_at, MountEntry, VFS_TYPE_SSHFS};
use crate::operations::{MountOp, MountPhase, UmountOp, UmountPhase};
use crate::persistence::{PersistOp, PersistPhase};
use crate::process::{KillPhase, KillSequence};
use crate::text::views;

verus! {

/// The local mount path is `mount_dest_path` when set, else
/// `{DEFAULT_MOUNT_PATH_PREFIX}/{id}`; it is absolute whenever a set
/// `mount_dest_path` is (as validation demands).
pub proof fn lemma_local_mount_path(d: FilesystemMountDefinition)
    ensures
        d.mount_dest_path matches Some(p) ==> d.local_path() == p@,
        d.mount_dest_path is None ==> d.local_path() == DEFAULT_MOUNT_PATH_PREFIX@ + "/"@ + d.id@,
        (d.mount_dest_path matches Some(p) ==> absolute(p@)) ==> absolute(d.local_path()),
        d.valid() ==> absolute(d.local_path()),
{
    reveal_strlit("/mnt/sshfs");
}

/// The commands built for a definition depend on its field values alone:
/// two definitions that hold the same values get the same commands, in the
/// same order, whatever happened before.
pub proof fn lemma_mount_commands_pure(d1: FilesystemMountDefinition, d2: FilesystemMountDefinition)
    requires
        d1.id@ == d2.id@,
        d1.host@ == d2.host@,
        d1.port == d2.port,
        d1.user@ == d2.user@,
        views(d1.mount_options@) == views(d2.mount_options@),
        d1.remote_path@ == d2.remote_path@,
        d1.mount_dest_path is Some <==> d2.mount_dest_path is Some,
        d1.mount_dest_path is Some ==> d1.mount_dest_path->Some_0@ == d2.mount_dest_path->Some_0@,
        d1.cmd_before_mount@ == d2.cmd_before_mount@,
        d1.auth_type == d2.auth_type,
        d1.ssh_key@ == d2.ssh_key@,
    ensures
        d1.mount_buildable() == d2.mount_buildable(),
        d1.mount_command_list() == d2.mount_command_list(),
        d1.umount_command() == d2.umount_command(),
{
    assert(d1.local_path() == d2.local_path());
    assert(d1.ssh_command() == d2.ssh_command());
    assert(d1.sshfs_command() == d2.sshfs_command());
}

/// Public-key authentication without a key always fails validation; with
/// any other method that rule never fails.
pub proof fn lemma_public_key_needs_key(d: FilesystemMountDefinition)
    ensures
        d.auth_type == AuthType::PublicKey && d.ssh_key@.len() == 0 ==> !d.valid()
            && d.issues().last() == ValidationIssue::MissingSshKey,
        d.auth_type != AuthType::PublicKey ==> !d.issues().contains(ValidationIssue::MissingSshKey),
{
    if d.auth_type != AuthType::PublicKey {
        if d.issues().contains(ValidationIssue::MissingSshKey) {
            let k = choose|k: int| 0 <= k < d.issues().len() && d.issues()[k] == ValidationIssue::MissingSshKey;
            assert(false);
        }
    }
}

/// A mount that finds the definition mounted asks for nothing but the
/// mount table and ends well: mounting twice runs no command the second time.
pub proof fn lemma_mount_when_mounted_does_nothing(
    s0: MountOp,
    s1: MountOp,
    a1: Action,
    es: Vec<MountEntry>,
    s2: MountOp,
    a2: Action,
)
    requires
        s0.phase == MountPhase::Start,
        MountOp::next(s0, Outcome::Begin, s1, a1),
        MountOp::next(s1, Outcome::MountTable(Ok(es)), s2, a2),
        vfs_at(es@, s0.path@) == Some(VFS_TYPE_SSHFS@),
    ensures
        a1 == Action::ReadMountTable(s0.path),
        a2 == Action::Done(Ok(())),
        s2.phase == MountPhase::Finished,
        !s2.accepts(Outcome::Begin) && !s2.accepts(Outcome::Completed(Ok(()))),
{
}

/// An unmount that finds the definition not mounted asks for nothing but
/// the mount table and ends well: unmounting twice runs no command the second time.
pub proof fn lemma_umount_when_unmounted_does_nothing(
    s0: UmountOp,
    s1: UmountOp,
    a1: Action,
    es: Vec<MountEntry>,
    s2: UmountOp,
    a2: Action,
)
    requires
        s0.phase == UmountPhase::Start,
        UmountOp::next(s0, Outcome::Begin, s1, a1),
        UmountOp::next(s1, Outcome::MountTable(Ok(es)), s2, a2),
        vfs_at(es@, s0.path@) is None,
    ensures
        a1 == Action::ReadMountTable(s0.path),
        a2 == Action::Done(Ok(())),
        s2.phase == UmountPhase::Finished,
        !s2.accepts(Outcome::Begin) && !s2.accepts(Outcome::Completed(Ok(()))),
{
}

/// When a mount command fails, the mount starts a full unmount of the
/// definition to clean up, keeps the command's error meanwhile, never ends
/// during the cleanup, removes the directory once the cleanup ends (however
/// it ended), and then ends with the command's error.
pub proof fn lemma_failed_mount_returns_command_error(
    s: MountOp,
    e: SftpManError,
    t: MountOp,
    a: Action,
    o: Outcome,
    u: MountOp,
    b: Action,
)
    requires
        s.inv(),
        s.phase == MountPhase::CommandAsked,
        MountOp::next(s, Outcome::Completed(Err(e)), t, a),
        MountOp::next(t, o, u, b),
    ensures
        t.phase == MountPhase::CleaningUp,
        t.failure == Some(e),
        a == Action::ReadMountTable(s.cleanup.path),
        u.phase == MountPhase::CleaningUp || u.phase == MountPhase::RemoveAsked,
        u.failure == Some(e),
        !(b is Done),
        u.phase == MountPhase::RemoveAsked ==> b == Action::RemoveDirectory(s.path),
{
}

/// Once the cleanup of a failed mount is over, the result is the error of
/// the command that failed, whatever the directory removal gave.
pub proof fn lemma_failed_mount_ends_with_command_error(
    s: MountOp,
    e: SftpManError,
    r: Result<(), SftpManError>,
    t: MountOp,
    a: Action,
)
    requires
        s.phase == MountPhase::RemoveAsked,
        s.failure == Some(e),
        MountOp::next(s, Outcome::Completed(r), t, a),
    ensures
        a == Action::Done(Err(e)),
        t.phase == MountPhase::Finished,
{
}

/// When the unmount command fails, the directory removal is attempted and
/// the sshfs process is looked up; when none is found the unmount fails
/// with an error naming the definition, and nothing else is tried.
pub proof fn lemma_busy_unmount_without_process_fails(
    s: UmountOp,
    e: SftpManError,
    t1: UmountOp,
    a1: Action,
    r: Result<(), SftpManError>,
    t2: UmountOp,
    a2: Action,
    t3: UmountOp,
    a3: Action,
)
    requires
        s.phase == UmountPhase::CommandAsked,
        UmountOp::next(s, Outcome::Completed(Err(e)), t1, a1),
        UmountOp::next(t1, Outcome::Completed(r), t2, a2),
        UmountOp::next(t2, Outcome::HelperProcess(Ok(None)), t3, a3),
    ensures
        a1 == Action::RemoveDirectory(s.path),
        a2 == Action::FindHelperProcess(s.target),
        a3 matches Action::Done(Err(SftpManError::ProcessNotDetermined(id))) && id@ == s.id@,
        t3.phase == UmountPhase::Finished,
{
}

/// Persisting over a stored definition that is mounted: the stored one is
/// unmounted before anything is written; the definition written is the one
/// being persisted; after a successful write it is mounted; and the persist
/// succeeds however that mount ends.
pub proof fn lemma_persist_remounts_mounted_definition(
    s0: PersistOp,
    old_definition: FilesystemMountDefinition,
    s1: PersistOp,
    a1: Action,
    es: Vec<MountEntry>,
    s2: PersistOp,
    a2: Action,
)
    requires
        s0.phase == PersistPhase::LoadAsked,
        s0.inv(),
        PersistOp::next(s0, Outcome::Stored(Some(old_definition)), s1, a1),
        PersistOp::next(s1, Outcome::MountTable(Ok(es)), s2, a2),
        vfs_at(es@, old_definition.local_path()) == Some(VFS_TYPE_SSHFS@),
    ensures
        a1 matches Action::ReadMountTable(p) && p@ == old_definition.local_path(),
        s2.phase == PersistPhase::UnmountingOld,
        s2.was_mounted,
        s2.old_umount.path@ == old_definition.local_path(),
        a2 matches Action::ReadMountTable(p) && p@ == old_definition.local_path(),
        s2.definition == s0.definition,
{
}

/// After the record is written, a persist that found the stored definition
/// mounted starts mounting the new one, and ends well whatever that mount gives.
pub proof fn lemma_persist_mounts_after_write(
    s: PersistOp,
    t: PersistOp,
    a: Action,
    o: Outcome,
    u: PersistOp,
    b: Action,
)
    requires
        s.inv(),
        s.phase == PersistPhase::WriteAsked,
        s.was_mounted,
        PersistOp::next(s, Outcome::Completed(Ok(())), t, a),
        PersistOp::next(t, o, u, b),
    ensures
        t.phase == PersistPhase::Remounting,
        a == Action::ReadMountTable(s.remount.path),
        b is Done ==> b == Action::Done(Ok(())),
        u.definition == s.definition,
{
}

/// A persist writes the definition it was made with to its record path, and
/// asks to write nothing else.
pub proof fn lemma_persist_writes_new_definition(s: PersistOp, o: Outcome, t: PersistOp, a: Action)
    requires
        s.inv(),
        PersistOp::next(s, o, t, a),
        s.phase != PersistPhase::UnmountingOld,
        s.phase != PersistPhase::Remounting,
    ensures
        t.definition == s.definition,
        a is WriteDefinition ==> a == Action::WriteDefinition(s.record_path) && s.phase
            == PersistPhase::DirectoryAsked,
{
}

/// The SSH transport always carries the port and the connect timeout; with
/// public-key authentication it also names the method and the identity
/// file; with agent authentication it names neither.
pub proof fn lemma_ssh_authentication_clause(d: FilesystemMountDefinition)
    ensures
        d.ssh_command().args.take(4) == seq![
            "-p"@,
            crate::text::decimal(d.port as nat),
            "-o"@,
            "ConnectTimeout="@ + crate::text::decimal(crate::definition::SSH_DEFAULT_TIMEOUT as nat),
        ],
        d.auth_type == AuthType::AuthenticationAgent ==> d.ssh_command().args.len() == 4,
        d.auth_type == AuthType::PublicKey ==> d.ssh_command().args.skip(4) == seq![
            "-o PreferredAuthentications="@ + "publickey"@,
            "-i "@ + d.ssh_key@,
        ],
{
    let args = d.ssh_command().args;
    assert(args.take(4) =~= seq![
        "-p"@,
        crate::text::decimal(d.port as nat),
        "-o"@,
        "ConnectTimeout="@ + crate::text::decimal(crate::definition::SSH_DEFAULT_TIMEOUT as nat),
    ]);
    if d.auth_type == AuthType::PublicKey {
        assert(args.skip(4) =~= d.auth_args());
    }
}

/// How far the escalation has gone; it ends at 7.
pub open spec fn kill_progress(p: KillPhase) -> nat {
    match p {
        KillPhase::Start => 0,
        KillPhase::TermAsked => 1,
        KillPhase::FirstWaitAsked => 2,
        KillPhase::FirstCheckAsked => 3,
        KillPhase::SecondWaitAsked => 4,
        KillPhase::KillAsked => 5,
        KillPhase::SecondCheckAsked => 6,
        KillPhase::Finished => 7,
    }
}

/// The escalation is bounded: every step moves it forward on a scale that
/// ends at seven, so it ends within seven steps; it hands over a result only
/// when it has ended, and then takes no more outcomes.
pub proof fn lemma_kill_sequence_is_bounded(s: KillSequence, o: Outcome, t: KillSequence, a: Action)
    requires
        KillSequence::next(s, o, t, a),
    ensures
        kill_progress(t.phase) > kill_progress(s.phase),
        kill_progress(t.phase) <= 7,
        t.phase == KillPhase::Finished ==> !t.accepts(o),
        a is Done ==> t.phase == KillPhase::Finished,
{
}

} // verus!
