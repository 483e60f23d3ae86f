//! Unmounting and mounting one definition, as state machines.

use vstd::prelude::*;

use crate::command::{command_views, ExternalCommand};
use crate::definition::FilesystemMountDefinition;
use crate::errors::SftpManError;
use crate::lifecycle::{Action, Outcome};
use crate::mount_state::{mismatch_error, mount_status, mount_status_ok, vfs_at};
use crate::process::KillSequence;

verus! {

/// Where an unmount stands: what it asked for last.
#[derive(Debug, Clone, Copy, PartialEq, Eq, Structural)]
pub enum UmountPhase {
    Start,
    CheckAsked,
    CommandAsked,
    CleanupAsked,
    CleanupAfterFailureAsked,
    ProcessAsked,
    Killing,
    CleanupAfterKillAsked,
    Finished,
}

/// Unmounting one definition. Nothing is done when it is not mounted.
/// Otherwise the unmount commands run and the local directory is removed.
/// When a command fails (most often: device busy) the directory removal is
/// still attempted, then the sshfs process is looked up and killed; a kill
/// that succeeds counts as unmounted, and the commands are not run again.
#[derive(Debug)]
pub struct UmountOp {
    pub id: String,
    pub path: String,
    pub target: String,
    pub pending: Vec<ExternalCommand>,
    pub kill: KillSequence,
    pub phase: UmountPhase,
}

impl UmountOp {
    /// An unmount of `definition` that waits `wait_millis` at each wait of a kill.
    pub fn new(definition: &FilesystemMountDefinition, wait_millis: u64) -> (r: UmountOp)
        ensures
            r.id@ == definition.id@,
            r.path@ == definition.local_path(),
            r.target@ == definition.target(),
            command_views(r.pending@) == seq![definition.umount_command()],
            r.kill.wait_millis == wait_millis,
            r.phase == UmountPhase::Start,
    {
        let pending = match definition.umount_commands() {
            Ok(list) => list,
            Err(_) => Vec::new(),
        };
        UmountOp {
            id: definition.id.clone(),
            path: definition.local_mount_path(),
            target: definition.connection_target(),
            pending,
            kill: KillSequence::new(0, wait_millis),
            phase: UmountPhase::Start,
        }
    }

    pub open spec fn accepts(self, o: Outcome) -> bool {
        match self.phase {
            UmountPhase::Start => o is Begin,
            UmountPhase::CheckAsked => o is MountTable,
            UmountPhase::ProcessAsked => o is HelperProcess,
            UmountPhase::Killing => self.kill.accepts(o),
            UmountPhase::Finished => false,
            _ => o is Completed,
        }
    }

    pub fn accepts_outcome(&self, o: &Outcome) -> (r: bool)
        ensures
            r == self.accepts(*o),
    {
        match self.phase {
            UmountPhase::Start => matches!(o, Outcome::Begin),
            UmountPhase::CheckAsked => matches!(o, Outcome::MountTable(_)),
            UmountPhase::ProcessAsked => matches!(o, Outcome::HelperProcess(_)),
            UmountPhase::Killing => self.kill.accepts_outcome(o),
            UmountPhase::Finished => false,
            _ => matches!(o, Outcome::Completed(_)),
        }
    }

    /// The fields that no step changes.
    pub open spec fn same_subject(s: UmountOp, t: UmountOp) -> bool {
        &&& t.id == s.id
        &&& t.path == s.path
        &&& t.target == s.target
        &&& t.kill.wait_millis == s.kill.wait_millis
    }

    /// Runs the next unmount command, or cleans up when none is left.
    pub open spec fn run_next(s: UmountOp, t: UmountOp, a: Action) -> bool {
        &&& t.kill == s.kill
        &&& if s.pending@.len() > 0 {
            &&& t.phase == UmountPhase::CommandAsked
            &&& a == Action::RunCommand(s.pending@[0])
            &&& t.pending@ == s.pending@.drop_first()
        } else {
            &&& t.phase == UmountPhase::CleanupAsked
            &&& a == Action::RemoveDirectory(s.path)
            &&& t.pending == s.pending
        }
    }

    /// Ends with `a`, and changes nothing else.
    pub open spec fn finish(s: UmountOp, t: UmountOp, a: Action, r: Result<(), SftpManError>) -> bool {
        &&& t.phase == UmountPhase::Finished
        &&& t.pending == s.pending
        &&& t.kill == s.kill
        &&& a == Action::Done(r)
    }

    /// Moves to phase `p` asking for `a`, and changes nothing else.
    pub open spec fn ask(s: UmountOp, t: UmountOp, p: UmountPhase, a: Action, b: Action) -> bool {
        &&& t.phase == p
        &&& t.pending == s.pending
        &&& t.kill == s.kill
        &&& a == b
    }

    /// One step: from `s`, on outcome `o`, to `t`, asking for `a`.
    pub open spec fn next(s: UmountOp, o: Outcome, t: UmountOp, a: Action) -> bool {
        &&& UmountOp::same_subject(s, t)
        &&& match s.phase {
            UmountPhase::Start => UmountOp::ask(
                s,
                t,
                UmountPhase::CheckAsked,
                a,
                Action::ReadMountTable(s.path),
            ),
            UmountPhase::CheckAsked => match o {
                Outcome::MountTable(Err(e)) => UmountOp::finish(s, t, a, Err(e)),
                Outcome::MountTable(Ok(es)) => if !mount_status_ok(es@, s.path@) {
                    &&& t.phase == UmountPhase::Finished
                    &&& t.pending == s.pending
                    &&& t.kill == s.kill
                    &&& a matches Action::Done(Err(e)) && mismatch_error(e, es@, s.path@)
                } else if vfs_at(es@, s.path@) is None {
                    UmountOp::finish(s, t, a, Ok(()))
                } else {
                    UmountOp::run_next(s, t, a)
                },
                _ => false,
            },
            UmountPhase::CommandAsked => match o {
                Outcome::Completed(Ok(())) => UmountOp::run_next(s, t, a),
                Outcome::Completed(Err(_)) => UmountOp::ask(
                    s,
                    t,
                    UmountPhase::CleanupAfterFailureAsked,
                    a,
                    Action::RemoveDirectory(s.path),
                ),
                _ => false,
            },
            UmountPhase::CleanupAsked => UmountOp::finish(s, t, a, Ok(())),
            UmountPhase::CleanupAfterFailureAsked => UmountOp::ask(
                s,
                t,
                UmountPhase::ProcessAsked,
                a,
                Action::FindHelperProcess(s.target),
            ),
            UmountPhase::ProcessAsked => match o {
                Outcome::HelperProcess(Err(e)) => UmountOp::finish(s, t, a, Err(e)),
                Outcome::HelperProcess(Ok(None)) => {
                    &&& t.phase == UmountPhase::Finished
                    &&& t.pending == s.pending
                    &&& a matches Action::Done(Err(SftpManError::ProcessNotDetermined(id)))
                    &&& id@ == s.id@
                },
                Outcome::HelperProcess(Ok(Some(pid))) => {
                    &&& t.phase == UmountPhase::Killing
                    &&& t.pending == s.pending
                    &&& KillSequence::next(
                        KillSequence::new_spec(pid, s.kill.wait_millis),
                        Outcome::Begin,
                        t.kill,
                        a,
                    )
                },
                _ => false,
            },
            UmountPhase::Killing => {
                &&& t.pending == s.pending
                &&& {
                    ||| KillSequence::next(s.kill, o, t.kill, a) && !a.is_done() && t.phase
                        == UmountPhase::Killing
                    ||| KillSequence::next(s.kill, o, t.kill, a) && t.phase == UmountPhase::Finished
                        && (a matches Action::Done(Err(_)))
                    ||| KillSequence::next(s.kill, o, t.kill, Action::Done(Ok(()))) && a
                        == Action::RemoveDirectory(s.path) && t.phase
                        == UmountPhase::CleanupAfterKillAsked
                }
            },
            UmountPhase::CleanupAfterKillAsked => UmountOp::finish(s, t, a, Ok(())),
            UmountPhase::Finished => false,
        }
    }

    fn run_next_command(&mut self) -> (a: Action)
        ensures
            UmountOp::same_subject(*old(self), *final(self)),
            UmountOp::run_next(*old(self), *final(self), a),
    {
        if self.pending.len() > 0 {
            self.phase = UmountPhase::CommandAsked;
            let cmd = self.pending.remove(0);
            assert(self.pending@ =~= old(self).pending@.drop_first());
            Action::RunCommand(cmd)
        } else {
            self.phase = UmountPhase::CleanupAsked;
            Action::RemoveDirectory(self.path.clone())
        }
    }

    /// Advances the unmount by one outcome and says what to do next.
    pub fn step(&mut self, o: Outcome) -> (a: Action)
        requires
            old(self).accepts(o),
        ensures
            UmountOp::next(*old(self), o, *final(self), a),
    {
        match self.phase {
            UmountPhase::Start => {
                self.phase = UmountPhase::CheckAsked;
                Action::ReadMountTable(self.path.clone())
            },
            UmountPhase::CheckAsked => match o {
                Outcome::MountTable(Err(e)) => {
                    self.phase = UmountPhase::Finished;
                    Action::Done(Err(e))
                },
                Outcome::MountTable(Ok(es)) => match mount_status(&self.path, &es) {
                    Err(e) => {
                        self.phase = UmountPhase::Finished;
                        Action::Done(Err(e))
                    },
                    Ok(false) => {
                        self.phase = UmountPhase::Finished;
                        Action::Done(Ok(()))
                    },
                    Ok(true) => self.run_next_command(),
                },
                _ => Action::Done(Ok(())),
            },
            UmountPhase::CommandAsked => match o {
                Outcome::Completed(Ok(())) => self.run_next_command(),
                _ => {
                    self.phase = UmountPhase::CleanupAfterFailureAsked;
                    Action::RemoveDirectory(self.path.clone())
                },
            },
            UmountPhase::CleanupAsked | UmountPhase::CleanupAfterKillAsked => {
                self.phase = UmountPhase::Finished;
                Action::Done(Ok(()))
            },
            UmountPhase::CleanupAfterFailureAsked => {
                self.phase = UmountPhase::ProcessAsked;
                Action::FindHelperProcess(self.target.clone())
            },
            UmountPhase::ProcessAsked => match o {
                Outcome::HelperProcess(Err(e)) => {
                    self.phase = UmountPhase::Finished;
                    Action::Done(Err(e))
                },
                Outcome::HelperProcess(Ok(None)) => {
                    self.phase = UmountPhase::Finished;
                    Action::Done(Err(SftpManError::ProcessNotDetermined(self.id.clone())))
                },
                Outcome::HelperProcess(Ok(Some(pid))) => {
                    self.phase = UmountPhase::Killing;
                    self.kill = KillSequence::new(pid, self.kill.wait_millis);
                    self.kill.step(Outcome::Begin)
                },
                _ => Action::Done(Ok(())),
            },
            UmountPhase::Killing => {
                let a2 = self.kill.step(o);
                match a2 {
                    Action::Done(Ok(())) => {
                        self.phase = UmountPhase::CleanupAfterKillAsked;
                        Action::RemoveDirectory(self.path.clone())
                    },
                    Action::Done(Err(e)) => {
                        self.phase = UmountPhase::Finished;
                        Action::Done(Err(e))
                    },
                    other => other,
                }
            },
            UmountPhase::Finished => Action::Done(Ok(())),
        }
    }
}

/// Where a mount stands: what it asked for last.
#[derive(Debug, Clone, Copy, PartialEq, Eq, Structural)]
pub enum MountPhase {
    Start,
    CheckAsked,
    CreateAsked,
    CommandAsked,
    CleaningUp,
    RemoveAsked,
    Finished,
}

/// Mounting one definition. Nothing is done when it is already mounted.
/// Otherwise the local directory is created and the mount commands run in
/// order. When one fails, a full unmount is attempted to clean up a half
/// mount, then the directory is removed, and the command's error is the
/// result whatever became of the cleanup.
#[derive(Debug)]
pub struct MountOp {
    pub path: String,
    pub pending: Vec<ExternalCommand>,
    /// Why the command list could not be built, if it could not.
    pub build_error: Option<SftpManError>,
    /// The error of the command that failed.
    pub failure: Option<SftpManError>,
    pub cleanup: UmountOp,
    pub phase: MountPhase,
}

impl MountOp {
    /// A mount of `definition`; a cleanup that has to kill waits `wait_millis` at each wait.
    pub fn new(definition: &FilesystemMountDefinition, wait_millis: u64) -> (r: MountOp)
        ensures
            r.path@ == definition.local_path(),
            definition.mount_buildable() ==> r.build_error is None && command_views(r.pending@)
                == definition.mount_command_list(),
            !definition.mount_buildable() ==> (r.build_error matches Some(e)
                && e is MountCommandBuilding),
            r.failure is None,
            r.phase == MountPhase::Start,
            r.inv(),
            r.cleanup.phase == UmountPhase::Start,
            r.cleanup.path@ == definition.local_path(),
            r.cleanup.id@ == definition.id@,
            r.cleanup.target@ == definition.target(),
            command_views(r.cleanup.pending@) == seq![definition.umount_command()],
            r.cleanup.kill.wait_millis == wait_millis,
    {
        let (pending, build_error) = match definition.mount_commands() {
            Ok(list) => (list, None),
            Err(e) => (Vec::new(), Some(e)),
        };
        MountOp {
            path: definition.local_mount_path(),
            pending,
            build_error,
            failure: None,
            cleanup: UmountOp::new(definition, wait_millis),
            phase: MountPhase::Start,
        }
    }

    /// Until a command fails, the cleanup has not started.
    pub open spec fn inv(self) -> bool {
        match self.phase {
            MountPhase::CleaningUp | MountPhase::RemoveAsked | MountPhase::Finished => true,
            _ => self.cleanup.phase == UmountPhase::Start,
        }
    }

    pub open spec fn accepts(self, o: Outcome) -> bool {
        match self.phase {
            MountPhase::Start => o is Begin,
            MountPhase::CheckAsked => o is MountTable,
            MountPhase::CleaningUp => self.cleanup.accepts(o),
            MountPhase::Finished => false,
            _ => o is Completed,
        }
    }

    pub fn accepts_outcome(&self, o: &Outcome) -> (r: bool)
        ensures
            r == self.accepts(*o),
    {
        match self.phase {
            MountPhase::Start => matches!(o, Outcome::Begin),
            MountPhase::CheckAsked => matches!(o, Outcome::MountTable(_)),
            MountPhase::CleaningUp => self.cleanup.accepts_outcome(o),
            MountPhase::Finished => false,
            _ => matches!(o, Outcome::Completed(_)),
        }
    }

    /// Moves to phase `p` asking for `a`, and changes nothing else.
    pub open spec fn ask(s: MountOp, t: MountOp, p: MountPhase, a: Action, b: Action) -> bool {
        &&& t.phase == p
        &&& t.build_error == s.build_error
        &&& t.pending == s.pending
        &&& t.failure == s.failure
        &&& t.cleanup == s.cleanup
        &&& a == b
    }

    /// Runs the next mount command, or ends well when none is left.
    pub open spec fn run_next(s: MountOp, t: MountOp, a: Action) -> bool {
        &&& t.build_error == s.build_error
        &&& t.failure == s.failure
        &&& t.cleanup == s.cleanup
        &&& if s.pending@.len() > 0 {
            &&& t.phase == MountPhase::CommandAsked
            &&& a == Action::RunCommand(s.pending@[0])
            &&& t.pending@ == s.pending@.drop_first()
        } else {
            &&& t.phase == MountPhase::Finished
            &&& a == Action::Done(Ok(()))
            &&& t.pending == s.pending
        }
    }

    /// One step: from `s`, on outcome `o`, to `t`, asking for `a`.
    pub open spec fn next(s: MountOp, o: Outcome, t: MountOp, a: Action) -> bool {
        &&& t.path == s.path
        &&& match s.phase {
            MountPhase::Start => MountOp::ask(
                s,
                t,
                MountPhase::CheckAsked,
                a,
                Action::ReadMountTable(s.path),
            ),
            MountPhase::CheckAsked => match o {
                Outcome::MountTable(Err(e)) => MountOp::ask(
                    s,
                    t,
                    MountPhase::Finished,
                    a,
                    Action::Done(Err(e)),
                ),
                Outcome::MountTable(Ok(es)) => if !mount_status_ok(es@, s.path@) {
                    &&& t.phase == MountPhase::Finished
                    &&& t.pending == s.pending
                    &&& t.cleanup == s.cleanup
                    &&& t.build_error == s.build_error
                    &&& a matches Action::Done(Err(e)) && mismatch_error(e, es@, s.path@)
                } else if vfs_at(es@, s.path@) is Some {
                    MountOp::ask(s, t, MountPhase::Finished, a, Action::Done(Ok(())))
                } else {
                    MountOp::ask(s, t, MountPhase::CreateAsked, a, Action::CreateDirectory(s.path))
                },
                _ => false,
            },
            MountPhase::CreateAsked => match o {
                Outcome::Completed(Err(e)) => MountOp::ask(
                    s,
                    t,
                    MountPhase::Finished,
                    a,
                    Action::Done(Err(e)),
                ),
                Outcome::Completed(Ok(())) => match s.build_error {
                    Some(b) => t.phase == MountPhase::Finished && a == Action::Done(Err(b)),
                    None => MountOp::run_next(s, t, a),
                },
                _ => false,
            },
            MountPhase::CommandAsked => match o {
                Outcome::Completed(Ok(())) => MountOp::run_next(s, t, a),
                Outcome::Completed(Err(e)) => {
                    &&& t.phase == MountPhase::CleaningUp
                    &&& t.build_error == s.build_error
                    &&& t.pending == s.pending
                    &&& t.failure == Some(e)
                    &&& UmountOp::next(s.cleanup, Outcome::Begin, t.cleanup, a)
                },
                _ => false,
            },
            MountPhase::CleaningUp => {
                &&& t.build_error == s.build_error
                &&& t.pending == s.pending
                &&& t.failure == s.failure
                &&& {
                    ||| UmountOp::next(s.cleanup, o, t.cleanup, a) && !a.is_done() && t.phase
                        == MountPhase::CleaningUp
                    ||| (exists|r: Result<(), SftpManError>|
                        #[trigger] UmountOp::next(s.cleanup, o, t.cleanup, Action::Done(r)))
                        && a == Action::RemoveDirectory(s.path) && t.phase
                        == MountPhase::RemoveAsked
                }
            },
            MountPhase::RemoveAsked => {
                &&& s.failure matches Some(e) ==> a == Action::Done(Err(e))
                &&& t.phase == MountPhase::Finished
                &&& t.pending == s.pending
                &&& t.cleanup == s.cleanup
            },
            MountPhase::Finished => false,
        }
    }

    fn run_next_command(&mut self) -> (a: Action)
        ensures
            final(self).path == old(self).path,
            final(self).build_error == old(self).build_error,
            MountOp::run_next(*old(self), *final(self), a),
    {
        if self.pending.len() > 0 {
            self.phase = MountPhase::CommandAsked;
            let cmd = self.pending.remove(0);
            assert(self.pending@ =~= old(self).pending@.drop_first());
            Action::RunCommand(cmd)
        } else {
            self.phase = MountPhase::Finished;
            Action::Done(Ok(()))
        }
    }

    /// Advances the mount by one outcome and says what to do next.
    pub fn step(&mut self, o: Outcome) -> (a: Action)
        requires
            old(self).inv(),
            old(self).accepts(o),
        ensures
            final(self).inv(),
            MountOp::next(*old(self), o, *final(self), a),
    {
        match self.phase {
            MountPhase::Start => {
                self.phase = MountPhase::CheckAsked;
                Action::ReadMountTable(self.path.clone())
            },
            MountPhase::CheckAsked => match o {
                Outcome::MountTable(Err(e)) => {
                    self.phase = MountPhase::Finished;
                    Action::Done(Err(e))
                },
                Outcome::MountTable(Ok(es)) => match mount_status(&self.path, &es) {
                    Err(e) => {
                        self.phase = MountPhase::Finished;
                        Action::Done(Err(e))
                    },
                    Ok(true) => {
                        self.phase = MountPhase::Finished;
                        Action::Done(Ok(()))
                    },
                    Ok(false) => {
                        self.phase = MountPhase::CreateAsked;
                        Action::CreateDirectory(self.path.clone())
                    },
                },
                _ => Action::Done(Ok(())),
            },
            MountPhase::CreateAsked => match o {
                Outcome::Completed(Err(e)) => {
                    self.phase = MountPhase::Finished;
                    Action::Done(Err(e))
                },
                _ => {
                    if self.build_error.is_some() {
                        self.phase = MountPhase::Finished;
                        match self.build_error.take() {
                            Some(b) => Action::Done(Err(b)),
                            None => Action::Done(Ok(())),
                        }
                    } else {
                        self.run_next_command()
                    }
                },
            },
            MountPhase::CommandAsked => match o {
                Outcome::Completed(Err(e)) => {
                    self.phase = MountPhase::CleaningUp;
                    self.failure = Some(e);
                    self.cleanup.step(Outcome::Begin)
                },
                _ => self.run_next_command(),
            },
            MountPhase::CleaningUp => {
                let a2 = self.cleanup.step(o);
                match a2 {
                    Action::Done(r) => {
                        assert(UmountOp::next(old(self).cleanup, o, self.cleanup, Action::Done(r)));
                        self.phase = MountPhase::RemoveAsked;
                        Action::RemoveDirectory(self.path.clone())
                    },
                    other => other,
                }
            },
            MountPhase::RemoveAsked => {
                self.phase = MountPhase::Finished;
                match self.failure.take() {
                    Some(e) => Action::Done(Err(e)),
                    None => Action::Done(Ok(())),
                }
            },
            MountPhase::Finished => Action::Done(Ok(())),
        }
    }
}

} // verus!
