//! Persisting and removing definitions, as state machines that keep the live
//! mount state consistent with the stored records.

use vstd::prelude::*;

use crate::command::command_views;
use crate::definition::FilesystemMountDefinition;
use crate::errors::SftpManError;
use crate::lifecycle::{Action, Outcome};
use crate::mount_state::{mismatch_error, mount_status, mount_status_ok, vfs_at};
use crate::operations::{MountOp, MountPhase, UmountOp, UmountPhase};

verus! {

/// Where a persist stands: what it asked for last.
#[derive(Debug, Clone, Copy, PartialEq, Eq, Structural)]
pub enum PersistPhase {
    Start,
    LoadAsked,
    CheckOldAsked,
    UnmountingOld,
    DirectoryAsked,
    WriteAsked,
    Remounting,
    Finished,
}

/// Creating or updating the stored record of a definition. A stored record
/// with the same id that is mounted right now is unmounted first (a failure
/// there does not stop the write); the record directory is created when
/// missing; the definition is written (failures there are the result); and
/// when the old record was mounted, the new definition is mounted after the
/// write, whose failure does not change the result either.
#[derive(Debug)]
pub struct PersistOp {
    /// The definition written.
    pub definition: FilesystemMountDefinition,
    pub config_dir: String,
    pub record_path: String,
    /// The unmount of the stored definition, once it is known.
    pub old_umount: UmountOp,
    pub remount: MountOp,
    pub was_mounted: bool,
    pub wait_millis: u64,
    pub phase: PersistPhase,
}

impl PersistOp {
    pub fn new(
        definition: FilesystemMountDefinition,
        config_dir: String,
        record_path: String,
        wait_millis: u64,
    ) -> (r: PersistOp)
        ensures
            r.definition == definition,
            r.config_dir == config_dir,
            r.record_path == record_path,
            r.wait_millis == wait_millis,
            r.remount.path@ == definition.local_path(),
            definition.mount_buildable() ==> command_views(r.remount.pending@)
                == definition.mount_command_list(),
            r.remount.phase == MountPhase::Start,
            r.was_mounted == false,
            r.phase == PersistPhase::Start,
            r.inv(),
    {
        let remount = MountOp::new(&definition, wait_millis);
        let old_umount = UmountOp::new(&definition, wait_millis);
        PersistOp {
            definition,
            config_dir,
            record_path,
            old_umount,
            remount,
            was_mounted: false,
            wait_millis,
            phase: PersistPhase::Start,
        }
    }

    /// The nested operations have not started before their turn.
    pub open spec fn inv(self) -> bool {
        &&& self.remount.inv()
        &&& (self.phase != PersistPhase::Remounting && self.phase != PersistPhase::Finished)
            ==> self.remount.phase == MountPhase::Start
        &&& (self.phase == PersistPhase::Start || self.phase == PersistPhase::LoadAsked
            || self.phase == PersistPhase::CheckOldAsked) ==> self.old_umount.phase
            == UmountPhase::Start
    }

    pub open spec fn accepts(self, o: Outcome) -> bool {
        match self.phase {
            PersistPhase::Start => o is Begin,
            PersistPhase::LoadAsked => o is Stored,
            PersistPhase::CheckOldAsked => o is MountTable,
            PersistPhase::UnmountingOld => self.old_umount.accepts(o),
            PersistPhase::Remounting => self.remount.accepts(o),
            PersistPhase::Finished => false,
            _ => o is Completed,
        }
    }

    pub fn accepts_outcome(&self, o: &Outcome) -> (r: bool)
        ensures
            r == self.accepts(*o),
    {
        match self.phase {
            PersistPhase::Start => matches!(o, Outcome::Begin),
            PersistPhase::LoadAsked => matches!(o, Outcome::Stored(_)),
            PersistPhase::CheckOldAsked => matches!(o, Outcome::MountTable(_)),
            PersistPhase::UnmountingOld => self.old_umount.accepts_outcome(o),
            PersistPhase::Remounting => self.remount.accepts_outcome(o),
            PersistPhase::Finished => false,
            _ => matches!(o, Outcome::Completed(_)),
        }
    }

    /// Moves to phase `p` asking for `a`, and changes nothing else.
    pub open spec fn ask(s: PersistOp, t: PersistOp, p: PersistPhase, a: Action, b: Action) -> bool {
        &&& t.phase == p
        &&& t.old_umount == s.old_umount
        &&& t.remount == s.remount
        &&& t.was_mounted == s.was_mounted
        &&& a == b
    }

    /// One step: from `s`, on outcome `o`, to `t`, asking for `a`.
    pub open spec fn next(s: PersistOp, o: Outcome, t: PersistOp, a: Action) -> bool {
        &&& t.definition == s.definition
        &&& t.config_dir == s.config_dir
        &&& t.record_path == s.record_path
        &&& t.wait_millis == s.wait_millis
        &&& match s.phase {
            PersistPhase::Start => PersistOp::ask(
                s,
                t,
                PersistPhase::LoadAsked,
                a,
                Action::LoadDefinition(s.definition.id),
            ),
            PersistPhase::LoadAsked => match o {
                Outcome::Stored(None) => PersistOp::ask(
                    s,
                    t,
                    PersistPhase::DirectoryAsked,
                    a,
                    Action::EnsureDirectory(s.config_dir),
                ),
                Outcome::Stored(Some(old)) => {
                    &&& t.phase == PersistPhase::CheckOldAsked
                    &&& t.remount == s.remount
                    &&& t.was_mounted == s.was_mounted
                    &&& t.old_umount.id@ == old.id@
                    &&& t.old_umount.path@ == old.local_path()
                    &&& t.old_umount.target@ == old.target()
                    &&& command_views(t.old_umount.pending@) == seq![old.umount_command()]
                    &&& t.old_umount.kill.wait_millis == s.wait_millis
                    &&& t.old_umount.phase == UmountPhase::Start
                    &&& a == Action::ReadMountTable(t.old_umount.path)
                },
                _ => false,
            },
            PersistPhase::CheckOldAsked => match o {
                Outcome::MountTable(Err(e)) => PersistOp::ask(
                    s,
                    t,
                    PersistPhase::Finished,
                    a,
                    Action::Done(Err(e)),
                ),
                Outcome::MountTable(Ok(es)) => if !mount_status_ok(es@, s.old_umount.path@) {
                    &&& t.phase == PersistPhase::Finished
                    &&& t.remount == s.remount
                    &&& a matches Action::Done(Err(e)) && mismatch_error(
                        e,
                        es@,
                        s.old_umount.path@,
                    )
                } else if vfs_at(es@, s.old_umount.path@) is None {
                    PersistOp::ask(
                        s,
                        t,
                        PersistPhase::DirectoryAsked,
                        a,
                        Action::EnsureDirectory(s.config_dir),
                    )
                } else {
                    &&& t.phase == PersistPhase::UnmountingOld
                    &&& t.was_mounted
                    &&& t.remount == s.remount
                    &&& UmountOp::next(s.old_umount, Outcome::Begin, t.old_umount, a)
                },
                _ => false,
            },
            PersistPhase::UnmountingOld => {
                &&& t.remount == s.remount
                &&& t.was_mounted == s.was_mounted
                &&& {
                    ||| UmountOp::next(s.old_umount, o, t.old_umount, a) && !a.is_done()
                        && t.phase == PersistPhase::UnmountingOld
                    ||| (exists|r: Result<(), SftpManError>|
                        #[trigger] UmountOp::next(s.old_umount, o, t.old_umount, Action::Done(r)))
                        && a == Action::EnsureDirectory(s.config_dir) && t.phase
                        == PersistPhase::DirectoryAsked
                }
            },
            PersistPhase::DirectoryAsked => match o {
                Outcome::Completed(Err(e)) => PersistOp::ask(
                    s,
                    t,
                    PersistPhase::Finished,
                    a,
                    Action::Done(Err(e)),
                ),
                Outcome::Completed(Ok(())) => PersistOp::ask(
                    s,
                    t,
                    PersistPhase::WriteAsked,
                    a,
                    Action::WriteDefinition(s.record_path),
                ),
                _ => false,
            },
            PersistPhase::WriteAsked => match o {
                Outcome::Completed(Err(e)) => PersistOp::ask(
                    s,
                    t,
                    PersistPhase::Finished,
                    a,
                    Action::Done(Err(e)),
                ),
                Outcome::Completed(Ok(())) => if s.was_mounted {
                    &&& t.phase == PersistPhase::Remounting
                    &&& t.was_mounted == s.was_mounted
                    &&& MountOp::next(s.remount, Outcome::Begin, t.remount, a)
                } else {
                    PersistOp::ask(s, t, PersistPhase::Finished, a, Action::Done(Ok(())))
                },
                _ => false,
            },
            PersistPhase::Remounting => {
                &&& t.was_mounted == s.was_mounted
                &&& {
                    ||| MountOp::next(s.remount, o, t.remount, a) && !a.is_done() && t.phase
                        == PersistPhase::Remounting
                    ||| (exists|r: Result<(), SftpManError>|
                        #[trigger] MountOp::next(s.remount, o, t.remount, Action::Done(r))) && a
                        == Action::Done(Ok(())) && t.phase == PersistPhase::Finished
                }
            },
            PersistPhase::Finished => false,
        }
    }

    /// Advances the persist by one outcome and says what to do next.
    pub fn step(&mut self, o: Outcome) -> (a: Action)
        requires
            old(self).inv(),
            old(self).accepts(o),
        ensures
            final(self).inv(),
            PersistOp::next(*old(self), o, *final(self), a),
    {
        match self.phase {
            PersistPhase::Start => {
                self.phase = PersistPhase::LoadAsked;
                Action::LoadDefinition(self.definition.id.clone())
            },
            PersistPhase::LoadAsked => match o {
                Outcome::Stored(Some(old)) => {
                    self.old_umount = UmountOp::new(&old, self.wait_millis);
                    self.phase = PersistPhase::CheckOldAsked;
                    Action::ReadMountTable(self.old_umount.path.clone())
                },
                _ => {
                    self.phase = PersistPhase::DirectoryAsked;
                    Action::EnsureDirectory(self.config_dir.clone())
                },
            },
            PersistPhase::CheckOldAsked => match o {
                Outcome::MountTable(Err(e)) => {
                    self.phase = PersistPhase::Finished;
                    Action::Done(Err(e))
                },
                Outcome::MountTable(Ok(es)) => match mount_status(&self.old_umount.path, &es) {
                    Err(e) => {
                        self.phase = PersistPhase::Finished;
                        Action::Done(Err(e))
                    },
                    Ok(false) => {
                        self.phase = PersistPhase::DirectoryAsked;
                        Action::EnsureDirectory(self.config_dir.clone())
                    },
                    Ok(true) => {
                        self.phase = PersistPhase::UnmountingOld;
                        self.was_mounted = true;
                        self.old_umount.step(Outcome::Begin)
                    },
                },
                _ => Action::Done(Ok(())),
            },
            PersistPhase::UnmountingOld => {
                let a2 = self.old_umount.step(o);
                match a2 {
                    Action::Done(r) => {
                        assert(UmountOp::next(
                            old(self).old_umount,
                            o,
                            self.old_umount,
                            Action::Done(r),
                        ));
                        self.phase = PersistPhase::DirectoryAsked;
                        Action::EnsureDirectory(self.config_dir.clone())
                    },
                    other => other,
                }
            },
            PersistPhase::DirectoryAsked => match o {
                Outcome::Completed(Err(e)) => {
                    self.phase = PersistPhase::Finished;
                    Action::Done(Err(e))
                },
                _ => {
                    self.phase = PersistPhase::WriteAsked;
                    Action::WriteDefinition(self.record_path.clone())
                },
            },
            PersistPhase::WriteAsked => match o {
                Outcome::Completed(Err(e)) => {
                    self.phase = PersistPhase::Finished;
                    Action::Done(Err(e))
                },
                _ => {
                    if self.was_mounted {
                        self.phase = PersistPhase::Remounting;
                        self.remount.step(Outcome::Begin)
                    } else {
                        self.phase = PersistPhase::Finished;
                        Action::Done(Ok(()))
                    }
                },
            },
            PersistPhase::Remounting => {
                let a2 = self.remount.step(o);
                match a2 {
                    Action::Done(r) => {
                        assert(MountOp::next(old(self).remount, o, self.remount, Action::Done(r)));
                        self.phase = PersistPhase::Finished;
                        Action::Done(Ok(()))
                    },
                    other => other,
                }
            },
            PersistPhase::Finished => Action::Done(Ok(())),
        }
    }
}

/// Where a removal stands.
#[derive(Debug, Clone, Copy, PartialEq, Eq, Structural)]
pub enum RemovePhase {
    Start,
    Unmounting,
    DeleteAsked,
    Finished,
}

/// Removing a definition: unmount it (a failure is the result), then delete
/// its stored record (a failure is the result too).
#[derive(Debug)]
pub struct RemoveOp {
    pub record_path: String,
    pub umount: UmountOp,
    pub phase: RemovePhase,
}

impl RemoveOp {
    pub fn new(definition: &FilesystemMountDefinition, record_path: String, wait_millis: u64) -> (r:
        RemoveOp)
        ensures
            r.record_path == record_path,
            r.umount.id@ == definition.id@,
            r.umount.path@ == definition.local_path(),
            r.umount.target@ == definition.target(),
            command_views(r.umount.pending@) == seq![definition.umount_command()],
            r.umount.kill.wait_millis == wait_millis,
            r.umount.phase == UmountPhase::Start,
            r.phase == RemovePhase::Start,
    {
        RemoveOp { record_path, umount: UmountOp::new(definition, wait_millis), phase: RemovePhase::Start }
    }

    pub open spec fn inv(self) -> bool {
        self.phase == RemovePhase::Start ==> self.umount.phase == UmountPhase::Start
    }

    pub open spec fn accepts(self, o: Outcome) -> bool {
        match self.phase {
            RemovePhase::Start => o is Begin,
            RemovePhase::Unmounting => self.umount.accepts(o),
            RemovePhase::DeleteAsked => o is Completed,
            RemovePhase::Finished => false,
        }
    }

    pub fn accepts_outcome(&self, o: &Outcome) -> (r: bool)
        ensures
            r == self.accepts(*o),
    {
        match self.phase {
            RemovePhase::Start => matches!(o, Outcome::Begin),
            RemovePhase::Unmounting => self.umount.accepts_outcome(o),
            RemovePhase::DeleteAsked => matches!(o, Outcome::Completed(_)),
            RemovePhase::Finished => false,
        }
    }

    /// One step: from `s`, on outcome `o`, to `t`, asking for `a`.
    pub open spec fn next(s: RemoveOp, o: Outcome, t: RemoveOp, a: Action) -> bool {
        &&& t.record_path == s.record_path
        &&& match s.phase {
            RemovePhase::Start => t.phase == RemovePhase::Unmounting && UmountOp::next(
                s.umount,
                Outcome::Begin,
                t.umount,
                a,
            ),
            RemovePhase::Unmounting => {
                ||| UmountOp::next(s.umount, o, t.umount, a) && !a.is_done() && t.phase
                    == RemovePhase::Unmounting
                ||| UmountOp::next(s.umount, o, t.umount, a) && t.phase == RemovePhase::Finished
                    && (a matches Action::Done(Err(_)))
                ||| UmountOp::next(s.umount, o, t.umount, Action::Done(Ok(()))) && a
                    == Action::DeleteFile(s.record_path) && t.phase == RemovePhase::DeleteAsked
            },
            RemovePhase::DeleteAsked => t.phase == RemovePhase::Finished && t.umount == s.umount
                && match o {
                Outcome::Completed(r) => a == Action::Done(r),
                _ => false,
            },
            RemovePhase::Finished => false,
        }
    }

    /// Advances the removal by one outcome and says what to do next.
    pub fn step(&mut self, o: Outcome) -> (a: Action)
        requires
            old(self).inv(),
            old(self).accepts(o),
        ensures
            final(self).inv(),
            RemoveOp::next(*old(self), o, *final(self), a),
    {
        match self.phase {
            RemovePhase::Start => {
                self.phase = RemovePhase::Unmounting;
                self.umount.step(Outcome::Begin)
            },
            RemovePhase::Unmounting => {
                let a2 = self.umount.step(o);
                match a2 {
                    Action::Done(Ok(())) => {
                        self.phase = RemovePhase::DeleteAsked;
                        Action::DeleteFile(self.record_path.clone())
                    },
                    Action::Done(Err(e)) => {
                        self.phase = RemovePhase::Finished;
                        Action::Done(Err(e))
                    },
                    other => other,
                }
            },
            RemovePhase::DeleteAsked => {
                self.phase = RemovePhase::Finished;
                match o {
                    Outcome::Completed(r) => Action::Done(r),
                    _ => Action::Done(Ok(())),
                }
            },
            RemovePhase::Finished => Action::Done(Ok(())),
        }
    }
}

} // verus!
