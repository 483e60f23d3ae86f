//! The manager: where definitions are stored, their mount state, and the
//! lifecycle operations on them.

use vstd::prelude::*;

use crate::command::{command_views, ExternalCommand};
use crate::definition::FilesystemMountDefinition;
use crate::errors::{ManagerInitError, SftpManError};
use crate::mount_state::{
    is_sshfs_mounted, mount_status, mount_status_result, sshfs_mounted, MountEntry, MountState,
};
use crate::operations::{MountOp, MountPhase, UmountOp, UmountPhase};
use crate::persistence::{PersistOp, PersistPhase, RemoveOp, RemovePhase};
use crate::preflight::PreflightOp;

verus! {

/// How long each wait of a kill escalation lasts, in milliseconds.
pub const KILL_WAIT_MILLIS: u64 = 500;

/// Owns the location of the stored definitions and whether the preferred
/// unmount helper (`fusermount3`) is available, found out once when the
/// manager is made.
#[derive(Debug, Clone)]
pub struct Manager {
    pub config_path: String,
    pub fusermount3_available: bool,
}

impl Manager {
    /// A manager storing its records under `config_dir`; there is none
    /// without a configuration directory.
    pub fn new(config_dir: Option<String>, fusermount3_available: bool) -> (r: Result<
        Manager,
        ManagerInitError,
    >)
        ensures
            r is Ok <==> config_dir is Some,
            r matches Ok(m) ==> m.config_path == config_dir->Some_0 && m.fusermount3_available
                == fusermount3_available,
            r is Err ==> r->Err_0 == ManagerInitError::NoConfigDirectory,
    {
        match config_dir {
            Some(config_path) => Ok(Manager { config_path, fusermount3_available }),
            None => Err(ManagerInitError::NoConfigDirectory),
        }
    }

    pub open spec fn mounts_dir(self) -> Seq<char> {
        self.config_path@ + "/mounts"@
    }

    pub open spec fn record_path(self, id: Seq<char>) -> Seq<char> {
        self.mounts_dir() + "/"@ + id + ".json"@
    }

    /// The directory of the stored definitions.
    pub fn config_path_mounts(&self) -> (r: String)
        ensures
            r@ == self.mounts_dir(),
    {
        let mut r = self.config_path.clone();
        r.append("/mounts");
        r
    }

    /// The file that stores the definition with this id.
    pub fn config_path_for_definition_id(&self, id: &str) -> (r: String)
        ensures
            r@ == self.record_path(id@),
    {
        let mut r = self.config_path_mounts();
        r.append("/");
        r.append(id);
        r.append(".json");
        r
    }

    /// Tells from the mount table whether the definition is mounted; an
    /// entry at its path with another filesystem type is an error.
    pub fn is_definition_mounted(
        &self,
        definition: &FilesystemMountDefinition,
        mounts: &Vec<MountEntry>,
    ) -> (r: Result<bool, SftpManError>)
        ensures
            mount_status_result(mounts@, definition.local_path(), r),
    {
        let path = definition.local_mount_path();
        mount_status(&path, mounts)
    }

    /// Pairs each definition, in order, with whether some sshfs entry of the
    /// mount table is at its local mount path.
    pub fn full_state(
        &self,
        definitions: Vec<FilesystemMountDefinition>,
        mounts: &Vec<MountEntry>,
    ) -> (r: Vec<MountState>)
        ensures
            r@.len() == definitions@.len(),
            forall|i: int|
                0 <= i < r@.len() ==> (#[trigger] r@[i]).definition == definitions@[i]
                    && r@[i].mounted == sshfs_mounted(mounts@, definitions@[i].local_path()),
    {
        let ghost all = definitions@;
        let mut rest = definitions;
        let mut list: Vec<MountState> = Vec::new();
        while rest.len() > 0
            invariant
                list@.len() + rest@.len() == all.len(),
                rest@ == all.subrange(list@.len() as int, all.len() as int),
                forall|i: int|
                    0 <= i < list@.len() ==> (#[trigger] list@[i]).definition == all[i]
                        && list@[i].mounted == sshfs_mounted(mounts@, all[i].local_path()),
            decreases rest@.len(),
        {
            let definition = rest.remove(0);
            let path = definition.local_mount_path();
            let mounted = is_sshfs_mounted(&path, mounts);
            list.push(MountState::new(definition, mounted));
            assert(rest@ =~= all.subrange(list@.len() as int, all.len() as int));
        }
        list
    }

    /// The mount of `definition`, to be run step by step.
    pub fn mount(&self, definition: &FilesystemMountDefinition) -> (r: MountOp)
        ensures
            r.path@ == definition.local_path(),
            definition.mount_buildable() ==> r.build_error is None && command_views(r.pending@)
                == definition.mount_command_list(),
            !definition.mount_buildable() ==> (r.build_error matches Some(e)
                && e is MountCommandBuilding),
            r.phase == MountPhase::Start,
            r.inv(),
            r.cleanup.path@ == definition.local_path(),
            r.cleanup.kill.wait_millis == KILL_WAIT_MILLIS,
    {
        MountOp::new(definition, KILL_WAIT_MILLIS)
    }

    /// The unmount of `definition`, to be run step by step.
    pub fn umount(&self, definition: &FilesystemMountDefinition) -> (r: UmountOp)
        ensures
            r.id@ == definition.id@,
            r.path@ == definition.local_path(),
            r.target@ == definition.target(),
            command_views(r.pending@) == seq![definition.umount_command()],
            r.kill.wait_millis == KILL_WAIT_MILLIS,
            r.phase == UmountPhase::Start,
    {
        UmountOp::new(definition, KILL_WAIT_MILLIS)
    }

    /// The removal of `definition` and of its stored record.
    pub fn remove(&self, definition: &FilesystemMountDefinition) -> (r: RemoveOp)
        ensures
            r.record_path@ == self.record_path(definition.id@),
            r.umount.path@ == definition.local_path(),
            r.umount.phase == UmountPhase::Start,
            r.phase == RemovePhase::Start,
            r.inv(),
    {
        let path = self.config_path_for_definition_id(definition.id.as_str());
        RemoveOp::new(definition, path, KILL_WAIT_MILLIS)
    }

    /// Creating or updating the stored record of `definition`.
    pub fn persist(&self, definition: FilesystemMountDefinition) -> (r: PersistOp)
        ensures
            r.definition == definition,
            r.config_dir@ == self.mounts_dir(),
            r.record_path@ == self.record_path(definition.id@),
            r.remount.path@ == definition.local_path(),
            r.phase == PersistPhase::Start,
            r.inv(),
    {
        let dir = self.config_path_mounts();
        let path = self.config_path_for_definition_id(definition.id.as_str());
        PersistOp::new(definition, dir, path, KILL_WAIT_MILLIS)
    }

    /// The command that opens the mounted directory of `definition`, to be
    /// launched in the background; a failure to launch it is not an error.
    pub fn open(&self, definition: &FilesystemMountDefinition) -> (r: ExternalCommand)
        ensures
            r@ == definition.open_command_view(),
    {
        definition.open_command()
    }

    /// The readiness check, to be run step by step.
    pub fn preflight_check(&self) -> (r: PreflightOp)
        ensures
            r.inv(),
            r.is_fresh(),
            exists|n: u32| r.test_dir@ == crate::preflight::test_dir_path(n),
    {
        PreflightOp::new()
    }
}

} // verus!
