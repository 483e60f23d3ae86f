//! Declarative SFTP (sshfs) mount definitions and the engine that reconciles
//! them with the live mount state of the machine.
//!
//! The lifecycle operations (mount, unmount, remove, persist, readiness
//! check) are state machines: each asks for one piece of outside work at a
//! time (`Action`), is told how it went (`Outcome`), and decides the rest.

mod text;
mod auth_type;
mod command;
mod errors;
mod definition;
mod mount_state;
mod process;
mod lifecycle;
mod operations;
mod persistence;
mod fusermount;
mod preflight;
mod manager;
mod ordering;
pub mod cli;
pub mod laws;

pub use auth_type::{lemma_token_round_trip, AuthType};
pub use command::{command_result, command_to_string, CommandOutput, ExternalCommand};
pub use definition::{
    id_char_allowed, FilesystemMountDefinition, ValidationIssue, DEFAULT_MOUNT_PATH_PREFIX,
    SSH_DEFAULT_TIMEOUT,
};
pub use errors::{ManagerInitError, PreflightCheckError, SftpManError};
pub use fusermount::{
    create_check_command, create_fusermount3_check_command, create_fusermount_check_command,
    get_fusermount_command, FUSERMOUNT3_COMMAND, FUSERMOUNT_COMMAND,
};
pub use lifecycle::{Action, Outcome};
pub use manager::{Manager, KILL_WAIT_MILLIS};
pub use mount_state::{is_sshfs_mounted, mount_status, MountEntry, MountState, VFS_TYPE_SSHFS};
pub use operations::{MountOp, MountPhase, UmountOp, UmountPhase};
pub use persistence::{PersistOp, PersistPhase, RemoveOp, RemovePhase};
pub use preflight::{PreflightOp, PreflightPhase};
pub use process::{
    sshfs_pid_by_definition, sshfs_pid_by_target, KillPhase, KillSequence, ProcessInfo,
    SSHFS_PROGRAM,
};
pub use ordering::{sort_by_id, text_le_exec};
pub use text::{decimal_string, join_with_spaces, same_text, split_on, split_on_spaces};
