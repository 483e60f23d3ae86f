//! The lifecycle operations as state machines. Each operation asks for one
//! piece of outside work at a time (an `Action`), is told how it went (an
//! `Outcome`), and decides what comes next, until it asks for nothing more
//! and hands over its result (`Action::Done`).

use vstd::prelude::*;

use crate::command::ExternalCommand;
use crate::definition::FilesystemMountDefinition;
use crate::errors::{PreflightCheckError, SftpManError};
use crate::mount_state::MountEntry;

verus! {

/// A piece of outside work that an operation asks for.
#[derive(Debug)]
pub enum Action {
    /// List the mount table entries under this path.
    ReadMountTable(String),
    /// Create this directory and its missing parents.
    CreateDirectory(String),
    /// Remove this directory, which should be empty.
    RemoveDirectory(String),
    /// Run this command to completion.
    RunCommand(ExternalCommand),
    /// Find the sshfs process whose command line holds this connection target.
    FindHelperProcess(String),
    /// Send a termination signal to a process: SIGKILL when forceful, else SIGTERM.
    Signal { pid: i32, forceful: bool },
    /// Wait this many milliseconds.
    Sleep(u64),
    /// Tell whether this process still exists.
    CheckAlive(i32),
    /// Load the stored definition with this id.
    LoadDefinition(String),
    /// Create this directory and its parents unless it exists.
    EnsureDirectory(String),
    /// Serialize the definition being persisted and write it to this path.
    WriteDefinition(String),
    /// Delete this file.
    DeleteFile(String),
    /// The operation is over, with this result.
    Done(Result<(), SftpManError>),
    /// The readiness check is over; these are all its failures.
    Checked(Vec<PreflightCheckError>),
}

/// How a piece of outside work went.
#[derive(Debug)]
pub enum Outcome {
    /// Starts an operation.
    Begin,
    /// The entries of the mount table, or why it could not be read.
    MountTable(Result<Vec<MountEntry>, SftpManError>),
    /// A directory, file, command, signal or wait finished, well or not.
    Completed(Result<(), SftpManError>),
    /// The helper process found, if any, or why processes could not be listed.
    HelperProcess(Result<Option<i32>, SftpManError>),
    /// Whether the process lives; `None` when that could not be told.
    Alive(Option<bool>),
    /// The stored definition, if one could be loaded.
    Stored(Option<FilesystemMountDefinition>),
}

impl Action {
    pub open spec fn is_done(self) -> bool {
        self is Done
    }
}

} // verus!
