//! The errors of the library.

use vstd::prelude::*;

use crate::command::{CommandOutput, ExternalCommand};

verus! {

/// Why a manager could not be set up.
#[derive(Debug, Clone, Copy, PartialEq, Eq, Structural)]
pub enum ManagerInitError {
    /// No home directory, hence no configuration directory, could be found.
    NoConfigDirectory,
}

impl ManagerInitError {
    /// The human-readable description.
    pub open spec fn text(self) -> Seq<char> {
        "The config directory could not be determined"@
    }

    /// The human-readable description.
    pub fn message(&self) -> (r: &'static str)
        ensures
            r@ == self.text(),
    {
        "The config directory could not be determined"
    }
}

/// One failure found by the readiness check.
#[derive(Debug, Clone)]
pub enum PreflightCheckError {
    /// A required command could not be started.
    CommandExecution(ExternalCommand, String),
    /// A required command ran and failed.
    CommandUnsuccessful(ExternalCommand, CommandOutput),
    /// The default mount root does not exist and could not be created.
    DefaultBasePathIO(String, String),
    /// A throwaway directory under the default mount root could not be created or removed.
    TestUnderBasePathIO(String, String),
}

impl PreflightCheckError {
    /// The human-readable description.
    pub open spec fn text(self) -> Seq<char> {
        match self {
            PreflightCheckError::CommandExecution(..) => "A required command could not be executed"@,
            PreflightCheckError::CommandUnsuccessful(..) => "A required command was executed, but was unsuccessful"@,
            PreflightCheckError::DefaultBasePathIO(..) => "The default mount path could not be prepared. Mounting there will fail until this is fixed"@,
            PreflightCheckError::TestUnderBasePathIO(..) => "A test directory under the default mount path could not be prepared. Mounting there will fail until this is fixed"@,
        }
    }

    /// The human-readable description.
    pub fn message(&self) -> (r: &'static str)
        ensures
            r@ == self.text(),
    {
        match self {
            PreflightCheckError::CommandExecution(..) => "A required command could not be executed",
            PreflightCheckError::CommandUnsuccessful(..) => "A required command was executed, but was unsuccessful",
            PreflightCheckError::DefaultBasePathIO(..) => "The default mount path could not be prepared. Mounting there will fail until this is fixed",
            PreflightCheckError::TestUnderBasePathIO(..) => "A test directory under the default mount path could not be prepared. Mounting there will fail until this is fixed",
        }
    }
}

/// The errors of the lifecycle operations. Paths are texts; the causes
/// reported by the operating system are carried as their messages.
#[derive(Debug, Clone)]
pub enum SftpManError {
    Generic(String),
    /// The directory of stored definitions does not exist.
    NoMountsConfigDirectory,
    /// The mount table could not be read.
    MountListParse(String),
    /// A stored definition could not be read.
    FilesystemMountDefinitionRead(String, String),
    /// A stored definition could not be removed.
    FilesystemMountDefinitionRemove(String, String),
    /// A stored definition could not be parsed or serialized.
    JSON(String, String),
    /// The mount path is mounted, but not with the expected filesystem type.
    MountVfsTypeMismatch { path: String, found_vfs_type: String, expected_vfs_type: String },
    /// The command list of a definition could not be built.
    MountCommandBuilding(String),
    /// A command could not be started.
    CommandExecution(ExternalCommand, String),
    /// A command ran and failed.
    CommandUnsuccessful(ExternalCommand, CommandOutput),
    /// A directory or file operation failed on the given path.
    IO(String, String),
    /// Unmounting failed and no helper process serving the definition (by id) was found.
    ProcessNotDetermined(String),
    /// The helper process survived both signals.
    ProcessTerminationFailed(i32),
}

impl SftpManError {
    /// The human-readable description.
    pub open spec fn text(self) -> Seq<char> {
        match self {
            SftpManError::Generic(..) => "Generic error"@,
            SftpManError::NoMountsConfigDirectory => "The mounts configuration directory does not exist"@,
            SftpManError::MountListParse(..) => "The current mounts could not be parsed"@,
            SftpManError::FilesystemMountDefinitionRead(..) => "The mount config definition could not be read"@,
            SftpManError::FilesystemMountDefinitionRemove(..) => "The mount config definition could not be removed"@,
            SftpManError::JSON(..) => "The mount config definition could not be parsed"@,
            SftpManError::MountVfsTypeMismatch { .. } => "The mount path was found, but it was not of the expected type"@,
            SftpManError::MountCommandBuilding(..) => "The mount command could not be constructed"@,
            SftpManError::CommandExecution(..) => "The command could not be executed"@,
            SftpManError::CommandUnsuccessful(..) => "The command was executed, but was unsuccessful"@,
            SftpManError::IO(..) => "The mount directory could not be prepared"@,
            SftpManError::ProcessNotDetermined(..) => "Could not determine the process serving the mount"@,
            SftpManError::ProcessTerminationFailed(..) => "Ultimately failed to kill process"@,
        }
    }

    /// The human-readable description.
    pub fn message(&self) -> (r: &'static str)
        ensures
            r@ == self.text(),
    {
        match self {
            SftpManError::Generic(..) => "Generic error",
            SftpManError::NoMountsConfigDirectory => "The mounts configuration directory does not exist",
            SftpManError::MountListParse(..) => "The current mounts could not be parsed",
            SftpManError::FilesystemMountDefinitionRead(..) => "The mount config definition could not be read",
            SftpManError::FilesystemMountDefinitionRemove(..) => "The mount config definition could not be removed",
            SftpManError::JSON(..) => "The mount config definition could not be parsed",
            SftpManError::MountVfsTypeMismatch { .. } => "The mount path was found, but it was not of the expected type",
            SftpManError::MountCommandBuilding(..) => "The mount command could not be constructed",
            SftpManError::CommandExecution(..) => "The command could not be executed",
            SftpManError::CommandUnsuccessful(..) => "The command was executed, but was unsuccessful",
            SftpManError::IO(..) => "The mount directory could not be prepared",
            SftpManError::ProcessNotDetermined(..) => "Could not determine the process serving the mount",
            SftpManError::ProcessTerminationFailed(..) => "Ultimately failed to kill process",
        }
    }
}

} // verus!
