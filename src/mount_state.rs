//! Entries of the mount table and the mount state of definitions.

use vstd::prelude::*;

use crate::definition::FilesystemMountDefinition;
use crate::errors::SftpManError;
use crate::text::same_text;

verus! {

/// The filesystem type of a mount made by sshfs.
pub const VFS_TYPE_SSHFS: &'static str = "fuse.sshfs";

/// One entry of the operating system's mount table.
#[derive(Debug, Clone)]
pub struct MountEntry {
    /// The mounted path.
    pub file: String,
    /// The filesystem type tag.
    pub vfstype: String,
}

/// A definition and whether it is mounted right now.
#[derive(Debug, Clone)]
pub struct MountState {
    pub definition: FilesystemMountDefinition,
    /// Tells if the filesystem is currently mounted.
    pub mounted: bool,
}

impl MountState {
    pub fn new(definition: FilesystemMountDefinition, mounted: bool) -> (r: MountState)
        ensures
            r.definition == definition,
            r.mounted == mounted,
    {
        MountState { definition, mounted }
    }
}

/// The filesystem type of the first entry mounted at `path`, if any.
pub open spec fn vfs_at(entries: Seq<MountEntry>, path: Seq<char>) -> Option<Seq<char>>
    decreases entries.len(),
{
    if entries.len() == 0 {
        None
    } else if entries[0].file@ == path {
        Some(entries[0].vfstype@)
    } else {
        vfs_at(entries.drop_first(), path)
    }
}

/// Some entry mounts `path` with the sshfs filesystem type.
pub open spec fn sshfs_mounted(entries: Seq<MountEntry>, path: Seq<char>) -> bool {
    exists|j: int|
        0 <= j < entries.len() && #[trigger] entries[j].file@ == path && entries[j].vfstype@
            == VFS_TYPE_SSHFS@
}

/// What the mount table says of `path`: not mounted (`Ok(false)`), mounted
/// by sshfs (`Ok(true)`), or mounted with another filesystem type, an error
/// that names the path, the type found and the type expected.
pub open spec fn mount_status_ok(entries: Seq<MountEntry>, path: Seq<char>) -> bool {
    vfs_at(entries, path) is None || vfs_at(entries, path) == Some(VFS_TYPE_SSHFS@)
}

/// `e` reports `path` as mounted with the type of its first entry, which is not sshfs.
pub open spec fn mismatch_error(e: SftpManError, entries: Seq<MountEntry>, path: Seq<char>) -> bool {
    e matches SftpManError::MountVfsTypeMismatch {
        path: p,
        found_vfs_type: found,
        expected_vfs_type: expected,
    } && p@ == path && Some(found@) == vfs_at(entries, path) && expected@ == VFS_TYPE_SSHFS@
}

/// The contract of a lookup of `path` in the mount table.
pub open spec fn mount_status_result(
    entries: Seq<MountEntry>,
    path: Seq<char>,
    r: Result<bool, SftpManError>,
) -> bool {
    &&& r is Ok <==> mount_status_ok(entries, path)
    &&& r is Ok ==> r->Ok_0 == vfs_at(entries, path) is Some
    &&& r is Err ==> mismatch_error(r->Err_0, entries, path)
}

proof fn lemma_vfs_at_suffix(entries: Seq<MountEntry>, path: Seq<char>, i: int)
    requires
        0 <= i < entries.len(),
        entries[i].file@ != path,
    ensures
        vfs_at(entries.subrange(i, entries.len() as int), path) == vfs_at(
            entries.subrange(i + 1, entries.len() as int),
            path,
        ),
{
    assert(entries.subrange(i, entries.len() as int).drop_first() =~= entries.subrange(
        i + 1,
        entries.len() as int,
    ));
}

/// Looks `path` up in the mount table: the first entry mounted there decides.
pub fn mount_status(path: &String, entries: &Vec<MountEntry>) -> (r: Result<bool, SftpManError>)
    ensures
        mount_status_result(entries@, path@, r),
{
    let mut i: usize = 0;
    proof {
        assert(entries@.subrange(0, entries@.len() as int) =~= entries@);
    }
    while i < entries.len()
        invariant
            i <= entries@.len(),
            vfs_at(entries@, path@) == vfs_at(
                entries@.subrange(i as int, entries@.len() as int),
                path@,
            ),
        decreases entries@.len() - i,
    {
        let entry = &entries[i];
        if entry.file == *path {
            if !same_text(entry.vfstype.as_str(), VFS_TYPE_SSHFS) {
                return Err(
                    SftpManError::MountVfsTypeMismatch {
                        path: path.clone(),
                        found_vfs_type: entry.vfstype.clone(),
                        expected_vfs_type: String::from_str(VFS_TYPE_SSHFS),
                    },
                );
            }
            return Ok(true);
        }
        proof {
            lemma_vfs_at_suffix(entries@, path@, i as int);
        }
        i = i + 1;
    }
    Ok(false)
}

/// Tells whether some entry mounts `path` with the sshfs filesystem type.
pub fn is_sshfs_mounted(path: &String, entries: &Vec<MountEntry>) -> (r: bool)
    ensures
        r == sshfs_mounted(entries@, path@),
{
    let mut i: usize = 0;
    while i < entries.len()
        invariant
            i <= entries@.len(),
            forall|j: int|
                0 <= j < i ==> !(#[trigger] entries@[j].file@ == path@ && entries@[j].vfstype@
                    == VFS_TYPE_SSHFS@),
        decreases entries@.len() - i,
    {
        if entries[i].file == *path && same_text(entries[i].vfstype.as_str(), VFS_TYPE_SSHFS) {
            return true;
        }
        i = i + 1;
    }
    false
}

} // verus!
