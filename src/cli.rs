//! What the command line decides: which definitions an invocation works on,
//! and the exit status of a batch.

use vstd::prelude::*;

use crate::auth_type::AuthType;
use crate::definition::FilesystemMountDefinition;
use crate::errors::{PreflightCheckError, SftpManError};
use crate::text::{non_empty, split_char, split_on, views};
use crate::mount_state::MountState;

verus! {

/// The outcome of an invocation.
#[derive(Debug, Clone, Copy, PartialEq, Eq, Structural)]
pub enum Status {
    Success,
    DefinitionAlreadyExists,
    DefinitionNotFound,
    Failure,
    UnknownCommand,
    ValidationFailure,
}

impl Status {
    pub open spec fn code_of(self) -> i32 {
        match self {
            Status::Success => 0,
            Status::DefinitionAlreadyExists => 10,
            Status::DefinitionNotFound => 11,
            Status::Failure => 20,
            Status::UnknownCommand => 30,
            Status::ValidationFailure => 40,
        }
    }

    /// The process exit code of the status.
    pub fn code(&self) -> (r: i32)
        ensures
            r == self.code_of(),
    {
        match self {
            Status::Success => 0,
            Status::DefinitionAlreadyExists => 10,
            Status::DefinitionNotFound => 11,
            Status::Failure => 20,
            Status::UnknownCommand => 30,
            Status::ValidationFailure => 40,
        }
    }
}

/// The index of the first definition with this id, or -1.
pub open spec fn index_of_id(defs: Seq<FilesystemMountDefinition>, id: Seq<char>) -> int
    decreases defs.len(),
{
    if defs.len() == 0 {
        -1
    } else if defs[0].id@ == id {
        0
    } else {
        let r = index_of_id(defs.drop_first(), id);
        if r < 0 {
            -1
        } else {
            r + 1
        }
    }
}

/// For each id in order, the index of the first definition with it; ids
/// that no definition has are skipped.
pub open spec fn selected(defs: Seq<FilesystemMountDefinition>, ids: Seq<Seq<char>>) -> Seq<int>
    decreases ids.len(),
{
    if ids.len() == 0 {
        Seq::<int>::empty()
    } else {
        let i = index_of_id(defs, ids.last());
        if i >= 0 {
            selected(defs, ids.drop_last()).push(i)
        } else {
            selected(defs, ids.drop_last())
        }
    }
}

/// Every id names a definition.
pub open spec fn all_found(defs: Seq<FilesystemMountDefinition>, ids: Seq<Seq<char>>) -> bool {
    forall|k: int| 0 <= k < ids.len() ==> index_of_id(defs, #[trigger] ids[k]) >= 0
}

pub open spec fn as_ints(v: Seq<usize>) -> Seq<int> {
    v.map_values(|x: usize| x as int)
}

/// The definitions a batch works on, by index, and how it has gone so far.
/// Definitions are worked on one after the other; a failure does not stop the others.
#[derive(Debug, Clone)]
pub struct Batch {
    pub targets: Vec<usize>,
    /// Every id asked for named a definition.
    pub all_found: bool,
    /// Every definition worked on so far succeeded.
    pub all_good: bool,
}

impl Batch {
    pub open spec fn status_of(self) -> Status {
        if !self.all_good {
            Status::Failure
        } else if !self.all_found {
            Status::DefinitionNotFound
        } else {
            Status::Success
        }
    }

    /// Notes how work on one definition went.
    pub fn record(&mut self, succeeded: bool)
        ensures
            final(self).targets == old(self).targets,
            final(self).all_found == old(self).all_found,
            final(self).all_good == (old(self).all_good && succeeded),
    {
        self.all_good = self.all_good && succeeded;
    }

    /// A failure on some definition gives `Failure`; else an id that named
    /// no definition gives `DefinitionNotFound`; else `Success`.
    pub fn status(&self) -> (r: Status)
        ensures
            r == self.status_of(),
    {
        if !self.all_good {
            Status::Failure
        } else if !self.all_found {
            Status::DefinitionNotFound
        } else {
            Status::Success
        }
    }
}

fn find_by_id(definitions: &Vec<FilesystemMountDefinition>, id: &String) -> (r: Option<usize>)
    ensures
        r is None <==> index_of_id(definitions@, id@) < 0,
        r matches Some(i) ==> i as int == index_of_id(definitions@, id@),
{
    let mut i: usize = 0;
    proof {
        assert(definitions@.subrange(0, definitions@.len() as int) =~= definitions@);
    }
    while i < definitions.len()
        invariant
            i <= definitions@.len(),
            index_of_id(definitions@, id@) == {
                let r = index_of_id(
                    definitions@.subrange(i as int, definitions@.len() as int),
                    id@,
                );
                if r < 0 {
                    -1
                } else {
                    r + i
                }
            },
        decreases definitions@.len() - i,
    {
        proof {
            assert(definitions@.subrange(i as int, definitions@.len() as int).drop_first()
                =~= definitions@.subrange(i + 1, definitions@.len() as int));
        }
        if definitions[i].id == *id {
            return Some(i);
        }
        i = i + 1;
    }
    None
}

/// The batch over the definitions named by `ids`, in the order of `ids`.
pub fn select_by_ids(definitions: &Vec<FilesystemMountDefinition>, ids: &Vec<String>) -> (r: Batch)
    ensures
        as_ints(r.targets@) == selected(definitions@, crate::text::views(ids@)),
        r.all_found == all_found(definitions@, crate::text::views(ids@)),
        r.all_good,
{
    let mut targets: Vec<usize> = Vec::new();
    let mut found = true;
    let mut k: usize = 0;
    while k < ids.len()
        invariant
            k <= ids@.len(),
            as_ints(targets@) == selected(definitions@, crate::text::views(ids@.take(k as int))),
            found == all_found(definitions@, crate::text::views(ids@.take(k as int))),
        decreases ids@.len() - k,
    {
        let ghost before = crate::text::views(ids@.take(k as int));
        let ghost after = crate::text::views(ids@.take(k + 1));
        proof {
            assert(after.drop_last() =~= before);
            assert(after.last() == ids@[k as int]@);
        }
        match find_by_id(definitions, &ids[k]) {
            Some(i) => {
                targets.push(i);
                assert(as_ints(targets@) =~= selected(definitions@, after));
            },
            None => {
                found = false;
            },
        }
        proof {
            if found {
                assert forall|j: int| 0 <= j < after.len() implies index_of_id(
                    definitions@,
                    #[trigger] after[j],
                ) >= 0 by {
                    if j < before.len() {
                        assert(after[j] == before[j]);
                    }
                }
            } else {
                if index_of_id(definitions@, after.last()) >= 0 {
                    let j = choose|j: int| 0 <= j < before.len() && index_of_id(definitions@, #[trigger] before[j]) < 0;
                    assert(after[j] == before[j]);
                } else {
                    assert(index_of_id(definitions@, after[after.len() - 1]) < 0);
                }
            }
        }
        k = k + 1;
    }
    proof {
        assert(ids@.take(ids@.len() as int) =~= ids@);
    }
    Batch { targets, all_found: found, all_good: true }
}

/// Mounting the definitions named by `ids`.
pub fn mount(definitions: &Vec<FilesystemMountDefinition>, ids: &Vec<String>) -> (r: Batch)
    ensures
        as_ints(r.targets@) == selected(definitions@, crate::text::views(ids@)),
        r.all_found == all_found(definitions@, crate::text::views(ids@)),
        r.all_good,
{
    select_by_ids(definitions, ids)
}

/// Unmounting the definitions named by `ids`.
pub fn umount(definitions: &Vec<FilesystemMountDefinition>, ids: &Vec<String>) -> (r: Batch)
    ensures
        as_ints(r.targets@) == selected(definitions@, crate::text::views(ids@)),
        r.all_found == all_found(definitions@, crate::text::views(ids@)),
        r.all_good,
{
    select_by_ids(definitions, ids)
}

/// Removing the definitions named by `ids`.
pub fn remove(definitions: &Vec<FilesystemMountDefinition>, ids: &Vec<String>) -> (r: Batch)
    ensures
        as_ints(r.targets@) == selected(definitions@, crate::text::views(ids@)),
        r.all_found == all_found(definitions@, crate::text::views(ids@)),
        r.all_good,
{
    select_by_ids(definitions, ids)
}

/// Mounting every definition, in order.
pub fn mount_all(definitions: &Vec<FilesystemMountDefinition>) -> (r: Batch)
    ensures
        r.targets@.len() == definitions@.len(),
        forall|i: int| 0 <= i < r.targets@.len() ==> #[trigger] r.targets@[i] == i,
        r.all_found,
        r.all_good,
{
    let mut targets: Vec<usize> = Vec::new();
    let mut i: usize = 0;
    while i < definitions.len()
        invariant
            i <= definitions@.len(),
            targets@.len() == i,
            forall|j: int| 0 <= j < i ==> #[trigger] targets@[j] == j,
        decreases definitions@.len() - i,
    {
        targets.push(i);
        i = i + 1;
    }
    Batch { targets, all_found: true, all_good: true }
}

/// Unmounting every mounted definition: the indices of the mounted states, in order.
pub fn umount_all(states: &Vec<MountState>) -> (r: Batch)
    ensures
        as_ints(r.targets@) == mounted_indices(states@),
        r.all_found,
        r.all_good,
{
    let mut targets: Vec<usize> = Vec::new();
    let mut i: usize = 0;
    while i < states.len()
        invariant
            i <= states@.len(),
            as_ints(targets@) == mounted_indices(states@.take(i as int)),
        decreases states@.len() - i,
    {
        proof {
            assert(states@.take(i + 1).drop_last() =~= states@.take(i as int));
        }
        if states[i].mounted {
            targets.push(i);
            assert(as_ints(targets@) =~= mounted_indices(states@.take(i + 1)));
        }
        i = i + 1;
    }
    proof {
        assert(states@.take(states@.len() as int) =~= states@);
    }
    Batch { targets, all_found: true, all_good: true }
}

/// The indices of the mounted states, in order.
pub open spec fn mounted_indices(states: Seq<MountState>) -> Seq<int>
    decreases states.len(),
{
    if states.len() == 0 {
        Seq::<int>::empty()
    } else if states.last().mounted {
        mounted_indices(states.drop_last()).push(states.len() - 1)
    } else {
        mounted_indices(states.drop_last())
    }
}

/// The status of a readiness check: success exactly when nothing failed.
pub fn preflight_check(errors: &Vec<PreflightCheckError>) -> (r: Status)
    ensures
        r == if errors@.len() == 0 {
            Status::Success
        } else {
            Status::Failure
        },
{
    if errors.len() == 0 {
        Status::Success
    } else {
        Status::Failure
    }
}

/// The values given on the command line for a create or an update; each
/// one absent leaves the field as it is.
#[derive(Debug, Clone)]
pub struct DefinitionArguments {
    pub host: Option<String>,
    pub port: Option<u16>,
    pub user: Option<String>,
    /// Mount options separated by commas.
    pub mount_opt: Option<String>,
    pub remote_path: Option<String>,
    /// An empty path unsets the local mount path.
    pub mount_path: Option<String>,
    pub cmd_before_mount: Option<String>,
    pub auth_type: Option<AuthType>,
    pub ssh_key: Option<String>,
}

/// The field stays as it was, or takes the value given.
pub open spec fn takes<T>(given: Option<T>, before: T, after: T) -> bool {
    match given {
        Some(v) => after == v,
        None => after == before,
    }
}

/// Applies the given values to a definition. Mount options are split on
/// commas, empty pieces dropped, and replace the old ones; an empty mount
/// path unsets it. On an update (`is_new` false) a method other than public
/// key also clears the key, unless a key is given.
pub fn bind_command_arguments_to_definition(
    args: DefinitionArguments,
    definition: &mut FilesystemMountDefinition,
    is_new: bool,
)
    ensures
        final(definition).id == old(definition).id,
        takes(args.host, old(definition).host, final(definition).host),
        takes(args.port, old(definition).port, final(definition).port),
        takes(args.user, old(definition).user, final(definition).user),
        args.mount_opt matches Some(v) ==> views(final(definition).mount_options@) == non_empty(
            split_char(v@, ','),
        ),
        args.mount_opt is None ==> final(definition).mount_options == old(definition).mount_options,
        takes(args.remote_path, old(definition).remote_path, final(definition).remote_path),
        args.mount_path matches Some(v) ==> if v@.len() == 0 {
            final(definition).mount_dest_path is None
        } else {
            final(definition).mount_dest_path == Some(v)
        },
        args.mount_path is None ==> final(definition).mount_dest_path == old(
            definition,
        ).mount_dest_path,
        takes(args.cmd_before_mount, old(definition).cmd_before_mount, final(definition).cmd_before_mount),
        takes(args.auth_type, old(definition).auth_type, final(definition).auth_type),
        args.ssh_key matches Some(k) ==> final(definition).ssh_key == k,
        args.ssh_key is None && !is_new && final(definition).auth_type != AuthType::PublicKey
            ==> final(definition).ssh_key@.len() == 0,
        args.ssh_key is None && (is_new || final(definition).auth_type == AuthType::PublicKey)
            ==> final(definition).ssh_key == old(definition).ssh_key,
{
    if let Some(v) = args.host {
        definition.host = v;
    }
    if let Some(v) = args.port {
        definition.port = v;
    }
    if let Some(v) = args.user {
        definition.user = v;
    }
    if let Some(v) = args.mount_opt {
        let pieces = split_on(v.as_str(), ',');
        let mut options: Vec<String> = Vec::new();
        let mut i: usize = 0;
        while i < pieces.len()
            invariant
                i <= pieces@.len(),
                views(pieces@) == split_char(v@, ','),
                views(options@) == non_empty(views(pieces@).take(i as int)),
            decreases pieces@.len() - i,
        {
            proof {
                assert(views(pieces@).take(i + 1).drop_last() =~= views(pieces@).take(i as int));
            }
            if pieces[i].as_str().unicode_len() > 0 {
                proof {
                    crate::text::lemma_views_push(options@, pieces@[i as int]);
                }
                options.push(pieces[i].clone());
            }
            i = i + 1;
        }
        proof {
            assert(views(pieces@).take(pieces@.len() as int) =~= views(pieces@));
        }
        definition.mount_options = options;
    }
    if let Some(v) = args.remote_path {
        definition.remote_path = v;
    }
    if let Some(v) = args.mount_path {
        if v.as_str().unicode_len() == 0 {
            definition.mount_dest_path = None;
        } else {
            definition.mount_dest_path = Some(v);
        }
    }
    if let Some(v) = args.cmd_before_mount {
        definition.cmd_before_mount = v;
    }
    if let Some(v) = args.auth_type {
        definition.auth_type = v;
    }
    if !is_new && definition.auth_type != AuthType::PublicKey {
        definition.ssh_key = String::new();
    }
    if let Some(v) = args.ssh_key {
        definition.ssh_key = v;
    }
}

/// Whether a create may go on, given the lookup of a stored definition with
/// the same id: one found stops it (`DefinitionAlreadyExists`), one that
/// cannot be parsed stops it too (`Failure`), any other error means there is
/// none and the create goes on (`None`).
pub fn run_create(existing: &Result<FilesystemMountDefinition, SftpManError>) -> (r: Option<Status>)
    ensures
        existing is Ok ==> r == Some(Status::DefinitionAlreadyExists),
        existing matches Err(e) ==> r == if e is JSON {
            Some(Status::Failure)
        } else {
            None::<Status>
        },
{
    match existing {
        Ok(_) => Some(Status::DefinitionAlreadyExists),
        Err(SftpManError::JSON(..)) => Some(Status::Failure),
        Err(_) => None,
    }
}

/// The status of a create or an update: a definition that breaks a rule
/// gives `ValidationFailure`, a failed persist `Failure`, else `Success`.
pub fn create_update_status(
    validation: &Result<(), Vec<crate::definition::ValidationIssue>>,
    persisted: &Result<(), SftpManError>,
) -> (r: Status)
    ensures
        r == if validation is Err {
            Status::ValidationFailure
        } else if persisted is Err {
            Status::Failure
        } else {
            Status::Success
        },
{
    if validation.is_err() {
        Status::ValidationFailure
    } else if persisted.is_err() {
        Status::Failure
    } else {
        Status::Success
    }
}

} // verus!
