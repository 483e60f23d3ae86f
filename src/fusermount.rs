//! The unmount helper, in its preferred (`fusermount3`) and fallback
//! (`fusermount`) variants.

use vstd::prelude::*;

use crate::command::{CommandView, ExternalCommand};

verus! {

pub const FUSERMOUNT3_COMMAND: &'static str = "fusermount3";

pub const FUSERMOUNT_COMMAND: &'static str = "fusermount";

/// `program -V`: runs only if the program can be started.
pub open spec fn check_command_view(program: Seq<char>) -> CommandView {
    CommandView { program, args: seq!["-V"@] }
}

/// The command that tells whether `program` can be run.
pub fn create_check_command(program_name: &str) -> (r: ExternalCommand)
    ensures
        r@ == check_command_view(program_name@),
{
    let mut cmd = ExternalCommand::new(program_name);
    cmd.arg_str("-V");
    assert(cmd@.args =~= seq!["-V"@]);
    cmd
}

pub fn create_fusermount3_check_command() -> (r: ExternalCommand)
    ensures
        r@ == check_command_view(FUSERMOUNT3_COMMAND@),
{
    create_check_command(FUSERMOUNT3_COMMAND)
}

pub fn create_fusermount_check_command() -> (r: ExternalCommand)
    ensures
        r@ == check_command_view(FUSERMOUNT_COMMAND@),
{
    create_check_command(FUSERMOUNT_COMMAND)
}

/// The unmount helper to use: `fusermount3` where it is available, else `fusermount`.
pub fn get_fusermount_command(fusermount3_available: bool) -> (r: &'static str)
    ensures
        r@ == if fusermount3_available {
            FUSERMOUNT3_COMMAND@
        } else {
            FUSERMOUNT_COMMAND@
        },
{
    if fusermount3_available {
        FUSERMOUNT3_COMMAND
    } else {
        FUSERMOUNT_COMMAND
    }
}

} // verus!
