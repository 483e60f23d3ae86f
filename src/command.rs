//! External commands as plain values: a program and its arguments.

use vstd::prelude::*;

use crate::errors::SftpManError;
use crate::text::{join_spaces, views};

verus! {

/// What a command is: its program and its arguments, as texts.
pub struct CommandView {
    pub program: Seq<char>,
    pub args: Seq<Seq<char>>,
}

impl CommandView {
    /// The command on one line: the program, then each argument, separated by spaces.
    pub open spec fn line(self) -> Seq<char> {
        join_spaces(seq![self.program] + self.args)
    }
}

/// A program to run and the arguments to run it with.
#[derive(Debug, Clone)]
pub struct ExternalCommand {
    pub program: String,
    pub args: Vec<String>,
}

impl View for ExternalCommand {
    type V = CommandView;

    open spec fn view(&self) -> CommandView {
        CommandView { program: self.program@, args: views(self.args@) }
    }
}

/// The views of a list of commands.
pub open spec fn command_views(v: Seq<ExternalCommand>) -> Seq<CommandView> {
    v.map_values(|c: ExternalCommand| c@)
}

/// What a command printed and how it ended, once it has run.
#[derive(Debug, Clone)]
pub struct CommandOutput {
    /// The exit code, where the process exited rather than being killed by a signal.
    pub status: Option<i32>,
    pub stdout: Vec<u8>,
    pub stderr: Vec<u8>,
}

impl ExternalCommand {
    /// A command that runs `program` with no arguments.
    pub fn new(program: &str) -> (r: ExternalCommand)
        ensures
            r@.program == program@,
            r@.args == Seq::<Seq<char>>::empty(),
    {
        let r = ExternalCommand { program: String::from_str(program), args: Vec::new() };
        assert(r@.args =~= Seq::<Seq<char>>::empty());
        r
    }

    /// Appends one argument.
    pub fn arg(&mut self, a: String)
        ensures
            final(self)@.program == old(self)@.program,
            final(self)@.args == old(self)@.args.push(a@),
    {
        proof {
            crate::text::lemma_views_push(self.args@, a);
        }
        self.args.push(a);
    }

    /// Appends one argument given as a literal.
    pub fn arg_str(&mut self, a: &str)
        ensures
            final(self)@.program == old(self)@.program,
            final(self)@.args == old(self)@.args.push(a@),
    {
        self.arg(String::from_str(a));
    }
}

/// The command on one line: the program followed by its arguments, joined by spaces.
pub fn command_to_string(cmd: &ExternalCommand) -> (r: String)
    ensures
        r@ == cmd@.line(),
{
    let mut out = cmd.program.clone();
    let mut i: usize = 0;
    proof {
        assert(seq![cmd.program@] + views(cmd.args@.take(0)) =~= seq![cmd.program@]);
    }
    while i < cmd.args.len()
        invariant
            i <= cmd.args@.len(),
            out@ == join_spaces(seq![cmd.program@] + views(cmd.args@.take(i as int))),
        decreases cmd.args@.len() - i,
    {
        proof {
            let before = seq![cmd.program@] + views(cmd.args@.take(i as int));
            let after = seq![cmd.program@] + views(cmd.args@.take(i + 1));
            assert(after =~= before.push(cmd.args@[i as int]@));
            assert(after.drop_last() =~= before);
            reveal_strlit(" ");
        }
        out.append(" ");
        out.append(cmd.args[i].as_str());
        i = i + 1;
    }
    proof {
        assert(cmd.args@.take(cmd.args@.len() as int) =~= cmd.args@);
    }
    out
}

/// A command ran: it succeeded when it exited with code zero; otherwise the
/// error holds the command and what it printed.
pub fn command_result(cmd: ExternalCommand, output: CommandOutput) -> (r: Result<CommandOutput, SftpManError>)
    ensures
        output.status == Some(0i32) ==> r == Ok::<CommandOutput, SftpManError>(output),
        output.status != Some(0i32) ==> r == Err::<CommandOutput, SftpManError>(
            SftpManError::CommandUnsuccessful(cmd, output),
        ),
{
    match output.status {
        Some(0) => Ok(output),
        _ => Err(SftpManError::CommandUnsuccessful(cmd, output)),
    }
}

} // verus!
