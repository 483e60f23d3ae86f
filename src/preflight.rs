//! The readiness check: are the tools there, and can mount directories be
//! made under the default mount root?

use vstd::prelude::*;

use crate::command::{command_views, CommandView, ExternalCommand};
use crate::definition::DEFAULT_MOUNT_PATH_PREFIX;
use crate::errors::{PreflightCheckError, SftpManError};
use crate::fusermount::{
    check_command_view, create_fusermount3_check_command,
    create_fusermount_check_command, FUSERMOUNT3_COMMAND, FUSERMOUNT_COMMAND,
};
use crate::lifecycle::{Action, Outcome};
use crate::text::{decimal, decimal_string};

verus! {

/// Relies on `rand::random`: a value drawn from the thread-local generator.
/// Nothing is promised of the value.
pub assume_specification<T>[ rand::random::<T> ]() -> T
    where
        rand::distributions::Standard: rand::distributions::Distribution<T>,
;

/// The tools checked, each as a list of alternatives tried in order:
/// sshfs, ssh, and the unmount helper (preferred variant first).
pub open spec fn tool_groups() -> Seq<Seq<CommandView>> {
    seq![
        seq![CommandView { program: "sshfs"@, args: seq!["-h"@] }],
        seq![CommandView { program: "ssh"@, args: seq!["-V"@] }],
        seq![check_command_view(FUSERMOUNT3_COMMAND@), check_command_view(FUSERMOUNT_COMMAND@)],
    ]
}

/// The failure reported for a tool command that failed: only failures to
/// start and unsuccessful runs are reported.
pub open spec fn tool_failure(e: SftpManError) -> Seq<PreflightCheckError> {
    match e {
        SftpManError::CommandExecution(c, m) => seq![PreflightCheckError::CommandExecution(c, m)],
        SftpManError::CommandUnsuccessful(c, out) => seq![
            PreflightCheckError::CommandUnsuccessful(c, out),
        ],
        _ => Seq::<PreflightCheckError>::empty(),
    }
}

/// The name of the throwaway directory, `_sftpman_test_{n}` under the default mount root.
pub open spec fn test_dir_path(n: u32) -> Seq<char> {
    DEFAULT_MOUNT_PATH_PREFIX@ + "/_sftpman_test_"@ + decimal(n as nat)
}

/// Where the check stands: what it asked for last.
#[derive(Debug, Clone, Copy, PartialEq, Eq, Structural)]
pub enum PreflightPhase {
    Start,
    ToolAsked,
    RootAsked,
    TestCreateAsked,
    TestRemoveAsked,
    Finished,
}

/// Each tool is tried through its alternatives until one runs; a tool none
/// of whose alternatives runs adds all their failures. Then the default
/// mount root must exist or be created, and a throwaway directory under it
/// must be created and removed. Every failure is reported, not only the first.
#[derive(Debug)]
pub struct PreflightOp {
    /// The tools not tried yet.
    pub groups: Vec<Vec<ExternalCommand>>,
    /// The alternatives left for the tool being tried.
    pub alternatives: Vec<ExternalCommand>,
    /// The failures of the tool being tried.
    pub group_errors: Vec<PreflightCheckError>,
    pub errors: Vec<PreflightCheckError>,
    pub root: String,
    pub test_dir: String,
    pub phase: PreflightPhase,
}

/// The failure reported when the default mount root cannot be prepared.
pub open spec fn root_failure(e: SftpManError, root: String, f: PreflightCheckError) -> bool {
    &&& f matches PreflightCheckError::DefaultBasePathIO(p, _) && p == root
    &&& e matches SftpManError::IO(_, m) ==> f == PreflightCheckError::DefaultBasePathIO(root, m)
}

/// The failure reported when the throwaway directory cannot be created or removed.
pub open spec fn test_failure(e: SftpManError, dir: String, f: PreflightCheckError) -> bool {
    &&& f matches PreflightCheckError::TestUnderBasePathIO(p, _) && p == dir
    &&& e matches SftpManError::IO(_, m) ==> f == PreflightCheckError::TestUnderBasePathIO(dir, m)
}

fn cause_of(e: SftpManError) -> (r: String)
    ensures
        e matches SftpManError::IO(_, m) ==> r == m,
{
    match e {
        SftpManError::IO(_, m) => m,
        other => String::from_str(other.message()),
    }
}

impl PreflightOp {
    /// A fresh check, with a throwaway directory named by a random number.
    pub fn new() -> (r: PreflightOp)
        ensures
            r.inv(),
            r.is_fresh(),
            exists|n: u32| r.test_dir@ == test_dir_path(n),
    {
        let n: u32 = rand::random::<u32>();
        PreflightOp::with_test_number(n)
    }

    /// A fresh check whose throwaway directory is named by `n`.
    pub fn with_test_number(n: u32) -> (r: PreflightOp)
        ensures
            r.inv(),
            r.is_fresh(),
            r.test_dir@ == test_dir_path(n),
    {
        let mut sshfs = ExternalCommand::new("sshfs");
        sshfs.arg_str("-h");
        let mut ssh = ExternalCommand::new("ssh");
        ssh.arg_str("-V");
        let mut g1: Vec<ExternalCommand> = Vec::new();
        g1.push(sshfs);
        let mut g2: Vec<ExternalCommand> = Vec::new();
        g2.push(ssh);
        let mut g3: Vec<ExternalCommand> = Vec::new();
        g3.push(create_fusermount3_check_command());
        g3.push(create_fusermount_check_command());
        let mut groups: Vec<Vec<ExternalCommand>> = Vec::new();
        groups.push(g1);
        groups.push(g2);
        groups.push(g3);
        let mut test_dir = String::from_str(DEFAULT_MOUNT_PATH_PREFIX);
        test_dir.append("/_sftpman_test_");
        test_dir.append(decimal_string(n as u64).as_str());
        let r = PreflightOp {
            groups,
            alternatives: Vec::new(),
            group_errors: Vec::new(),
            errors: Vec::new(),
            root: String::from_str(DEFAULT_MOUNT_PATH_PREFIX),
            test_dir,
            phase: PreflightPhase::Start,
        };
        assert(command_views(r.groups@[0]@) =~= tool_groups()[0]);
        assert(command_views(r.groups@[1]@) =~= tool_groups()[1]);
        assert(command_views(r.groups@[2]@) =~= tool_groups()[2]);
        r
    }

    /// Every tool not tried yet has an alternative.
    pub open spec fn inv(self) -> bool {
        forall|i: int| 0 <= i < self.groups@.len() ==> (#[trigger] self.groups@[i])@.len() > 0
    }

    /// Nothing has been tried yet: all the tools are ahead, nothing failed.
    pub open spec fn is_fresh(self) -> bool {
        &&& self.phase == PreflightPhase::Start
        &&& self.groups@.len() == tool_groups().len()
        &&& forall|i: int|
            0 <= i < self.groups@.len() ==> command_views((#[trigger] self.groups@[i])@)
                == tool_groups()[i]
        &&& self.alternatives@.len() == 0
        &&& self.group_errors@.len() == 0
        &&& self.errors@.len() == 0
        &&& self.root@ == DEFAULT_MOUNT_PATH_PREFIX@
    }

    pub open spec fn accepts(self, o: Outcome) -> bool {
        match self.phase {
            PreflightPhase::Start => o is Begin,
            PreflightPhase::Finished => false,
            _ => o is Completed,
        }
    }

    pub fn accepts_outcome(&self, o: &Outcome) -> (r: bool)
        ensures
            r == self.accepts(*o),
    {
        match self.phase {
            PreflightPhase::Start => matches!(o, Outcome::Begin),
            PreflightPhase::Finished => false,
            _ => matches!(o, Outcome::Completed(_)),
        }
    }

    /// Goes on from the given alternatives, failures of the current tool,
    /// and failures so far: tries the next alternative; when none is left,
    /// the tool's failures join the report and the next tool starts; when
    /// no tool is left, the default mount root is prepared.
    pub open spec fn advance(
        s: PreflightOp,
        alternatives: Seq<ExternalCommand>,
        group_errors: Seq<PreflightCheckError>,
        errors: Seq<PreflightCheckError>,
        t: PreflightOp,
        a: Action,
    ) -> bool {
        if alternatives.len() > 0 {
            &&& t.phase == PreflightPhase::ToolAsked
            &&& a == Action::RunCommand(alternatives[0])
            &&& t.alternatives@ == alternatives.drop_first()
            &&& t.groups == s.groups
            &&& t.group_errors@ == group_errors
            &&& t.errors@ == errors
        } else if s.groups@.len() > 0 {
            &&& t.phase == PreflightPhase::ToolAsked
            &&& a == Action::RunCommand(s.groups@[0]@[0])
            &&& t.alternatives@ == s.groups@[0]@.drop_first()
            &&& t.groups@ == s.groups@.drop_first()
            &&& t.group_errors@.len() == 0
            &&& t.errors@ == errors + group_errors
        } else {
            &&& t.phase == PreflightPhase::RootAsked
            &&& a == Action::EnsureDirectory(s.root)
            &&& t.groups == s.groups
            &&& t.errors@ == errors + group_errors
        }
    }

    /// One step: from `s`, on outcome `o`, to `t`, asking for `a`.
    pub open spec fn next(s: PreflightOp, o: Outcome, t: PreflightOp, a: Action) -> bool {
        &&& t.root == s.root
        &&& t.test_dir == s.test_dir
        &&& match s.phase {
            PreflightPhase::Start => PreflightOp::advance(
                s,
                s.alternatives@,
                s.group_errors@,
                s.errors@,
                t,
                a,
            ),
            PreflightPhase::ToolAsked => match o {
                Outcome::Completed(Ok(())) => PreflightOp::advance(
                    s,
                    Seq::empty(),
                    Seq::empty(),
                    s.errors@,
                    t,
                    a,
                ),
                Outcome::Completed(Err(e)) => PreflightOp::advance(
                    s,
                    s.alternatives@,
                    s.group_errors@ + tool_failure(e),
                    s.errors@,
                    t,
                    a,
                ),
                _ => false,
            },
            PreflightPhase::RootAsked => match o {
                Outcome::Completed(Ok(())) => t.phase == PreflightPhase::TestCreateAsked && t.errors
                    == s.errors && a == Action::CreateDirectory(s.test_dir),
                Outcome::Completed(Err(e)) => t.phase == PreflightPhase::Finished && (a matches Action::Checked(v)
                    && v@.len() == s.errors@.len() + 1 && v@.drop_last() == s.errors@ && root_failure(
                    e,
                    s.root,
                    v@.last(),
                )),
                _ => false,
            },
            PreflightPhase::TestCreateAsked => match o {
                Outcome::Completed(Ok(())) => t.phase == PreflightPhase::TestRemoveAsked && t.errors
                    == s.errors && a == Action::RemoveDirectory(s.test_dir),
                Outcome::Completed(Err(e)) => t.phase == PreflightPhase::Finished && (a matches Action::Checked(v)
                    && v@.len() == s.errors@.len() + 1 && v@.drop_last() == s.errors@ && test_failure(
                    e,
                    s.test_dir,
                    v@.last(),
                )),
                _ => false,
            },
            PreflightPhase::TestRemoveAsked => match o {
                Outcome::Completed(Ok(())) => t.phase == PreflightPhase::Finished && (a matches Action::Checked(v)
                    && v@ == s.errors@),
                Outcome::Completed(Err(e)) => t.phase == PreflightPhase::Finished && (a matches Action::Checked(v)
                    && v@.len() == s.errors@.len() + 1 && v@.drop_last() == s.errors@ && test_failure(
                    e,
                    s.test_dir,
                    v@.last(),
                )),
                _ => false,
            },
            PreflightPhase::Finished => false,
        }
    }

    fn advance_exec(&mut self) -> (a: Action)
        requires
            old(self).inv(),
        ensures
            final(self).inv(),
            final(self).root == old(self).root,
            final(self).test_dir == old(self).test_dir,
            PreflightOp::advance(
                *old(self),
                old(self).alternatives@,
                old(self).group_errors@,
                old(self).errors@,
                *final(self),
                a,
            ),
    {
        if self.alternatives.len() > 0 {
            self.phase = PreflightPhase::ToolAsked;
            let cmd = self.alternatives.remove(0);
            assert(self.alternatives@ =~= old(self).alternatives@.drop_first());
            Action::RunCommand(cmd)
        } else {
            self.errors.append(&mut self.group_errors);
            if self.groups.len() > 0 {
                let mut group = self.groups.remove(0);
                assert(self.groups@ =~= old(self).groups@.drop_first());
                assert(group@.len() > 0);
                let cmd = group.remove(0);
                self.alternatives = group;
                assert(self.alternatives@ =~= old(self).groups@[0]@.drop_first());
                self.phase = PreflightPhase::ToolAsked;
                assert forall|i: int| 0 <= i < self.groups@.len() implies (
                #[trigger] self.groups@[i])@.len() > 0 by {
                    assert(self.groups@[i] == old(self).groups@[i + 1]);
                }
                Action::RunCommand(cmd)
            } else {
                self.phase = PreflightPhase::RootAsked;
                Action::EnsureDirectory(self.root.clone())
            }
        }
    }

    fn report(&mut self, extra: Option<PreflightCheckError>) -> (a: Action)
        ensures
            final(self).phase == PreflightPhase::Finished,
            final(self).root == old(self).root,
            final(self).test_dir == old(self).test_dir,
            final(self).groups == old(self).groups,
            a matches Action::Checked(v) && v@ == old(self).errors@ + match extra {
                Some(f) => seq![f],
                None => Seq::<PreflightCheckError>::empty(),
            },
            extra matches Some(f) ==> (a matches Action::Checked(v) && v@.drop_last()
                == old(self).errors@ && v@.last() == f && v@.len() == old(self).errors@.len() + 1),
            extra is None ==> (a matches Action::Checked(v) && v@ == old(self).errors@),
    {
        let mut out: Vec<PreflightCheckError> = Vec::new();
        std::mem::swap(&mut out, &mut self.errors);
        let ghost extra_copy = extra;
        match extra {
            Some(f) => out.push(f),
            None => {},
        }
        self.phase = PreflightPhase::Finished;
        assert(out@ =~= old(self).errors@ + match extra_copy {
            Some(f) => seq![f],
            None => Seq::<PreflightCheckError>::empty(),
        });
        assert(extra_copy is Some ==> out@.drop_last() =~= old(self).errors@);
        assert(extra_copy is None ==> out@ =~= old(self).errors@);
        Action::Checked(out)
    }

    /// Advances the check by one outcome and says what to do next.
    pub fn step(&mut self, o: Outcome) -> (a: Action)
        requires
            old(self).inv(),
            old(self).accepts(o),
        ensures
            final(self).inv(),
            PreflightOp::next(*old(self), o, *final(self), a),
    {
        match self.phase {
            PreflightPhase::Start => self.advance_exec(),
            PreflightPhase::ToolAsked => match o {
                Outcome::Completed(Err(e)) => {
                    match e {
                        SftpManError::CommandExecution(c, m) => {
                            self.group_errors.push(PreflightCheckError::CommandExecution(c, m));
                        },
                        SftpManError::CommandUnsuccessful(c, out) => {
                            self.group_errors.push(PreflightCheckError::CommandUnsuccessful(c, out));
                        },
                        _ => {},
                    }
                    assert(self.group_errors@ =~= old(self).group_errors@ + tool_failure(e));
                    self.advance_exec()
                },
                _ => {
                    self.alternatives = Vec::new();
                    self.group_errors = Vec::new();
                    assert(self.alternatives@ =~= Seq::<ExternalCommand>::empty());
                    assert(self.group_errors@ =~= Seq::<PreflightCheckError>::empty());
                    let a = self.advance_exec();
                    a
                },
            },
            PreflightPhase::RootAsked => match o {
                Outcome::Completed(Err(e)) => {
                    let f = PreflightCheckError::DefaultBasePathIO(self.root.clone(), cause_of(e));
                    self.report(Some(f))
                },
                _ => {
                    self.phase = PreflightPhase::TestCreateAsked;
                    Action::CreateDirectory(self.test_dir.clone())
                },
            },
            PreflightPhase::TestCreateAsked => match o {
                Outcome::Completed(Err(e)) => {
                    let f = PreflightCheckError::TestUnderBasePathIO(self.test_dir.clone(), cause_of(e));
                    self.report(Some(f))
                },
                _ => {
                    self.phase = PreflightPhase::TestRemoveAsked;
                    Action::RemoveDirectory(self.test_dir.clone())
                },
            },
            PreflightPhase::TestRemoveAsked => match o {
                Outcome::Completed(Err(e)) => {
                    let f = PreflightCheckError::TestUnderBasePathIO(self.test_dir.clone(), cause_of(e));
                    self.report(Some(f))
                },
                _ => {
                    self.report(None)
                },
            },
            PreflightPhase::Finished => Action::Checked(Vec::new()),
        }
    }
}

} // verus!
