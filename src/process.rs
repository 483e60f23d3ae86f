//! Finding the sshfs process behind a mount, and the escalation that
//! terminates it.

use vstd::prelude::*;

use crate::definition::FilesystemMountDefinition;
use crate::lifecycle::{Action, Outcome};
use crate::errors::SftpManError;
use crate::text::{same_text, views};

verus! {

/// The program name of the mount helper.
pub const SSHFS_PROGRAM: &'static str = "sshfs";

/// A running process: its id and its command line.
#[derive(Debug, Clone)]
pub struct ProcessInfo {
    pub pid: i32,
    pub cmdline: Vec<String>,
}

/// The process runs sshfs (its command line has the program and at least
/// one argument) and one of its command-line words is `target`.
pub open spec fn serves(p: ProcessInfo, target: Seq<char>) -> bool {
    &&& p.cmdline@.len() > 1
    &&& p.cmdline@[0]@ == SSHFS_PROGRAM@
    &&& views(p.cmdline@).contains(target)
}

/// The id of the first process that serves `target`.
pub open spec fn first_serving(ps: Seq<ProcessInfo>, target: Seq<char>) -> Option<i32>
    decreases ps.len(),
{
    if ps.len() == 0 {
        None
    } else if serves(ps[0], target) {
        Some(ps[0].pid)
    } else {
        first_serving(ps.drop_first(), target)
    }
}

fn has_word(words: &Vec<String>, w: &String) -> (r: bool)
    ensures
        r == views(words@).contains(w@),
{
    let mut i: usize = 0;
    while i < words.len()
        invariant
            i <= words@.len(),
            forall|j: int| 0 <= j < i ==> #[trigger] words@[j]@ != w@,
        decreases words@.len() - i,
    {
        if words[i] == *w {
            assert(views(words@)[i as int] == w@);
            return true;
        }
        i = i + 1;
    }
    assert forall|j: int| 0 <= j < views(words@).len() implies views(words@)[j] != w@ by {
        assert(words@[j]@ != w@);
    }
    false
}

/// The id of the first listed sshfs process whose command line holds `target`, if any.
pub fn sshfs_pid_by_target(target: &String, processes: &Vec<ProcessInfo>) -> (r: Option<i32>)
    ensures
        r == first_serving(processes@, target@),
{
    let mut i: usize = 0;
    proof {
        assert(processes@.subrange(0, processes@.len() as int) =~= processes@);
    }
    while i < processes.len()
        invariant
            i <= processes@.len(),
            first_serving(processes@, target@) == first_serving(
                processes@.subrange(i as int, processes@.len() as int),
                target@,
            ),
        decreases processes@.len() - i,
    {
        let p = &processes[i];
        proof {
            assert(processes@.subrange(i as int, processes@.len() as int).drop_first()
                =~= processes@.subrange(i + 1, processes@.len() as int));
        }
        if p.cmdline.len() > 1 && same_text(p.cmdline[0].as_str(), SSHFS_PROGRAM) && has_word(
            &p.cmdline,
            target,
        ) {
            return Some(p.pid);
        }
        i = i + 1;
    }
    None
}

/// The id of the first listed sshfs process whose command line holds the
/// connection target of `definition`, if any.
pub fn sshfs_pid_by_definition(
    definition: &FilesystemMountDefinition,
    processes: &Vec<ProcessInfo>,
) -> (r: Option<i32>)
    ensures
        r == first_serving(processes@, definition.target()),
{
    let expected = definition.connection_target();
    sshfs_pid_by_target(&expected, processes)
}

/// Where the escalation stands: what it asked for last.
#[derive(Debug, Clone, Copy, PartialEq, Eq, Structural)]
pub enum KillPhase {
    Start,
    TermAsked,
    FirstWaitAsked,
    FirstCheckAsked,
    SecondWaitAsked,
    KillAsked,
    SecondCheckAsked,
    Finished,
}

/// The graceful-then-forceful termination of one process:
/// terminate signal, wait, liveness check; unless it is dead, wait again
/// (both waits last `wait_millis`), kill signal, liveness check.
/// A signal that could not be sent is not fatal. An unknown liveness counts
/// as possibly alive after the first signal and as dead after the second.
#[derive(Debug, Clone)]
pub struct KillSequence {
    pub pid: i32,
    pub wait_millis: u64,
    pub phase: KillPhase,
}

impl KillSequence {
    pub fn new(pid: i32, wait_millis: u64) -> (r: KillSequence)
        ensures
            r == KillSequence::new_spec(pid, wait_millis),
    {
        KillSequence { pid, wait_millis, phase: KillPhase::Start }
    }

    pub open spec fn new_spec(pid: i32, wait_millis: u64) -> KillSequence {
        KillSequence { pid, wait_millis, phase: KillPhase::Start }
    }

    /// The outcome that the sequence waits for has this kind.
    pub open spec fn accepts(self, o: Outcome) -> bool {
        match self.phase {
            KillPhase::Start => o is Begin,
            KillPhase::FirstCheckAsked | KillPhase::SecondCheckAsked => o is Alive,
            KillPhase::Finished => false,
            _ => o is Completed,
        }
    }

    /// One step: from `s`, on outcome `o`, to `t`, asking for `a`.
    pub open spec fn next(s: KillSequence, o: Outcome, t: KillSequence, a: Action) -> bool {
        &&& t.pid == s.pid
        &&& t.wait_millis == s.wait_millis
        &&& match s.phase {
            KillPhase::Start => t.phase == KillPhase::TermAsked && a == Action::Signal {
                pid: s.pid,
                forceful: false,
            },
            KillPhase::TermAsked => t.phase == KillPhase::FirstWaitAsked && a == Action::Sleep(
                s.wait_millis,
            ),
            KillPhase::FirstWaitAsked => t.phase == KillPhase::FirstCheckAsked && a
                == Action::CheckAlive(s.pid),
            KillPhase::FirstCheckAsked => if o == Outcome::Alive(Some(false)) {
                t.phase == KillPhase::Finished && a == Action::Done(Ok(()))
            } else {
                t.phase == KillPhase::SecondWaitAsked && a == Action::Sleep(s.wait_millis)
            },
            KillPhase::SecondWaitAsked => t.phase == KillPhase::KillAsked && a == Action::Signal {
                pid: s.pid,
                forceful: true,
            },
            KillPhase::KillAsked => t.phase == KillPhase::SecondCheckAsked && a
                == Action::CheckAlive(s.pid),
            KillPhase::SecondCheckAsked => t.phase == KillPhase::Finished && if o
                == Outcome::Alive(Some(true)) {
                a == Action::Done(Err(SftpManError::ProcessTerminationFailed(s.pid)))
            } else {
                a == Action::Done(Ok(()))
            },
            KillPhase::Finished => false,
        }
    }

    pub fn accepts_outcome(&self, o: &Outcome) -> (r: bool)
        ensures
            r == self.accepts(*o),
    {
        match self.phase {
            KillPhase::Start => matches!(o, Outcome::Begin),
            KillPhase::FirstCheckAsked | KillPhase::SecondCheckAsked => matches!(o, Outcome::Alive(_)),
            KillPhase::Finished => false,
            _ => matches!(o, Outcome::Completed(_)),
        }
    }

    /// Advances the sequence by one outcome and says what to do next.
    pub fn step(&mut self, o: Outcome) -> (a: Action)
        requires
            old(self).accepts(o),
        ensures
            KillSequence::next(*old(self), o, *final(self), a),
    {
        match self.phase {
            KillPhase::Start => {
                self.phase = KillPhase::TermAsked;
                Action::Signal { pid: self.pid, forceful: false }
            },
            KillPhase::TermAsked => {
                self.phase = KillPhase::FirstWaitAsked;
                Action::Sleep(self.wait_millis)
            },
            KillPhase::FirstWaitAsked => {
                self.phase = KillPhase::FirstCheckAsked;
                Action::CheckAlive(self.pid)
            },
            KillPhase::FirstCheckAsked => {
                if matches!(o, Outcome::Alive(Some(false))) {
                    self.phase = KillPhase::Finished;
                    Action::Done(Ok(()))
                } else {
                    self.phase = KillPhase::SecondWaitAsked;
                    Action::Sleep(self.wait_millis)
                }
            },
            KillPhase::SecondWaitAsked => {
                self.phase = KillPhase::KillAsked;
                Action::Signal { pid: self.pid, forceful: true }
            },
            KillPhase::KillAsked => {
                self.phase = KillPhase::SecondCheckAsked;
                Action::CheckAlive(self.pid)
            },
            KillPhase::SecondCheckAsked => {
                self.phase = KillPhase::Finished;
                if matches!(o, Outcome::Alive(Some(true))) {
                    Action::Done(Err(SftpManError::ProcessTerminationFailed(self.pid)))
                } else {
                    Action::Done(Ok(()))
                }
            },
            KillPhase::Finished => Action::Done(Ok(())),
        }
    }
}

} // verus!
