use vstd::prelude::*;

use crate::text::{split_words, strings_view, words};

verus! {

/// The lifecycle of the one managed child process.
#[derive(Clone, Copy, Debug, PartialEq, Eq, Structural)]
pub enum ProcessState {
    /// No process is held: none was started yet, or the last start failed.
    Idle,
    /// The process with this identifier was started.
    Running { id: u32 },
    /// Termination of this process was requested; its exit is not awaited.
    Terminating { id: u32 },
}

/// One step that the caller performs on the operating system, in order.
#[derive(Debug)]
pub enum Action {
    /// Send an unconditional termination signal to the process `id`.
    Terminate { id: u32 },
    /// Start a process: `argv[0]` is the program, the rest its arguments.
    Spawn { argv: Vec<String> },
}

/// `a` starts the command line `cmd`, split into its words.
pub open spec fn spawns(a: Action, cmd: Seq<char>) -> bool {
    match a {
        Action::Spawn { argv } => strings_view(argv@) == words(cmd),
        _ => false,
    }
}

/// Owner of the managed process: decides what a restart does and tracks the
/// process it holds.
#[derive(Debug)]
pub struct Supervisor {
    pub state: ProcessState,
}

impl Supervisor {
    /// The identifier of the process held as running, if any.
    pub open spec fn held(self) -> Option<u32> {
        match self.state {
            ProcessState::Running { id } => Some(id),
            _ => None,
        }
    }

    /// A supervisor that has started nothing yet.
    pub fn new() -> (r: Supervisor)
        ensures
            r.state == ProcessState::Idle,
    {
        Supervisor { state: ProcessState::Idle }
    }

    /// The identifier of the process held as running, if any.
    pub fn held_process(&self) -> (r: Option<u32>)
        ensures
            r == self.held(),
    {
        match self.state {
            ProcessState::Running { id } => Some(id),
            _ => None,
        }
    }

    /// Plans a restart with the command line `command`: when a process is held,
    /// its termination first, then always the start of `command`. The held
    /// process, if any, is then marked as terminating; the start's outcome is
    /// reported back through `spawned`.
    pub fn restart(&mut self, command: &str) -> (r: Vec<Action>)
        ensures
            match old(self).held() {
                Some(id) => {
                    &&& r@.len() == 2
                    &&& r@[0] == (Action::Terminate { id })
                    &&& spawns(r@[1], command@)
                    &&& final(self).state == (ProcessState::Terminating { id })
                },
                None => {
                    &&& r@.len() == 1
                    &&& spawns(r@[0], command@)
                    &&& final(self).state == old(self).state
                },
            },
            final(self).held() is None,
    {
        let argv = split_words(command);
        let mut actions: Vec<Action> = Vec::new();
        match self.state {
            ProcessState::Running { id } => {
                actions.push(Action::Terminate { id });
                self.state = ProcessState::Terminating { id };
            },
            _ => {},
        }
        actions.push(Action::Spawn { argv });
        actions
    }

    /// Records the outcome of a start: the new process's identifier, or `None`
    /// when it could not be started, which leaves no process held.
    pub fn spawned(&mut self, outcome: Option<u32>)
        requires
            old(self).held() is None,
        ensures
            final(self).state == match outcome {
                Some(id) => ProcessState::Running { id },
                None => ProcessState::Idle,
            },
    {
        match outcome {
            Some(id) => {
                self.state = ProcessState::Running { id };
            },
            None => {
                self.state = ProcessState::Idle;
            },
        }
    }
}

} // verus!
