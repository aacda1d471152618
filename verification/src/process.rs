//! Process sessions and the supervisor that owns them.
//!
//! A session is a two-state machine. It reacts to commands in the order in
//! which they arrive and answers each with the action that the caller has to
//! carry out: spawn the child, kill it, or nothing. The session never touches
//! a process itself, so the same rules hold whatever launches and signals the
//! children.

use vstd::prelude::*;
use crate::config::{count_allowed, Config, ProcessConfig};

verus! {

/// How many commands a session's inbox holds before further ones are dropped.
pub const COMMAND_INBOX_CAPACITY: usize = 10;

/// How many lines a session's output channel holds before its readers wait.
pub const OUTPUT_CHANNEL_CAPACITY: usize = 100;

/// How long, in milliseconds, a teardown waits for the kill signals to take
/// effect.
pub const STOP_GRACE_MILLIS: u64 = 200;

/// A command sent to a session.
#[derive(Debug, Clone, Copy, PartialEq, Eq, Structural)]
pub enum ProcessCommand {
    Start,
    Stop,
}

/// Where a session is in its lifecycle.
#[derive(Debug, Clone, Copy, PartialEq, Eq)]
pub enum SessionState {
    /// No child is held.
    Idle,
    /// A child is held. `group` is the id of the process group that it leads,
    /// where the child reported one when it was spawned.
    Running { group: Option<u32> },
}

/// What the caller has to do after a session has handled a command.
#[derive(Debug, Clone, Copy, PartialEq, Eq)]
pub enum SessionAction {
    Nothing,
    /// Spawn the child as the leader of a new process group, with its input
    /// closed and its output captured, then report it with `spawned`.
    Spawn,
    /// Kill the process group `group`, if one is given, and in any case the
    /// child itself; then drop the child's handle.
    Kill { group: Option<u32> },
}

/// The state in which a command leaves a session. A start command leaves an
/// idle session idle: it becomes running once the spawned child is reported.
pub open spec fn next_state(state: SessionState, command: ProcessCommand) -> SessionState {
    match command {
        ProcessCommand::Start => state,
        ProcessCommand::Stop => SessionState::Idle,
    }
}

/// The action with which a session in `state` answers `command`.
pub open spec fn action_for(state: SessionState, command: ProcessCommand) -> SessionAction {
    match (state, command) {
        (SessionState::Idle, ProcessCommand::Start) => SessionAction::Spawn,
        (SessionState::Running { group }, ProcessCommand::Stop) => SessionAction::Kill { group },
        _ => SessionAction::Nothing,
    }
}

/// The state of a session once a start command has been handled and the
/// child that it asked for, if it asked for one, has been reported as the
/// leader of the process group `group`.
pub open spec fn after_start(state: SessionState, group: Option<u32>) -> SessionState {
    match action_for(state, ProcessCommand::Start) {
        SessionAction::Spawn => SessionState::Running { group },
        _ => next_state(state, ProcessCommand::Start),
    }
}

/// What a session is, as a value: the process it stands for and its state.
pub struct SessionModel {
    pub descriptor: ProcessConfig,
    pub state: SessionState,
}

/// The sessions of a supervisor that was just created for `processes`: one
/// idle session for each, in the same order.
pub open spec fn initial_sessions(processes: Seq<ProcessConfig>) -> Seq<SessionModel> {
    Seq::new(
        processes.len(),
        |i: int| SessionModel { descriptor: processes[i], state: SessionState::Idle },
    )
}

/// The sessions after every one of them has handled a stop command.
pub open spec fn all_stopped(sessions: Seq<SessionModel>) -> Seq<SessionModel> {
    Seq::new(
        sessions.len(),
        |i: int|
            SessionModel {
                descriptor: sessions[i].descriptor,
                state: next_state(sessions[i].state, ProcessCommand::Stop),
            },
    )
}

/// The actions with which the sessions answer a stop command sent to each.
pub open spec fn stop_actions(sessions: Seq<SessionModel>) -> Seq<SessionAction> {
    Seq::new(sessions.len(), |i: int| action_for(sessions[i].state, ProcessCommand::Stop))
}

/// The lifecycle of one configured process.
pub struct ProcessSession {
    descriptor: ProcessConfig,
    state: SessionState,
}

impl View for ProcessSession {
    type V = SessionModel;

    closed spec fn view(&self) -> SessionModel {
        SessionModel { descriptor: self.descriptor, state: self.state }
    }
}

impl ProcessSession {
    /// An idle session for `descriptor`. No process is started.
    pub fn new(descriptor: ProcessConfig) -> (session: Self)
        ensures
            session@ == (SessionModel { descriptor, state: SessionState::Idle }),
    {
        ProcessSession { descriptor, state: SessionState::Idle }
    }

    /// The process that this session stands for.
    pub fn descriptor(&self) -> (descriptor: &ProcessConfig)
        ensures
            *descriptor == self@.descriptor,
    {
        &self.descriptor
    }

    pub fn state(&self) -> (state: SessionState)
        ensures
            state == self@.state,
    {
        self.state
    }

    /// Whether the session holds a child.
    pub fn is_running(&self) -> (running: bool)
        ensures
            running == (self@.state is Running),
    {
        match self.state {
            SessionState::Running { .. } => true,
            SessionState::Idle => false,
        }
    }

    /// Handles one command and says what the caller has to do.
    ///
    /// A start command asks an idle session for a spawn and is ignored by a
    /// running one. A stop command makes a running session idle and asks for
    /// the kill of its group and child, and is ignored by an idle one.
    pub fn handle(&mut self, command: ProcessCommand) -> (action: SessionAction)
        ensures
            final(self)@.descriptor == old(self)@.descriptor,
            final(self)@.state == next_state(old(self)@.state, command),
            action == action_for(old(self)@.state, command),
    {
        match command {
            ProcessCommand::Start => match self.state {
                SessionState::Idle => SessionAction::Spawn,
                SessionState::Running { .. } => SessionAction::Nothing,
            },
            ProcessCommand::Stop => match self.state {
                SessionState::Idle => SessionAction::Nothing,
                SessionState::Running { group } => {
                    self.state = SessionState::Idle;
                    SessionAction::Kill { group }
                },
            },
        }
    }

    /// Reacts to the closing of the inbox, after which no command can
    /// arrive: the session handles it as a stop command.
    pub fn inbox_closed(&mut self) -> (action: SessionAction)
        ensures
            final(self)@.descriptor == old(self)@.descriptor,
            final(self)@.state == next_state(old(self)@.state, ProcessCommand::Stop),
            action == action_for(old(self)@.state, ProcessCommand::Stop),
    {
        self.handle(ProcessCommand::Stop)
    }

    /// Records the child that was spawned for this session: the session is
    /// running from now on. `group` is the id of the process group that the
    /// child leads, which is the id that the child reported, and which a
    /// later stop kills. It is `None` where the child reported no id and
    /// where the platform has no process groups: a stop then kills the child
    /// alone.
    pub fn spawned(&mut self, group: Option<u32>)
        requires
            old(self)@.state is Idle,
        ensures
            final(self)@.descriptor == old(self)@.descriptor,
            final(self)@.state == (SessionState::Running { group }),
    {
        self.state = SessionState::Running { group };
    }
}

/// The supervisor: the sessions of one run, in the order of the
/// configuration.
pub struct ProcessManager {
    sessions: Vec<ProcessSession>,
}

impl View for ProcessManager {
    type V = Seq<SessionModel>;

    closed spec fn view(&self) -> Seq<SessionModel> {
        Seq::new(self.sessions@.len(), |i: int| self.sessions@[i]@)
    }
}

/// Creates one idle session for each process of `config`, in the same order.
/// No process is started.
pub fn spawn_process(config: Config) -> (manager: ProcessManager)
    ensures
        manager@ == initial_sessions(config.processes@),
{
    let ghost processes = config.processes@;
    let mut sessions: Vec<ProcessSession> = Vec::new();
    for descriptor in it: config.processes.into_iter()
        invariant
            it.seq() == processes,
            sessions@.len() == it.index(),
            forall|i: int|
                0 <= i < sessions@.len() ==> (#[trigger] sessions@[i])@ == (SessionModel {
                    descriptor: processes[i],
                    state: SessionState::Idle,
                }),
    {
        sessions.push(ProcessSession::new(descriptor));
    }
    let manager = ProcessManager { sessions };
    assert(manager@ =~= initial_sessions(processes));
    manager
}

impl ProcessManager {
    /// The number of sessions. It never changes.
    pub fn len(&self) -> (count: usize)
        ensures
            count == self@.len(),
    {
        self.sessions.len()
    }

    pub fn session(&self, index: usize) -> (session: &ProcessSession)
        requires
            index < self@.len(),
        ensures
            session@ == self@[index as int],
    {
        &self.sessions[index]
    }

    /// Hands `command` to the session at `index` and returns its answer.
    /// Only that session changes. An index that names no session changes
    /// nothing and asks for nothing.
    pub fn send(&mut self, index: usize, command: ProcessCommand) -> (action: SessionAction)
        ensures
            index < old(self)@.len() ==> action == action_for(
                old(self)@[index as int].state,
                command,
            ) && final(self)@ == old(self)@.update(
                index as int,
                SessionModel {
                    descriptor: old(self)@[index as int].descriptor,
                    state: next_state(old(self)@[index as int].state, command),
                },
            ),
            index >= old(self)@.len() ==> action == SessionAction::Nothing && final(self)@ == old(
                self,
            )@,
    {
        if index >= self.sessions.len() {
            return SessionAction::Nothing;
        }
        let action = self.sessions[index].handle(command);
        assert(self@ =~= old(self)@.update(
            index as int,
            SessionModel {
                descriptor: old(self)@[index as int].descriptor,
                state: next_state(old(self)@[index as int].state, command),
            },
        ));
        action
    }

    /// Records the child that was spawned for the idle session at `index`.
    pub fn spawned(&mut self, index: usize, group: Option<u32>)
        requires
            index < old(self)@.len(),
            old(self)@[index as int].state is Idle,
        ensures
            final(self)@ == old(self)@.update(
                index as int,
                SessionModel {
                    descriptor: old(self)@[index as int].descriptor,
                    state: SessionState::Running { group },
                },
            ),
    {
        self.sessions[index].spawned(group);
        assert(self@ =~= old(self)@.update(
            index as int,
            SessionModel {
                descriptor: old(self)@[index as int].descriptor,
                state: SessionState::Running { group },
            },
        ));
    }

    /// Sends a stop command to every session and returns their answers, one
    /// for each session and in their order: every session is idle afterwards,
    /// and each one that was running asks for the kill of its group and
    /// child. The caller carries the kills out and then allows
    /// `STOP_GRACE_MILLIS` for them to take effect.
    pub fn stop_all(&mut self) -> (actions: Vec<SessionAction>)
        ensures
            final(self)@ == all_stopped(old(self)@),
            actions@ == stop_actions(old(self)@),
    {
        let mut actions: Vec<SessionAction> = Vec::new();
        let count = self.sessions.len();
        let mut index: usize = 0;
        while index < count
            invariant
                index <= count,
                count == self@.len(),
                self@.len() == old(self)@.len(),
                actions@.len() == index,
                forall|i: int|
                    0 <= i < index ==> #[trigger] self@[i] == all_stopped(old(self)@)[i],
                forall|i: int|
                    0 <= i < index ==> #[trigger] actions@[i] == stop_actions(old(self)@)[i],
                forall|i: int| index <= i < count ==> #[trigger] self@[i] == old(self)@[i],
            decreases count - index,
        {
            let ghost before = self@;
            let action = self.sessions[index].handle(ProcessCommand::Stop);
            assert(self@ =~= before.update(
                index as int,
                SessionModel {
                    descriptor: before[index as int].descriptor,
                    state: SessionState::Idle,
                },
            ));
            actions.push(action);
            index = index + 1;
        }
        assert(self@ =~= all_stopped(old(self)@));
        assert(actions@ =~= stop_actions(old(self)@));
        actions
    }

    /// Gives the sessions away, in their order, to whatever runs them.
    pub fn into_sessions(self) -> (sessions: Vec<ProcessSession>)
        ensures
            sessions@.len() == self@.len(),
            forall|i: int| 0 <= i < sessions@.len() ==> (#[trigger] sessions@[i])@ == self@[i],
    {
        self.sessions
    }
}

/// A supervisor created for an accepted configuration holds exactly one
/// session for each process, each of them idle, and each of them runs once
/// it has handled a start command and the child it asked for was reported.
pub proof fn lemma_sessions_start_idle_and_run_once_started(
    processes: Seq<ProcessConfig>,
    index: int,
    group: Option<u32>,
)
    requires
        count_allowed(processes.len()),
        0 <= index < processes.len(),
    ensures
        initial_sessions(processes).len() == processes.len(),
        initial_sessions(processes)[index].descriptor == processes[index],
        initial_sessions(processes)[index].state is Idle,
        action_for(initial_sessions(processes)[index].state, ProcessCommand::Start)
            is Spawn,
        after_start(initial_sessions(processes)[index].state, group) is Running,
{
}

/// A session that has handled a start command ignores the next one: it asks
/// for no second spawn and keeps its state, whatever state it was in before
/// the first.
pub proof fn lemma_repeated_start_spawns_nothing(state: SessionState, group: Option<u32>)
    ensures
        action_for(after_start(state, group), ProcessCommand::Start) == SessionAction::Nothing,
        next_state(after_start(state, group), ProcessCommand::Start) == after_start(state, group),
        after_start(after_start(state, group), group) == after_start(state, group),
{
}

/// A stop command leaves a session idle. A running session answers it with
/// the kill of the group it recorded, an idle one with nothing, so that a
/// second stop in a row asks for nothing.
pub proof fn lemma_stop_leaves_idle(state: SessionState)
    ensures
        next_state(state, ProcessCommand::Stop) is Idle,
        state matches SessionState::Running { group } ==> action_for(state, ProcessCommand::Stop)
            == (SessionAction::Kill { group }),
        state is Idle ==> action_for(state, ProcessCommand::Stop) == SessionAction::Nothing,
        action_for(next_state(state, ProcessCommand::Stop), ProcessCommand::Stop)
            == SessionAction::Nothing,
{
}

} // verus!
