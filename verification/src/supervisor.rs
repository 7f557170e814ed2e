//! The supervisor's run/stop state machine: one managed process at a time,
//! started and stopped through an explicit lifecycle that request handlers
//! consult, with the exit watcher as the single authority that returns the
//! machine to `Stopped`.

use crate::channel::send_text;
use vstd::prelude::*;

verus! {

/// The lifecycle of the managed process. `Stopped` is both the initial state
/// and the terminal state of each cycle; the machine is reusable.
#[derive(Clone, Copy, Debug, PartialEq, Eq, Structural)]
pub enum SupervisorState {
    Stopped,
    Starting,
    Running,
    Stopping,
}

/// The answer to a start request.
#[derive(Clone, Copy, Debug, PartialEq, Eq, Structural)]
pub enum StartResponse {
    /// The launch may proceed; the machine is now `Starting`.
    Accepted,
    /// A launch is already under way.
    AlreadyStarting,
    /// A managed process is already live.
    AlreadyRunning,
}

/// The answer to a stop request.
#[derive(Clone, Copy, Debug, PartialEq, Eq, Structural)]
pub enum StopResponse {
    /// The stop command was enqueued; the machine is now `Stopping`.
    Accepted,
    /// No managed process is live.
    AlreadyStopped,
    /// A stop is already under way.
    AlreadyStopping,
}

/// The answer to an operator command.
#[derive(Clone, Copy, Debug, PartialEq, Eq, Structural)]
pub enum ExecResponse {
    /// The command was enqueued for the child's input stream.
    Accepted,
    /// No managed process is live.
    NotRunning,
}

/// How a start request is answered in each state.
pub open spec fn start_gate(s: SupervisorState) -> StartResponse {
    match s {
        SupervisorState::Stopped => StartResponse::Accepted,
        SupervisorState::Starting => StartResponse::AlreadyStarting,
        SupervisorState::Running => StartResponse::AlreadyRunning,
        SupervisorState::Stopping => StartResponse::AlreadyRunning,
    }
}

/// Where a start request moves the machine.
pub open spec fn start_step(s: SupervisorState) -> SupervisorState {
    if s == SupervisorState::Stopped {
        SupervisorState::Starting
    } else {
        s
    }
}

/// How a stop request is answered in each state. A stop while `Starting` is
/// rejected, not queued: the operator must wait for `Running` first.
pub open spec fn stop_gate(s: SupervisorState) -> StopResponse {
    match s {
        SupervisorState::Running => StopResponse::Accepted,
        SupervisorState::Stopping => StopResponse::AlreadyStopping,
        SupervisorState::Stopped => StopResponse::AlreadyStopped,
        SupervisorState::Starting => StopResponse::AlreadyStopped,
    }
}

/// Where a stop request moves the machine.
pub open spec fn stop_step(s: SupervisorState) -> SupervisorState {
    if s == SupervisorState::Running {
        SupervisorState::Stopping
    } else {
        s
    }
}

/// A managed process is live: spawned and not yet observed to exit. This is
/// what the `running` query reports, and it stays true while a stop is under
/// way.
pub open spec fn process_active(s: SupervisorState) -> bool {
    s == SupervisorState::Running || s == SupervisorState::Stopping
}

/// The edges of the lifecycle, staying in place included: a start enters
/// `Starting`; a spawned child enters `Running`; a failed launch rolls back;
/// a stop request enters `Stopping`; and an observed exit — requested or not —
/// returns to `Stopped` from any live state.
pub open spec fn valid_transition(pre: SupervisorState, post: SupervisorState) -> bool {
    ||| pre == post
    ||| (pre == SupervisorState::Stopped && post == SupervisorState::Starting)
    ||| (pre == SupervisorState::Starting && post == SupervisorState::Running)
    ||| (pre == SupervisorState::Starting && post == SupervisorState::Stopped)
    ||| (pre == SupervisorState::Running && post == SupervisorState::Stopping)
    ||| (pre == SupervisorState::Running && post == SupervisorState::Stopped)
    ||| (pre == SupervisorState::Stopping && post == SupervisorState::Stopped)
}

/// Every operation of the supervisor follows an edge of the state machine:
/// a start request, a stop request and an observed exit each take a valid
/// transition from every state.
pub proof fn lemma_operations_follow_state_machine(s: SupervisorState)
    ensures
        valid_transition(s, start_step(s)),
        valid_transition(s, stop_step(s)),
        valid_transition(s, SupervisorState::Stopped),
{
}

/// No transition skips `Starting` or `Stopping`: the machine never steps
/// straight from `Stopped` to `Running` or `Stopping`, nor from `Starting`
/// to `Stopping`.
pub proof fn lemma_no_skipped_states()
    ensures
        !valid_transition(SupervisorState::Stopped, SupervisorState::Running),
        !valid_transition(SupervisorState::Stopped, SupervisorState::Stopping),
        !valid_transition(SupervisorState::Starting, SupervisorState::Stopping),
{
}

/// A start request is accepted exactly in `Stopped`; while `Starting` or
/// `Running` it is rejected and moves nothing, so at most one managed
/// process can ever be live.
pub proof fn lemma_start_exclusive(s: SupervisorState)
    ensures
        start_gate(s) == StartResponse::Accepted <==> s == SupervisorState::Stopped,
        s == SupervisorState::Starting || s == SupervisorState::Running ==> start_gate(s)
            != StartResponse::Accepted && start_step(s) == s,
{
}

/// The supervisor: the lifecycle state, the pid believed to identify the
/// real managed workload (0 when none), and the producer side of the
/// operator-command channel that feeds the child's input stream.
pub struct Supervisor {
    state: SupervisorState,
    pid: u32,
    stdin_tx: tokio::sync::broadcast::Sender<String>,
    sent: Ghost<Seq<Seq<char>>>,
}

impl Supervisor {
    /// The current lifecycle state.
    pub closed spec fn spec_state(&self) -> SupervisorState {
        self.state
    }

    /// The tracked pid; zero means no process.
    pub closed spec fn spec_pid(&self) -> u32 {
        self.pid
    }

    /// The operator commands handed to the command channel so far, oldest
    /// first: the supervisor's half of the stdio relay, which the writer
    /// task drains into the child's input stream.
    pub closed spec fn spec_sent(&self) -> Seq<Seq<char>> {
        self.sent@
    }

    /// A fresh supervisor: stopped, with no tracked process and nothing
    /// sent. `stdin_tx` is the channel whose subscribers write to the
    /// child's input stream.
    pub fn new(stdin_tx: tokio::sync::broadcast::Sender<String>) -> (s: Self)
        ensures
            s.spec_state() == SupervisorState::Stopped,
            s.spec_pid() == 0,
            s.spec_sent() == Seq::<Seq<char>>::empty(),
    {
        Supervisor {
            state: SupervisorState::Stopped,
            pid: 0,
            stdin_tx,
            sent: Ghost(Seq::empty()),
        }
    }

    /// Answers a start request: accepted only in `Stopped`, which enters
    /// `Starting`; otherwise rejected with the reason, and nothing moves.
    pub fn begin_start(&mut self) -> (r: StartResponse)
        ensures
            r == start_gate(old(self).spec_state()),
            final(self).spec_state() == start_step(old(self).spec_state()),
            final(self).spec_pid() == old(self).spec_pid(),
            final(self).spec_sent() == old(self).spec_sent(),
            valid_transition(old(self).spec_state(), final(self).spec_state()),
    {
        match self.state {
            SupervisorState::Stopped => {
                self.state = SupervisorState::Starting;
                StartResponse::Accepted
            },
            SupervisorState::Starting => StartResponse::AlreadyStarting,
            SupervisorState::Running => StartResponse::AlreadyRunning,
            SupervisorState::Stopping => StartResponse::AlreadyRunning,
        }
    }

    /// Records that the child was spawned and its streams wired: `Starting`
    /// enters `Running` with the spawned pid tracked. In any other state
    /// nothing moves and `false` comes back.
    pub fn complete_start(&mut self, pid: u32) -> (r: bool)
        ensures
            r == (old(self).spec_state() == SupervisorState::Starting),
            r ==> final(self).spec_state() == SupervisorState::Running && final(self).spec_pid()
                == pid,
            !r ==> final(self).spec_state() == old(self).spec_state() && final(self).spec_pid()
                == old(self).spec_pid(),
            final(self).spec_sent() == old(self).spec_sent(),
            valid_transition(old(self).spec_state(), final(self).spec_state()),
    {
        match self.state {
            SupervisorState::Starting => {
                self.state = SupervisorState::Running;
                self.pid = pid;
                true
            },
            _ => false,
        }
    }

    /// Rolls a failed launch back fully: `Starting` returns to `Stopped`
    /// with no process tracked and no resources held, since none were
    /// acquired. In any other state nothing moves and `false` comes back.
    pub fn abort_start(&mut self) -> (r: bool)
        ensures
            r == (old(self).spec_state() == SupervisorState::Starting),
            r ==> final(self).spec_state() == SupervisorState::Stopped && final(self).spec_pid()
                == 0,
            !r ==> final(self).spec_state() == old(self).spec_state() && final(self).spec_pid()
                == old(self).spec_pid(),
            final(self).spec_sent() == old(self).spec_sent(),
            valid_transition(old(self).spec_state(), final(self).spec_state()),
    {
        match self.state {
            SupervisorState::Starting => {
                self.state = SupervisorState::Stopped;
                self.pid = 0;
                true
            },
            _ => false,
        }
    }

    /// Answers a stop request: accepted only in `Running`, which hands the
    /// stop command to the operator-command channel — exactly one `/stop`,
    /// recorded in the sent history — and enters `Stopping`. It does not
    /// wait for the exit; that is the exit watcher's job.
    pub fn request_stop(&mut self) -> (r: StopResponse)
        ensures
            r == stop_gate(old(self).spec_state()),
            final(self).spec_state() == stop_step(old(self).spec_state()),
            final(self).spec_pid() == old(self).spec_pid(),
            r == StopResponse::Accepted ==> final(self).spec_sent() == old(self).spec_sent().push(
                "/stop"@,
            ),
            r != StopResponse::Accepted ==> final(self).spec_sent() == old(self).spec_sent(),
            valid_transition(old(self).spec_state(), final(self).spec_state()),
    {
        match self.state {
            SupervisorState::Running => {
                send_text(&self.stdin_tx, "/stop".to_owned());
                self.sent = Ghost(self.sent@.push("/stop"@));
                self.state = SupervisorState::Stopping;
                StopResponse::Accepted
            },
            SupervisorState::Stopping => StopResponse::AlreadyStopping,
            SupervisorState::Stopped => StopResponse::AlreadyStopped,
            SupervisorState::Starting => StopResponse::AlreadyStopped,
        }
    }

    /// Hands one operator command to the child's input-stream channel,
    /// accepted while a process is live — a stop under way included. Side
    /// effect only: the command goes out exactly once, unmodified, as the
    /// sent history records; nothing else moves.
    pub fn exec_command(&mut self, cmd: String) -> (r: ExecResponse)
        ensures
            final(self).spec_state() == old(self).spec_state(),
            final(self).spec_pid() == old(self).spec_pid(),
            r == (if process_active(old(self).spec_state()) {
                ExecResponse::Accepted
            } else {
                ExecResponse::NotRunning
            }),
            r == ExecResponse::Accepted ==> final(self).spec_sent() == old(self).spec_sent().push(
                cmd@,
            ),
            r != ExecResponse::Accepted ==> final(self).spec_sent() == old(self).spec_sent(),
    {
        match self.state {
            SupervisorState::Running => {
                let ghost line = cmd@;
                send_text(&self.stdin_tx, cmd);
                self.sent = Ghost(self.sent@.push(line));
                ExecResponse::Accepted
            },
            SupervisorState::Stopping => {
                let ghost line = cmd@;
                send_text(&self.stdin_tx, cmd);
                self.sent = Ghost(self.sent@.push(line));
                ExecResponse::Accepted
            },
            _ => ExecResponse::NotRunning,
        }
    }

    /// The exit watcher's report: the OS says the child has exited. From any
    /// state — a requested stop, a crash or an external kill alike — the
    /// machine returns to `Stopped` and the tracked pid is cleared. This is
    /// the single place the lifecycle ends.
    pub fn on_exit(&mut self)
        ensures
            final(self).spec_state() == SupervisorState::Stopped,
            final(self).spec_pid() == 0,
            final(self).spec_sent() == old(self).spec_sent(),
            valid_transition(old(self).spec_state(), final(self).spec_state()),
    {
        self.state = SupervisorState::Stopped;
        self.pid = 0;
    }

    /// Overwrites the tracked pid once pid discovery has found the real
    /// worker process. The lifecycle state does not move.
    pub fn set_tracked_pid(&mut self, pid: u32)
        ensures
            final(self).spec_state() == old(self).spec_state(),
            final(self).spec_pid() == pid,
            final(self).spec_sent() == old(self).spec_sent(),
    {
        self.pid = pid;
    }

    /// Whether a managed process is live, as the `running` query reports it.
    pub fn is_running(&self) -> (r: bool)
        ensures
            r == process_active(self.spec_state()),
    {
        match self.state {
            SupervisorState::Running => true,
            SupervisorState::Stopping => true,
            _ => false,
        }
    }

    /// The current lifecycle state.
    pub fn current_state(&self) -> (r: SupervisorState)
        ensures
            r == self.spec_state(),
    {
        self.state
    }

    /// The pid currently believed to identify the managed workload; zero
    /// means no process.
    pub fn tracked_pid(&self) -> (r: u32)
        ensures
            r == self.spec_pid(),
    {
        self.pid
    }
}

} // verus!
