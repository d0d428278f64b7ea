use vstd::prelude::*;

use crate::error::Error;
use crate::style::paint_green;
use crate::AsHandle;
use vstd::slice::slice_to_vec;
use vstd::string::StringSliceAdditionalSpecFns;

verus! {

/// Descriptor of standard input.
pub const STDIN: i32 = 0;
/// Descriptor of standard output.
pub const STDOUT: i32 = 1;
/// Descriptor of standard error.
pub const STDERR: i32 = 2;

/// Poll token of the pipe that relays the daemon's standard output.
pub const STDOUT_TOKEN: usize = 0;
/// Poll token of the pipe that relays the daemon's standard error.
pub const STDERR_TOKEN: usize = 1;
/// Poll token of the status pipe.
pub const STATUS_TOKEN: usize = 3;

/// File creation mask of the daemon.
pub const DAEMON_UMASK: u32 = 0o027;
/// Group and user ID that the daemon takes on: the largest ID but one.
pub const UNPRIVILEGED_ID: u32 = 4294967294;

/// The two ends of a pipe.
#[derive(Debug, Clone, Copy, PartialEq, Eq, Structural)]
pub struct PipeEnds {
    pub read: i32,
    pub write: i32,
}

/// The descriptors that the procedure creates before the first fork.
#[derive(Debug, Clone, Copy, PartialEq, Eq, Structural)]
pub struct Fds {
    /// Carries the daemon's ready message.
    pub status: PipeEnds,
    /// Relays the daemon's standard output.
    pub out: PipeEnds,
    /// Relays the daemon's standard error.
    pub err: PipeEnds,
    /// The open pid file.
    pub pid_file: i32,
}

/// A system call that the procedure asks for.
#[derive(Debug, Clone, Copy, PartialEq, Eq, Structural)]
pub enum Op {
    /// `pipe()`; answered by `Outcome::Piped`.
    CreatePipe,
    /// Open the pid file write-only and truncated, created with mode `0o666`
    /// if absent; answered by `Outcome::Opened`.
    OpenPidfile,
    /// `fork()`; answered by `Outcome::Forked`.
    Fork,
    /// `dup2(fd, target)`.
    Redirect { fd: i32, target: i32 },
    /// Change the working directory to `/`.
    ChangeDirectory,
    /// `setsid()`.
    NewSession,
    /// `umask(mask)`; its result is not looked at.
    SetUmask { mask: u32 },
    /// `close(fd)`; its result is not looked at.
    Close { fd: i32 },
    /// `setgid(gid)`; its result is not looked at.
    SetGroup { gid: u32 },
    /// `setuid(uid)`; its result is not looked at.
    SetUser { uid: u32 },
    /// Write this process's ID, as `pid_text` gives it, to `fd`.
    WritePid { fd: i32 },
    /// Add `O_NONBLOCK` to the flags of `fd`.
    NonBlocking { fd: i32 },
    /// Register `fd` for edge-triggered readability under `token`.
    Register { fd: i32, token: usize },
    /// Wait for readiness; answered by `Outcome::Ready`. A failed wait is fatal.
    Poll,
    /// Ask how many bytes `fd` holds; answered by `Outcome::Pending`.
    PendingSize { fd: i32 },
    /// Move `len` bytes from `fd` to `target` without copying.
    Splice { fd: i32, target: i32, len: usize },
}

/// What a system call came to.
#[derive(Debug, Clone, Copy, PartialEq, Eq, Structural)]
pub enum Outcome {
    /// It succeeded with nothing to report.
    Done,
    /// A pipe was made.
    Piped(PipeEnds),
    /// A file was opened.
    Opened(i32),
    /// `fork` returned this value: 0 in the child.
    Forked(i32),
    /// The poller reported this token readable.
    Ready(usize),
    /// The pipe holds this many bytes.
    Pending(usize),
    /// It failed with this OS error number.
    Failed(i32),
}

/// What the caller does next.
#[derive(Debug, Clone, Copy, PartialEq, Eq, Structural)]
pub enum Action {
    /// Make this call and report its outcome.
    Perform(Op),
    /// Stop: this process returns the error to its caller.
    Fail(Error),
    /// Exit this process with the code.
    Exit(i32),
    /// This process is the daemon: build its handle from the descriptor.
    Finish(i32),
}

/// Where in the procedure a process stands.
#[derive(Debug, Clone, Copy, PartialEq, Eq, Structural)]
pub enum Stage {
    /// Before the first fork.
    Setup,
    /// The first child, before the second fork.
    Intermediate,
    /// The daemon, setting itself up.
    Daemon,
    /// The original process, setting up the relay.
    Parent,
    /// The original process, waiting for a pipe to become readable.
    Waiting,
    /// The original process, relaying what the pipe of the token holds.
    Relay(usize),
    /// The original process, closing its pipes before it exits.
    Closing,
    /// Nothing is left to do.
    Over,
}

/// The state of the procedure: its stage, the step within it, the call whose
/// outcome is awaited, and the descriptors known so far.
#[derive(Debug, Clone, Copy, PartialEq, Eq, Structural)]
pub struct State {
    pub stage: Stage,
    pub index: usize,
    pub op: Op,
    pub fds: Fds,
}

pub open spec fn setup_ops() -> Seq<Op> {
    seq![Op::CreatePipe, Op::CreatePipe, Op::CreatePipe, Op::OpenPidfile, Op::Fork]
}

/// The first child points its output at the relay pipes, leaves the
/// terminal's session and forks the daemon.
pub open spec fn intermediate_ops(f: Fds) -> Seq<Op> {
    seq![
        Op::Redirect { fd: f.err.write, target: STDERR },
        Op::Redirect { fd: f.out.write, target: STDOUT },
        Op::ChangeDirectory,
        Op::NewSession,
        Op::SetUmask { mask: DAEMON_UMASK },
        Op::Fork,
    ]
}

/// The daemon closes what it does not own, points its output at the relay
/// pipes, drops its privileges and writes its ID to the pid file.
pub open spec fn daemon_ops(f: Fds) -> Seq<Op> {
    seq![
        Op::Close { fd: f.status.read },
        Op::Close { fd: f.out.read },
        Op::Close { fd: f.err.read },
        Op::Close { fd: STDERR },
        Op::Close { fd: STDIN },
        Op::Close { fd: STDOUT },
        Op::Redirect { fd: f.err.write, target: STDERR },
        Op::Redirect { fd: f.out.write, target: STDOUT },
        Op::SetGroup { gid: UNPRIVILEGED_ID },
        Op::SetUser { uid: UNPRIVILEGED_ID },
        Op::WritePid { fd: f.pid_file },
        Op::Close { fd: f.err.write },
        Op::Close { fd: f.out.write },
    ]
}

/// The original process closes the write ends and watches the read ends.
pub open spec fn parent_ops(f: Fds) -> Seq<Op> {
    seq![
        Op::Close { fd: f.status.write },
        Op::Close { fd: f.out.write },
        Op::Close { fd: f.err.write },
        Op::NonBlocking { fd: f.out.read },
        Op::NonBlocking { fd: f.err.read },
        Op::NonBlocking { fd: f.status.read },
        Op::Register { fd: f.out.read, token: STDOUT_TOKEN },
        Op::Register { fd: f.err.read, token: STDERR_TOKEN },
        Op::Register { fd: f.status.read, token: STATUS_TOKEN },
    ]
}

pub open spec fn closing_ops(f: Fds) -> Seq<Op> {
    seq![
        Op::Close { fd: f.status.read },
        Op::Close { fd: f.out.read },
        Op::Close { fd: f.err.read },
    ]
}

/// The calls of a stage, in order (a relay's calls depend on what it reads).
pub open spec fn plan(stage: Stage, f: Fds) -> Seq<Op> {
    match stage {
        Stage::Setup => setup_ops(),
        Stage::Intermediate => intermediate_ops(f),
        Stage::Daemon => daemon_ops(f),
        Stage::Parent => parent_ops(f),
        Stage::Waiting => seq![Op::Poll],
        Stage::Closing => closing_ops(f),
        _ => Seq::empty(),
    }
}

pub open spec fn is_token(t: usize) -> bool {
    t == STDOUT_TOKEN || t == STDERR_TOKEN || t == STATUS_TOKEN
}

/// The read end watched under a token.
pub open spec fn read_end(f: Fds, t: usize) -> i32 {
    if t == STDOUT_TOKEN {
        f.out.read
    } else if t == STDERR_TOKEN {
        f.err.read
    } else {
        f.status.read
    }
}

/// Where the bytes of a token's pipe go: standard error for the error relay,
/// standard output for the other two.
pub open spec fn relay_target(t: usize) -> i32 {
    if t == STDERR_TOKEN {
        STDERR
    } else {
        STDOUT
    }
}

/// The error that a failed call gives, or `None` where a failure is ignored.
pub open spec fn failure(op: Op, e: i32) -> Option<Error> {
    match op {
        Op::CreatePipe => Some(Error::Pipe(e)),
        Op::OpenPidfile => Some(Error::OpenPidfile(e)),
        Op::Fork => Some(Error::Fork(e)),
        Op::Redirect { .. } => Some(Error::Dup2(e)),
        Op::ChangeDirectory => Some(Error::ChangeDirectory(e)),
        Op::NewSession => Some(Error::DetachSession(e)),
        Op::WritePid { .. } => Some(Error::WritePid(e)),
        Op::NonBlocking { .. } => Some(Error::Fnctl(e)),
        Op::Register { .. } => Some(Error::RegistrationError(e)),
        Op::PendingSize { .. } => Some(Error::Ioctl(e)),
        Op::Splice { .. } => Some(Error::SpliceError(e)),
        _ => None,
    }
}

/// Whether `o` is an outcome that the call `op` can have.
pub open spec fn answers(op: Op, o: Outcome) -> bool {
    match op {
        Op::Poll => o matches Outcome::Ready(t) && is_token(t),
        _ => o is Failed || match op {
            Op::CreatePipe => o is Piped,
            Op::OpenPidfile => o is Opened,
            Op::Fork => o is Forked,
            Op::PendingSize { .. } => o is Pending,
            _ => o is Done,
        },
    }
}

/// The descriptors once the outcome of setup step `index` is known.
pub open spec fn record(f: Fds, index: usize, o: Outcome) -> Fds {
    match o {
        Outcome::Piped(p) => if index == 0 {
            Fds { status: p, ..f }
        } else if index == 1 {
            Fds { out: p, ..f }
        } else {
            Fds { err: p, ..f }
        },
        Outcome::Opened(fd) => Fds { pid_file: fd, ..f },
        _ => f,
    }
}

/// Begin `stage` with its first call.
pub open spec fn enter(stage: Stage, f: Fds) -> (State, Action) {
    let op = plan(stage, f)[0];
    (State { stage, index: 0, op, fds: f }, Action::Perform(op))
}

/// Go on to the next call of the current stage.
pub open spec fn advance(s: State, f: Fds) -> (State, Action) {
    let op = plan(s.stage, f)[s.index + 1];
    (State { stage: s.stage, index: (s.index + 1) as usize, op, fds: f }, Action::Perform(op))
}

pub open spec fn over(s: State, a: Action) -> (State, Action) {
    (State { stage: Stage::Over, ..s }, a)
}

/// The next state and action, given the outcome of the awaited call.
pub open spec fn next(s: State, o: Outcome) -> (State, Action) {
    let last = s.index + 1 >= plan(s.stage, s.fds).len();
    if o is Failed && failure(s.op, o->Failed_0) is Some {
        over(s, Action::Fail(failure(s.op, o->Failed_0).unwrap()))
    } else {
        match s.stage {
            Stage::Setup => {
                let f = record(s.fds, s.index, o);
                if !last {
                    advance(s, f)
                } else if o->Forked_0 == 0 {
                    enter(Stage::Intermediate, f)
                } else {
                    enter(Stage::Parent, f)
                }
            },
            Stage::Intermediate => if !last {
                advance(s, s.fds)
            } else if o->Forked_0 == 0 {
                enter(Stage::Daemon, s.fds)
            } else {
                over(s, Action::Exit(0))
            },
            Stage::Daemon => if !last {
                advance(s, s.fds)
            } else {
                over(s, Action::Finish(s.fds.status.write))
            },
            Stage::Parent => if !last {
                advance(s, s.fds)
            } else {
                enter(Stage::Waiting, s.fds)
            },
            Stage::Waiting => {
                let t = o->Ready_0;
                let op = Op::PendingSize { fd: read_end(s.fds, t) };
                (State { stage: Stage::Relay(t), index: 0, op, fds: s.fds }, Action::Perform(op))
            },
            Stage::Relay(t) => if s.index == 0 {
                let op = Op::Splice {
                    fd: read_end(s.fds, t),
                    target: relay_target(t),
                    len: o->Pending_0,
                };
                (State { stage: s.stage, index: 1, op, fds: s.fds }, Action::Perform(op))
            } else if t == STATUS_TOKEN {
                enter(Stage::Closing, s.fds)
            } else {
                enter(Stage::Waiting, s.fds)
            },
            Stage::Closing => if !last {
                advance(s, s.fds)
            } else {
                over(s, Action::Exit(0))
            },
            Stage::Over => (s, Action::Exit(0)),
        }
    }
}

impl State {
    /// The awaited call is the one that the stage's plan has at this step.
    pub open spec fn wf(self) -> bool {
        match self.stage {
            Stage::Relay(t) => is_token(t) && (if self.index == 0 {
                self.op == Op::PendingSize { fd: read_end(self.fds, t) }
            } else {
                self.index == 1 && (self.op matches Op::Splice { fd, target, len }
                    && fd == read_end(self.fds, t) && target == relay_target(t))
            }),
            Stage::Over => true,
            _ => self.index < plan(self.stage, self.fds).len() && self.op == plan(
                self.stage,
                self.fds,
            )[self.index as int],
        }
    }
}


pub open spec fn initial_fds() -> Fds {
    let none = PipeEnds { read: -1i32, write: -1i32 };
    Fds { status: none, out: none, err: none, pid_file: -1i32 }
}

pub open spec fn initial_state() -> State {
    State { stage: Stage::Setup, index: 0, op: Op::CreatePipe, fds: initial_fds() }
}

fn plan_len(stage: Stage) -> (r: usize)
    ensures
        forall|f: Fds| r == #[trigger] plan(stage, f).len(),
{
    match stage {
        Stage::Setup => 5,
        Stage::Intermediate => 6,
        Stage::Daemon => 13,
        Stage::Parent => 9,
        Stage::Waiting => 1,
        Stage::Closing => 3,
        _ => 0,
    }
}

fn plan_op(stage: Stage, f: Fds, i: usize) -> (r: Op)
    requires
        i < plan(stage, f).len(),
    ensures
        r == plan(stage, f)[i as int],
{
    match stage {
        Stage::Setup => if i < 3 {
            Op::CreatePipe
        } else if i == 3 {
            Op::OpenPidfile
        } else {
            Op::Fork
        },
        Stage::Intermediate => match i {
            0 => Op::Redirect { fd: f.err.write, target: STDERR },
            1 => Op::Redirect { fd: f.out.write, target: STDOUT },
            2 => Op::ChangeDirectory,
            3 => Op::NewSession,
            4 => Op::SetUmask { mask: DAEMON_UMASK },
            _ => Op::Fork,
        },
        Stage::Daemon => match i {
            0 => Op::Close { fd: f.status.read },
            1 => Op::Close { fd: f.out.read },
            2 => Op::Close { fd: f.err.read },
            3 => Op::Close { fd: STDERR },
            4 => Op::Close { fd: STDIN },
            5 => Op::Close { fd: STDOUT },
            6 => Op::Redirect { fd: f.err.write, target: STDERR },
            7 => Op::Redirect { fd: f.out.write, target: STDOUT },
            8 => Op::SetGroup { gid: UNPRIVILEGED_ID },
            9 => Op::SetUser { uid: UNPRIVILEGED_ID },
            10 => Op::WritePid { fd: f.pid_file },
            11 => Op::Close { fd: f.err.write },
            _ => Op::Close { fd: f.out.write },
        },
        Stage::Parent => match i {
            0 => Op::Close { fd: f.status.write },
            1 => Op::Close { fd: f.out.write },
            2 => Op::Close { fd: f.err.write },
            3 => Op::NonBlocking { fd: f.out.read },
            4 => Op::NonBlocking { fd: f.err.read },
            5 => Op::NonBlocking { fd: f.status.read },
            6 => Op::Register { fd: f.out.read, token: STDOUT_TOKEN },
            7 => Op::Register { fd: f.err.read, token: STDERR_TOKEN },
            _ => Op::Register { fd: f.status.read, token: STATUS_TOKEN },
        },
        Stage::Waiting => Op::Poll,
        _ => match i {
            0 => Op::Close { fd: f.status.read },
            1 => Op::Close { fd: f.out.read },
            _ => Op::Close { fd: f.err.read },
        },
    }
}


fn failure_of(op: Op, e: i32) -> (r: Option<Error>)
    ensures
        r == failure(op, e),
{
    match op {
        Op::CreatePipe => Some(Error::Pipe(e)),
        Op::OpenPidfile => Some(Error::OpenPidfile(e)),
        Op::Fork => Some(Error::Fork(e)),
        Op::Redirect { .. } => Some(Error::Dup2(e)),
        Op::ChangeDirectory => Some(Error::ChangeDirectory(e)),
        Op::NewSession => Some(Error::DetachSession(e)),
        Op::WritePid { .. } => Some(Error::WritePid(e)),
        Op::NonBlocking { .. } => Some(Error::Fnctl(e)),
        Op::Register { .. } => Some(Error::RegistrationError(e)),
        Op::PendingSize { .. } => Some(Error::Ioctl(e)),
        Op::Splice { .. } => Some(Error::SpliceError(e)),
        _ => None,
    }
}

fn read_end_of(f: Fds, t: usize) -> (r: i32)
    ensures
        r == read_end(f, t),
{
    if t == STDOUT_TOKEN {
        f.out.read
    } else if t == STDERR_TOKEN {
        f.err.read
    } else {
        f.status.read
    }
}

fn relay_target_of(t: usize) -> (r: i32)
    ensures
        r == relay_target(t),
{
    if t == STDERR_TOKEN {
        STDERR
    } else {
        STDOUT
    }
}

fn record_of(f: Fds, index: usize, o: Outcome) -> (r: Fds)
    ensures
        r == record(f, index, o),
{
    match o {
        Outcome::Piped(p) => if index == 0 {
            Fds { status: p, ..f }
        } else if index == 1 {
            Fds { out: p, ..f }
        } else {
            Fds { err: p, ..f }
        },
        Outcome::Opened(fd) => Fds { pid_file: fd, ..f },
        _ => f,
    }
}

fn enter_stage(stage: Stage, f: Fds) -> (r: (State, Action))
    requires
        0 < plan(stage, f).len(),
    ensures
        r == enter(stage, f),
        r.0.wf(),
{
    let op = plan_op(stage, f, 0);
    (State { stage, index: 0, op, fds: f }, Action::Perform(op))
}

fn advance_step(s: State, f: Fds) -> (r: (State, Action))
    requires
        s.index + 1 < plan(s.stage, f).len(),
    ensures
        r == advance(s, f),
        r.0.wf(),
{
    let op = plan_op(s.stage, f, s.index + 1);
    (State { stage: s.stage, index: s.index + 1, op, fds: f }, Action::Perform(op))
}

/// The daemonization procedure, one system call at a time.
///
/// The caller makes the call that `pending` names, reports its outcome to
/// `step`, and does what the returned action says. After each fork every
/// process goes on with its own copy.
pub struct Daemonizer {
    path: Vec<u8>,
    state: State,
}

impl Daemonizer {
    pub closed spec fn state(&self) -> State {
        self.state
    }

    /// The pid file path.
    pub closed spec fn path(&self) -> Seq<u8> {
        self.path@
    }

    pub open spec fn wf(&self) -> bool {
        self.state().wf()
    }

    /// Fresh for the pid file at `path`: the first call is `pipe()`.
    pub open spec fn started(&self, path: Seq<u8>) -> bool {
        self.path() == path && self.state() == initial_state()
    }

    /// The call whose outcome is awaited.
    pub fn pending(&self) -> (r: Op)
        ensures
            r == self.state().op,
    {
        self.state.op
    }

    /// The stage that this process has reached.
    pub fn stage(&self) -> (r: Stage)
        ensures
            r == self.state().stage,
    {
        self.state.stage
    }

    /// The pid file path.
    pub fn pid_file(&self) -> (r: &[u8])
        ensures
            r@ == self.path(),
    {
        self.path.as_slice()
    }

    /// Whether `step` takes `outcome` now.
    pub fn accepts(&self, outcome: Outcome) -> (r: bool)
        ensures
            r == (self.state().stage != Stage::Over && answers(self.state().op, outcome)),
    {
        if let Stage::Over = self.state.stage {
            return false;
        }
        match self.state.op {
            Op::Poll => match outcome {
                Outcome::Ready(t) => t == STDOUT_TOKEN || t == STDERR_TOKEN || t == STATUS_TOKEN,
                _ => false,
            },
            op => match outcome {
                Outcome::Failed(_) => true,
                Outcome::Piped(_) => matches!(op, Op::CreatePipe),
                Outcome::Opened(_) => matches!(op, Op::OpenPidfile),
                Outcome::Forked(_) => matches!(op, Op::Fork),
                Outcome::Pending(_) => matches!(op, Op::PendingSize { .. }),
                Outcome::Done => match op {
                    Op::CreatePipe | Op::OpenPidfile | Op::Fork | Op::PendingSize { .. } => false,
                    _ => true,
                },
                Outcome::Ready(_) => false,
            },
        }
    }

    /// Takes the outcome of the awaited call and says what to do next.
    pub fn step(&mut self, outcome: Outcome) -> (r: Action)
        requires
            old(self).wf(),
            old(self).state().stage != Stage::Over,
            answers(old(self).state().op, outcome),
        ensures
            final(self).wf(),
            final(self).path() == old(self).path(),
            (final(self).state(), r) == next(old(self).state(), outcome),
    {
        let s = self.state;
        if let Outcome::Failed(e) = outcome {
            if let Some(err) = failure_of(s.op, e) {
                self.state = State { stage: Stage::Over, ..s };
                return Action::Fail(err);
            }
        }
        let last = s.index + 1 >= plan_len(s.stage);
        let (state, action) = match s.stage {
            Stage::Setup => {
                let f = record_of(s.fds, s.index, outcome);
                if !last {
                    advance_step(s, f)
                } else if let Outcome::Forked(0) = outcome {
                    enter_stage(Stage::Intermediate, f)
                } else {
                    enter_stage(Stage::Parent, f)
                }
            },
            Stage::Intermediate => if !last {
                advance_step(s, s.fds)
            } else if let Outcome::Forked(0) = outcome {
                enter_stage(Stage::Daemon, s.fds)
            } else {
                (State { stage: Stage::Over, ..s }, Action::Exit(0))
            },
            Stage::Daemon => if !last {
                advance_step(s, s.fds)
            } else {
                (State { stage: Stage::Over, ..s }, Action::Finish(s.fds.status.write))
            },
            Stage::Parent => if !last {
                advance_step(s, s.fds)
            } else {
                enter_stage(Stage::Waiting, s.fds)
            },
            Stage::Waiting => {
                let t = match outcome {
                    Outcome::Ready(t) => t,
                    _ => STATUS_TOKEN,
                };
                let op = Op::PendingSize { fd: read_end_of(s.fds, t) };
                (State { stage: Stage::Relay(t), index: 0, op, fds: s.fds }, Action::Perform(op))
            },
            Stage::Relay(t) => if s.index == 0 {
                let len = match outcome {
                    Outcome::Pending(n) => n,
                    _ => 0,
                };
                let op = Op::Splice { fd: read_end_of(s.fds, t), target: relay_target_of(t), len };
                (State { stage: s.stage, index: 1, op, fds: s.fds }, Action::Perform(op))
            } else if t == STATUS_TOKEN {
                enter_stage(Stage::Closing, s.fds)
            } else {
                enter_stage(Stage::Waiting, s.fds)
            },
            Stage::Closing => if !last {
                advance_step(s, s.fds)
            } else {
                (State { stage: Stage::Over, ..s }, Action::Exit(0))
            },
            Stage::Over => (s, Action::Exit(0)),
        };
        self.state = state;
        action
    }
}

/// Starts the procedure for the pid file at `pid_file`; fails with
/// `PathContainsNul` exactly when the path holds a NUL byte.
pub fn daemonize(pid_file: &[u8]) -> (r: Result<Daemonizer, Error>)
    ensures
        match r {
            Ok(d) => !pid_file@.contains(0u8) && d.started(pid_file@) && d.wf(),
            Err(e) => pid_file@.contains(0u8) && e == Error::PathContainsNul,
        },
{
    let mut i: usize = 0;
    while i < pid_file.len()
        invariant
            i <= pid_file@.len(),
            forall|j: int| 0 <= j < i ==> pid_file@[j] != 0u8,
        decreases pid_file@.len() - i,
    {
        if pid_file[i] == 0u8 {
            return Err(Error::PathContainsNul);
        }
        i = i + 1;
    }
    let none = PipeEnds { read: -1i32, write: -1i32 };
    let fds = Fds { status: none, out: none, err: none, pid_file: -1 };
    let d = Daemonizer {
        path: slice_to_vec(pid_file),
        state: State { stage: Stage::Setup, index: 0, op: Op::CreatePipe, fds },
    };
    assert(!pid_file@.contains(0u8));
    Ok(d)
}


/// What the daemon does to detach: point its standard output and error at
/// the null device, write `message` to `status_fd`, then close it.
#[derive(Debug)]
pub struct Detachment {
    pub status_fd: i32,
    pub message: Vec<u8>,
}

/// The message that the original process prints on a plain `detach`.
pub const STARTED: &'static str = "Daemon started successfully, detaching ...\n";

pub open spec fn started_text() -> Seq<u8> {
    STARTED.spec_bytes()
}

/// The daemon's end of the status pipe, held until it detaches.
pub struct Handle {
    pub status: Option<i32>,
}

impl AsHandle for Handle {
    type Fd = i32;

    open spec fn detachable(&self) -> bool {
        self.status is Some
    }

    open spec fn status_fd(&self) -> Option<i32> {
        self.status
    }

    open spec fn holds(&self, fd: i32) -> bool {
        self.status == Some(fd)
    }

    fn from_fd(fd: i32) -> (r: Self) {
        Handle { status: Some(fd) }
    }

    fn detach(&mut self) -> (r: Option<Detachment>) {
        let msg = paint_green(STARTED.as_bytes());
        self.detach_with_msg(msg.as_slice())
    }

    fn detach_with_msg(&mut self, msg: &[u8]) -> (r: Option<Detachment>) {
        match self.status.take() {
            Some(fd) => Some(Detachment { status_fd: fd, message: slice_to_vec(msg) }),
            None => None,
        }
    }
}


/// Every exit that the procedure orders has code 0, and comes either to the
/// first child once it has forked the daemon, or to the original process
/// once it is closing its pipes; and the original process starts closing
/// only right after it has relayed what the status pipe held.
pub proof fn lemma_exit_after_status(s: State, o: Outcome)
    requires
        s.wf(),
        s.stage != Stage::Over,
        answers(s.op, o),
    ensures
        next(s, o).1 matches Action::Exit(c) ==> c == 0 && (s.stage == Stage::Intermediate
            || s.stage == Stage::Closing),
        next(s, o).0.stage == Stage::Closing && s.stage != Stage::Closing ==> s.stage
            == Stage::Relay(STATUS_TOKEN) && (s.op matches Op::Splice { fd, target, len } && fd
            == s.fds.status.read && target == STDOUT),
{
}

/// Bytes are relayed only from a read end to its own stream: the output
/// relay to standard output, the error relay to standard error, the status
/// pipe to standard output; and exactly as many bytes as the pipe was
/// reported to hold. Each readable pipe is asked for its byte count, and
/// after relaying from an output pipe without error the process waits again.
pub proof fn lemma_relay_routes(s: State, o: Outcome)
    requires
        s.wf(),
        s.stage != Stage::Over,
        answers(s.op, o),
    ensures
        next(s, o).1 matches Action::Perform(Op::Splice { fd, target, len }) ==> o == Outcome::Pending(
            len,
        ) && ((fd == s.fds.out.read && target == STDOUT) || (fd == s.fds.err.read && target
            == STDERR) || (fd == s.fds.status.read && target == STDOUT)),
        s.stage == Stage::Waiting ==> next(s, o).1 == Action::Perform(
            Op::PendingSize { fd: read_end(s.fds, o->Ready_0) },
        ),
        s.stage matches Stage::Relay(t) && t != STATUS_TOKEN && s.index == 1 && o == Outcome::Done
            ==> next(s, o).1
            == Action::Perform(Op::Poll),
{
}

/// The daemon writes its ID exactly once, to the pid file opened before the
/// first fork.
pub proof fn lemma_pid_written_once(f: Fds)
    ensures
        daemon_ops(f)[10] == (Op::WritePid { fd: f.pid_file }),
        forall|i: int| 0 <= i < daemon_ops(f).len() && (#[trigger] daemon_ops(f)[i]) is WritePid ==> i
            == 10,
{
}

/// A handle that has detached is no longer detachable: a second detach is
/// refused by the contract of `detach` and `detach_with_msg`.
pub proof fn lemma_detach_consumes(h: Handle)
    requires
        h.status_fd() is None,
    ensures
        !h.detachable(),
{
}


/// The state reached and the actions given when the outcomes `os` are
/// reported in turn, starting from `s`.
pub open spec fn run(s: State, os: Seq<Outcome>) -> (State, Seq<Action>)
    decreases os.len(),
{
    if os.len() == 0 {
        (s, Seq::empty())
    } else {
        let (t, acts) = run(s, os.drop_last());
        let (u, a) = next(t, os.last());
        (u, acts.push(a))
    }
}

/// Each outcome in `os` is one that `step` takes at that point.
pub open spec fn valid_run(s: State, os: Seq<Outcome>) -> bool
    decreases os.len(),
{
    if os.len() == 0 {
        true
    } else {
        let t = run(s, os.drop_last()).0;
        valid_run(s, os.drop_last()) && t.stage != Stage::Over && answers(t.op, os.last())
    }
}

/// The action relays what the status pipe of `f` holds to standard output.
pub open spec fn relays_status(a: Action, f: Fds) -> bool {
    a matches Action::Perform(Op::Splice { fd, target, len }) && fd == f.status.read && target
        == STDOUT
}

pub open spec fn exit_ok(os: Seq<Outcome>, acts: Seq<Action>, f: Fds, k: int) -> bool {
    acts[k]->Exit_0 == 0 && (os[k] is Forked || exists|j: int|
        0 <= j < k && relays_status(#[trigger] acts[j], f))
}

proof fn lemma_run_invariant(os: Seq<Outcome>)
    requires
        valid_run(initial_state(), os),
    ensures
        ({
            let (t, acts) = run(initial_state(), os);
            &&& t.wf()
            &&& acts.len() == os.len()
            &&& t.stage != Stage::Over && acts.len() > 0 ==> acts.last() == Action::Perform(t.op)
            &&& t.stage == Stage::Closing ==> exists|j: int|
                0 <= j < acts.len() && relays_status(#[trigger] acts[j], t.fds)
            &&& forall|k: int|
                0 <= k < acts.len() && #[trigger] acts[k] is Exit ==> k == acts.len() - 1
                    && t.stage == Stage::Over && exit_ok(os, acts, t.fds, k)
        }),
    decreases os.len(),
{
    if os.len() > 0 {
        let p = os.drop_last();
        lemma_run_invariant(p);
        let (t, acts_p) = run(initial_state(), p);
        let o = os.last();
        lemma_exit_after_status(t, o);
        let (u, a) = next(t, o);
        let acts = acts_p.push(a);
        assert(run(initial_state(), os) == (u, acts));
        assert forall|j: int| 0 <= j < acts_p.len() implies acts[j] == acts_p[j] by {}
        if u.stage == Stage::Closing {
            if t.stage == Stage::Closing {
                let j = choose|j: int| 0 <= j < acts_p.len() && relays_status(#[trigger] acts_p[j], t.fds);
                assert(relays_status(acts[j], u.fds));
            } else {
                let j = acts_p.len() - 1;
                assert(relays_status(acts[j], u.fds));
            }
        }
        if a is Exit {
            let k = acts.len() - 1;
            assert(os[k] == o);
            if t.stage == Stage::Closing {
                let j = choose|j: int| 0 <= j < acts_p.len() && relays_status(#[trigger] acts_p[j], t.fds);
                assert(relays_status(acts[j], u.fds));
            }
            assert(exit_ok(os, acts, u.fds, k));
        }
        assert forall|k: int|
            0 <= k < acts.len() && #[trigger] acts[k] is Exit implies k == acts.len() - 1
                && u.stage == Stage::Over && exit_ok(os, acts, u.fds, k) by {
            if k < acts.len() - 1 {
                assert(acts[k] == acts_p[k]);
            }
        }
    }
}

/// In any run from the start, an exit ends the run and has code 0; and it
/// either answers the second fork of the first child, or comes after the
/// original process relayed what the status pipe held to standard output.
/// So the original process stays in its relay loop until the status pipe
/// has been read.
pub proof fn lemma_run_exits_after_status(os: Seq<Outcome>)
    requires
        valid_run(initial_state(), os),
    ensures
        ({
            let (t, acts) = run(initial_state(), os);
            &&& acts.len() == os.len()
            &&& forall|k: int|
                0 <= k < acts.len() && #[trigger] acts[k] is Exit ==> k == acts.len() - 1
                    && acts[k]->Exit_0 == 0 && (os[k] is Forked || exists|j: int|
                    0 <= j < k && relays_status(#[trigger] acts[j], t.fds))
        }),
{
    lemma_run_invariant(os);
}


/// Only the daemon gets the status pipe's write end, and a process becomes
/// the daemon only as the child of the first child: the first fork and the
/// second both returned 0 in it. A non-zero first fork result makes the
/// original process, which relays and never becomes the daemon.
pub proof fn lemma_daemon_after_two_forks(s: State, o: Outcome)
    requires
        s.wf(),
        s.stage != Stage::Over,
        answers(s.op, o),
    ensures
        next(s, o).1 matches Action::Finish(fd) ==> s.stage == Stage::Daemon && fd
            == s.fds.status.write,
        next(s, o).0.stage == Stage::Daemon && s.stage != Stage::Daemon ==> s.stage
            == Stage::Intermediate && o == Outcome::Forked(0),
        next(s, o).0.stage == Stage::Intermediate && s.stage != Stage::Intermediate ==> s.stage
            == Stage::Setup && o == Outcome::Forked(0),
        next(s, o).0.stage == Stage::Parent && s.stage != Stage::Parent ==> s.stage == Stage::Setup
            && (o matches Outcome::Forked(p) && p != 0),
        s.stage == Stage::Daemon && next(s, o).0.stage != Stage::Daemon ==> next(s, o).0.stage
            == Stage::Over,
{
}

} // verus!
