use daemonize_rs::pid::pid_text;
use daemonize_rs::platform::linux::{
    Action, Op, Outcome, PipeEnds, Stage, DAEMON_UMASK, STATUS_TOKEN, STDERR, STDERR_TOKEN, STDIN,
    STDOUT, STDOUT_TOKEN, UNPRIVILEGED_ID,
};
use daemonize_rs::platform::unsupported;
use daemonize_rs::{daemonize, AsHandle, Daemonizer, Error, Handle, Platform};

const STATUS: PipeEnds = PipeEnds { read: 3, write: 4 };
const OUT: PipeEnds = PipeEnds { read: 5, write: 6 };
const ERR: PipeEnds = PipeEnds { read: 7, write: 8 };
const PID_FD: i32 = 9;

fn feed(d: &mut Daemonizer, o: Outcome) -> Action {
    assert!(d.accepts(o));
    d.step(o)
}

/// Runs the calls before the first fork; returns the action after the fork.
fn through_setup(d: &mut Daemonizer, fork: i32) -> Action {
    assert_eq!(d.pending(), Op::CreatePipe);
    assert_eq!(feed(d, Outcome::Piped(STATUS)), Action::Perform(Op::CreatePipe));
    assert_eq!(feed(d, Outcome::Piped(OUT)), Action::Perform(Op::CreatePipe));
    assert_eq!(feed(d, Outcome::Piped(ERR)), Action::Perform(Op::OpenPidfile));
    assert_eq!(feed(d, Outcome::Opened(PID_FD)), Action::Perform(Op::Fork));
    feed(d, Outcome::Forked(fork))
}

fn started() -> Daemonizer {
    match daemonize(b"/tmp/daemon.pid", Platform::Linux) {
        Ok(d) => d,
        Err(e) => panic!("unexpected error {:?}", e),
    }
}

/// Answers `Done` to every call while the action is `Perform`; returns the
/// calls made and the first other action.
fn run_done(d: &mut Daemonizer, first: Action) -> (Vec<Op>, Action) {
    let mut ops = Vec::new();
    let mut a = first;
    while let Action::Perform(op) = a {
        if op == Op::Poll || op == Op::Fork {
            return (ops, a);
        }
        ops.push(op);
        a = feed(d, Outcome::Done);
    }
    (ops, a)
}

#[test]
fn unsupported_platform_fails_before_anything() {
    let r = daemonize(b"pid_file", Platform::Other);
    assert!(matches!(r, Err(Error::UnsupportedPlatform)));
    assert!(matches!(unsupported::daemonize(b"pid_file"), Err(Error::UnsupportedPlatform)));
}

#[test]
fn nul_in_path_is_refused() {
    let r = daemonize(b"pid\0file", Platform::Linux);
    assert!(matches!(r, Err(Error::PathContainsNul)));
    let r = daemonize(b"\0", Platform::Linux);
    assert!(matches!(r, Err(Error::PathContainsNul)));
}

#[test]
fn fresh_procedure_asks_for_a_pipe() {
    let d = started();
    assert_eq!(d.pending(), Op::CreatePipe);
    assert_eq!(d.stage(), Stage::Setup);
    assert_eq!(d.pid_file(), b"/tmp/daemon.pid");
    let empty = daemonize(b"", Platform::Linux);
    assert!(empty.is_ok());
}

#[test]
fn pid_text_is_decimal() {
    assert_eq!(pid_text(0), b"0".to_vec());
    assert_eq!(pid_text(7), b"7".to_vec());
    assert_eq!(pid_text(42), b"42".to_vec());
    assert_eq!(pid_text(10), b"10".to_vec());
    assert_eq!(pid_text(4294967295), b"4294967295".to_vec());
}

#[test]
fn pid_text_reads_back() {
    for pid in [1u32, 9, 10, 99, 100, 12345, 65536, 4194304] {
        let text = String::from_utf8(pid_text(pid)).unwrap();
        assert_eq!(text.parse::<u32>().unwrap(), pid);
    }
}

#[test]
fn first_child_detaches_and_forks_the_daemon() {
    let mut d = started();
    let a = through_setup(&mut d, 0);
    assert_eq!(d.stage(), Stage::Intermediate);
    let (ops, a) = run_done(&mut d, a);
    assert_eq!(
        ops,
        vec![
            Op::Redirect { fd: ERR.write, target: STDERR },
            Op::Redirect { fd: OUT.write, target: STDOUT },
            Op::ChangeDirectory,
            Op::NewSession,
            Op::SetUmask { mask: DAEMON_UMASK },
        ]
    );
    assert_eq!(a, Action::Perform(Op::Fork));
    assert_eq!(DAEMON_UMASK, 0o027);
}

#[test]
fn first_child_exits_zero_after_second_fork() {
    let mut d = started();
    let a = through_setup(&mut d, 0);
    let (_, a) = run_done(&mut d, a);
    assert_eq!(a, Action::Perform(Op::Fork));
    assert_eq!(feed(&mut d, Outcome::Forked(4321)), Action::Exit(0));
    assert_eq!(d.stage(), Stage::Over);
    assert!(!d.accepts(Outcome::Done));
}

#[test]
fn daemon_sets_itself_up_and_gets_the_status_pipe() {
    let mut d = started();
    let a = through_setup(&mut d, 0);
    let (_, a) = run_done(&mut d, a);
    assert_eq!(a, Action::Perform(Op::Fork));
    let a = feed(&mut d, Outcome::Forked(0));
    assert_eq!(d.stage(), Stage::Daemon);
    let (ops, a) = run_done(&mut d, a);
    assert_eq!(
        ops,
        vec![
            Op::Close { fd: STATUS.read },
            Op::Close { fd: OUT.read },
            Op::Close { fd: ERR.read },
            Op::Close { fd: STDERR },
            Op::Close { fd: STDIN },
            Op::Close { fd: STDOUT },
            Op::Redirect { fd: ERR.write, target: STDERR },
            Op::Redirect { fd: OUT.write, target: STDOUT },
            Op::SetGroup { gid: UNPRIVILEGED_ID },
            Op::SetUser { uid: UNPRIVILEGED_ID },
            Op::WritePid { fd: PID_FD },
            Op::Close { fd: ERR.write },
            Op::Close { fd: OUT.write },
        ]
    );
    assert_eq!(UNPRIVILEGED_ID, u32::MAX - 1);
    assert_eq!(a, Action::Finish(STATUS.write));
}

#[test]
fn failed_close_in_daemon_is_ignored() {
    let mut d = started();
    let a = through_setup(&mut d, 0);
    let (_, _) = run_done(&mut d, a);
    let a = feed(&mut d, Outcome::Forked(0));
    assert_eq!(a, Action::Perform(Op::Close { fd: STATUS.read }));
    assert_eq!(feed(&mut d, Outcome::Failed(9)), Action::Perform(Op::Close { fd: OUT.read }));
}

/// Drives the original process up to its first wait.
fn parent_waiting() -> Daemonizer {
    let mut d = started();
    let a = through_setup(&mut d, 1000);
    assert_eq!(d.stage(), Stage::Parent);
    let (ops, a) = run_done(&mut d, a);
    assert_eq!(
        ops,
        vec![
            Op::Close { fd: STATUS.write },
            Op::Close { fd: OUT.write },
            Op::Close { fd: ERR.write },
            Op::NonBlocking { fd: OUT.read },
            Op::NonBlocking { fd: ERR.read },
            Op::NonBlocking { fd: STATUS.read },
            Op::Register { fd: OUT.read, token: STDOUT_TOKEN },
            Op::Register { fd: ERR.read, token: STDERR_TOKEN },
            Op::Register { fd: STATUS.read, token: STATUS_TOKEN },
        ]
    );
    assert_eq!(a, Action::Perform(Op::Poll));
    assert_eq!(d.stage(), Stage::Waiting);
    d
}

#[test]
fn parent_relays_output_then_exits_zero_on_status() {
    let mut d = parent_waiting();
    assert!(!d.accepts(Outcome::Ready(2)));
    assert!(!d.accepts(Outcome::Failed(4)));

    let a = feed(&mut d, Outcome::Ready(STDOUT_TOKEN));
    assert_eq!(a, Action::Perform(Op::PendingSize { fd: OUT.read }));
    let a = feed(&mut d, Outcome::Pending(9));
    assert_eq!(a, Action::Perform(Op::Splice { fd: OUT.read, target: STDOUT, len: 9 }));
    assert_eq!(feed(&mut d, Outcome::Done), Action::Perform(Op::Poll));

    let a = feed(&mut d, Outcome::Ready(STDERR_TOKEN));
    assert_eq!(a, Action::Perform(Op::PendingSize { fd: ERR.read }));
    let a = feed(&mut d, Outcome::Pending(3));
    assert_eq!(a, Action::Perform(Op::Splice { fd: ERR.read, target: STDERR, len: 3 }));
    assert_eq!(feed(&mut d, Outcome::Done), Action::Perform(Op::Poll));

    let a = feed(&mut d, Outcome::Ready(STATUS_TOKEN));
    assert_eq!(a, Action::Perform(Op::PendingSize { fd: STATUS.read }));
    let a = feed(&mut d, Outcome::Pending(46));
    assert_eq!(a, Action::Perform(Op::Splice { fd: STATUS.read, target: STDOUT, len: 46 }));
    let a = feed(&mut d, Outcome::Done);
    assert_eq!(d.stage(), Stage::Closing);
    let (ops, a) = run_done(&mut d, a);
    assert_eq!(
        ops,
        vec![Op::Close { fd: STATUS.read }, Op::Close { fd: OUT.read }, Op::Close { fd: ERR.read }]
    );
    assert_eq!(a, Action::Exit(0));
}

#[test]
fn error_pipe() {
    let mut d = started();
    assert_eq!(feed(&mut d, Outcome::Failed(24)), Action::Fail(Error::Pipe(24)));
    assert_eq!(d.stage(), Stage::Over);
}

#[test]
fn error_open_pidfile() {
    let mut d = started();
    feed(&mut d, Outcome::Piped(STATUS));
    feed(&mut d, Outcome::Piped(OUT));
    feed(&mut d, Outcome::Piped(ERR));
    assert_eq!(feed(&mut d, Outcome::Failed(13)), Action::Fail(Error::OpenPidfile(13)));
}

#[test]
fn error_fork() {
    let mut d = started();
    for p in [STATUS, OUT, ERR] {
        feed(&mut d, Outcome::Piped(p));
    }
    feed(&mut d, Outcome::Opened(PID_FD));
    assert_eq!(feed(&mut d, Outcome::Failed(11)), Action::Fail(Error::Fork(11)));
}

#[test]
fn errors_of_first_child() {
    let mut d = started();
    through_setup(&mut d, 0);
    assert_eq!(feed(&mut d, Outcome::Failed(9)), Action::Fail(Error::Dup2(9)));

    let mut d = started();
    through_setup(&mut d, 0);
    feed(&mut d, Outcome::Done);
    feed(&mut d, Outcome::Done);
    assert_eq!(feed(&mut d, Outcome::Failed(2)), Action::Fail(Error::ChangeDirectory(2)));

    let mut d = started();
    through_setup(&mut d, 0);
    for _ in 0..3 {
        feed(&mut d, Outcome::Done);
    }
    assert_eq!(feed(&mut d, Outcome::Failed(1)), Action::Fail(Error::DetachSession(1)));

    let mut d = started();
    through_setup(&mut d, 0);
    for _ in 0..5 {
        feed(&mut d, Outcome::Done);
    }
    assert_eq!(feed(&mut d, Outcome::Failed(11)), Action::Fail(Error::Fork(11)));
}

#[test]
fn error_write_pid() {
    let mut d = started();
    through_setup(&mut d, 0);
    for _ in 0..5 {
        feed(&mut d, Outcome::Done);
    }
    feed(&mut d, Outcome::Forked(0));
    for _ in 0..10 {
        feed(&mut d, Outcome::Done);
    }
    assert_eq!(d.pending(), Op::WritePid { fd: PID_FD });
    assert_eq!(feed(&mut d, Outcome::Failed(28)), Action::Fail(Error::WritePid(28)));
}

#[test]
fn errors_of_parent_setup() {
    let mut d = started();
    through_setup(&mut d, 77);
    for _ in 0..3 {
        feed(&mut d, Outcome::Done);
    }
    assert_eq!(feed(&mut d, Outcome::Failed(9)), Action::Fail(Error::Fnctl(9)));

    let mut d = started();
    through_setup(&mut d, 77);
    for _ in 0..6 {
        feed(&mut d, Outcome::Done);
    }
    assert_eq!(feed(&mut d, Outcome::Failed(17)), Action::Fail(Error::RegistrationError(17)));
}

#[test]
fn errors_of_relay() {
    let mut d = parent_waiting();
    feed(&mut d, Outcome::Ready(STDOUT_TOKEN));
    assert_eq!(feed(&mut d, Outcome::Failed(25)), Action::Fail(Error::Ioctl(25)));

    let mut d = parent_waiting();
    feed(&mut d, Outcome::Ready(STDERR_TOKEN));
    feed(&mut d, Outcome::Pending(5));
    assert_eq!(feed(&mut d, Outcome::Failed(32)), Action::Fail(Error::SpliceError(32)));
}

#[test]
fn detach_with_msg_hands_over_the_message_once() {
    let mut h = Handle::from_fd(12);
    let r = h.detach_with_msg(b"count has reached 5, continuing in background");
    let d = r.expect("first detach acts");
    assert_eq!(d.status_fd, 12);
    assert_eq!(d.message, b"count has reached 5, continuing in background".to_vec());
    assert_eq!(h.status, None);
    assert!(h.detach_with_msg(b"again").is_none());
}

#[test]
fn detach_sends_green_start_message() {
    let mut h = Handle::from_fd(5);
    let d = h.detach().expect("first detach acts");
    assert_eq!(d.status_fd, 5);
    assert_eq!(
        d.message,
        b"\x1b[32mDaemon started successfully, detaching ...\n\x1b[0m".to_vec()
    );
    assert!(h.detach().is_none());
}

#[test]
fn stub_handle_does_nothing() {
    let mut h = unsupported::Handle::from_fd(());
    assert!(h.detach().is_none());
    assert!(h.detach_with_msg(b"x").is_none());
}

#[test]
fn from_fd_keeps_the_descriptor() {
    let h = Handle::from_fd(7);
    assert_eq!(h.status, Some(7));
    let h = Handle::from_fd(31);
    assert_eq!(h.status, Some(31));
}
