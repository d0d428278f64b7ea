//! Turning a running process into a daemon.
//!
//! The process forks twice; until the daemon reports that it is ready, the
//! original process stays in the foreground and relays the daemon's
//! standard output and error through pipes. The library decides every step
//! of that procedure; the system calls themselves are made by the caller,
//! who reports each outcome back (see [`platform::linux::Daemonizer`]).

use vstd::prelude::*;

pub mod error;
pub mod pid;
pub mod platform;
pub mod style;

pub use error::Error;
pub use platform::linux::{Daemonizer, Detachment, Handle};

verus! {

/// Handle given to the daemon process.
///
/// Until the daemon detaches, its standard output and error are relayed to
/// the original process, so that start-up failures reach the invoker.
pub trait AsHandle: Sized {
    /// File descriptor type.
    type Fd;

    /// Whether a detach may still be asked of this handle.
    spec fn detachable(&self) -> bool;

    /// The status pipe descriptor that this handle still owns, if any.
    spec fn status_fd(&self) -> Option<i32>;

    /// Whether this handle wraps `fd`.
    spec fn holds(&self, fd: Self::Fd) -> bool;

    /// Creates a handle from the write end of the status pipe.
    fn from_fd(fd: Self::Fd) -> (r: Self)
        ensures
            r.detachable(),
            r.holds(fd),
    ;

    /// Detaches with the default start-up message, shown in green.
    fn detach(&mut self) -> (r: Option<Detachment>)
        requires
            old(self).detachable(),
        ensures
            final(self).status_fd() is None,
            match r {
                Some(d) => old(self).status_fd() == Some(d.status_fd)
                    && d.message@ == style::green(platform::linux::started_text()),
                None => old(self).status_fd() is None,
            },
    ;

    /// Detaches with `msg` as the message that the original process prints.
    ///
    /// The result says what is left to do: point standard output and error
    /// at the null device, write the message to the status pipe, close it.
    fn detach_with_msg(&mut self, msg: &[u8]) -> (r: Option<Detachment>)
        requires
            old(self).detachable(),
        ensures
            final(self).status_fd() is None,
            match r {
                Some(d) => old(self).status_fd() == Some(d.status_fd) && d.message@ == msg@,
                None => old(self).status_fd() is None,
            },
    ;
}

/// Where the procedure runs.
#[derive(Debug, Clone, Copy, PartialEq, Eq, Structural)]
pub enum Platform {
    /// A Linux system: the procedure is available.
    Linux,
    /// Any other system: the procedure is not available.
    Other,
}

/// Starts daemonizing with the pid file at `pid_file`.
///
/// On a platform other than Linux this fails with `UnsupportedPlatform`;
/// a path with a NUL byte fails with `PathContainsNul`. Both happen before
/// any pipe, file or process is created. Otherwise the result is the
/// procedure, which asks for its first system call.
pub fn daemonize(pid_file: &[u8], platform: Platform) -> (r: Result<Daemonizer, Error>)
    ensures
        platform == Platform::Other ==> r == Err::<Daemonizer, Error>(Error::UnsupportedPlatform),
        platform == Platform::Linux ==> match r {
            Ok(d) => !pid_file@.contains(0u8) && d.started(pid_file@),
            Err(e) => pid_file@.contains(0u8) && e == Error::PathContainsNul,
        },
{
    match platform {
        Platform::Other => match platform::unsupported::daemonize(pid_file) {
            Ok(_) => Err(Error::UnsupportedPlatform),
            Err(e) => Err(e),
        },
        Platform::Linux => platform::linux::daemonize(pid_file),
    }
}

} // verus!
