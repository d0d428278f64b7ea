use vstd::prelude::*;

verus! {

/// Why daemonization failed.
///
/// Each variant that stands for a failed system call carries the OS error
/// number that was reported right after the call.
#[derive(Debug, Clone, Copy, PartialEq, Eq, Structural)]
pub enum Error {
    /// `fork` failed.
    Fork(i32),
    /// `pipe` failed.
    Pipe(i32),
    /// Reading or setting a descriptor's flags failed.
    Fnctl(i32),
    /// `dup2` failed.
    Dup2(i32),
    /// Asking how many bytes a pipe holds failed.
    Ioctl(i32),
    /// The pid file could not be opened or created.
    OpenPidfile(i32),
    /// The daemon's process ID could not be written to the pid file.
    WritePid(i32),
    /// The working directory could not be changed to `/`.
    ChangeDirectory(i32),
    /// A new session could not be started.
    DetachSession(i32),
    /// The pid file path holds a NUL byte.
    PathContainsNul,
    /// A pipe could not be registered with the poller.
    RegistrationError(i32),
    /// Moving bytes from a pipe to an output stream failed.
    SpliceError(i32),
    /// This platform cannot daemonize a process this way.
    UnsupportedPlatform,
}

} // verus!
