use vstd::prelude::*;

use crate::error::Error;
use crate::platform::linux::Detachment;
use crate::style::paint_green;
use crate::AsHandle;

verus! {

/// The handle of a platform that cannot daemonize: detaching does nothing.
pub struct Handle;

impl AsHandle for Handle {
    type Fd = ();

    open spec fn detachable(&self) -> bool {
        true
    }

    open spec fn status_fd(&self) -> Option<i32> {
        None
    }

    open spec fn holds(&self, fd: ()) -> bool {
        true
    }

    fn from_fd(_fd: ()) -> (r: Self) {
        Handle
    }

    fn detach(&mut self) -> (r: Option<Detachment>) {
        let msg = paint_green("Only Linux daemons are supported, this has no effect\n".as_bytes());
        self.detach_with_msg(msg.as_slice())
    }

    fn detach_with_msg(&mut self, _msg: &[u8]) -> (r: Option<Detachment>) {
        None
    }
}

/// Daemonizing is not supported here: always fails with `UnsupportedPlatform`.
pub fn daemonize(_pid_file: &[u8]) -> (r: Result<Handle, Error>)
    ensures
        r matches Err(e) && e == Error::UnsupportedPlatform,
{
    Err(Error::UnsupportedPlatform)
}

} // verus!
