//! The identity of the running process.

use vstd::prelude::*;
use crate::error::Error;

verus! {

/// The process identifier of the init process.
pub const INIT_PID: i32 = 1;

/// Succeeds if and only if the process identifier is that of the init
/// process.
pub fn ensure_running_as_init_system(pid: i32) -> (result: Result<(), Error>)
    ensures
        pid == INIT_PID ==> result == Ok::<(), Error>(()),
        pid != INIT_PID ==> result == Err::<(), Error>(Error::NotRunningAsInitSystem),
{
    if pid == INIT_PID {
        Ok(())
    } else {
        Err(Error::NotRunningAsInitSystem)
    }
}

} // verus!
