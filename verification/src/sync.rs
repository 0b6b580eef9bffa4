//! Fences and semaphores.

use vstd::prelude::*;
use crate::device::{native_result, DeviceError};
use crate::native;

verus! {

/// A semaphore without a payload. A submission that waits on it arms it
/// again.
#[derive(Clone, Copy, Debug, PartialEq, Eq, Structural)]
pub struct BinarySemaphore {
    pub handle: u64,
}

/// A semaphore with a counter that its users keep rising.
#[derive(Clone, Copy, Debug, PartialEq, Eq, Structural)]
pub struct TimelineSemaphore {
    pub handle: u64,
}

/// A fence, which the host waits for.
#[derive(Clone, Copy, Debug, PartialEq, Eq, Structural)]
pub struct Fence {
    pub handle: u64,
}

/// Nanoseconds in a millisecond.
pub const NANOSECONDS_PER_MILLISECOND: u64 = 1_000_000;

/// A time in milliseconds as nanoseconds, and the longest time there is
/// where the nanoseconds do not fit.
pub open spec fn nanoseconds(milliseconds: u64) -> u64 {
    if milliseconds * NANOSECONDS_PER_MILLISECOND <= u64::MAX {
        (milliseconds * NANOSECONDS_PER_MILLISECOND) as u64
    } else {
        u64::MAX
    }
}

impl Fence {
    /// The wait that begins `wait_reset`: for this fence, for at most
    /// `timeout` milliseconds.
    pub fn wait_reset(&self, timeout: u64) -> (wait: native::WaitForFence)
        ensures
            wait.fence == self.handle,
            wait.timeout == nanoseconds(timeout),
    {
        native::WaitForFence {
            fence: self.handle,
            timeout: if timeout <= u64::MAX / NANOSECONDS_PER_MILLISECOND {
                timeout * NANOSECONDS_PER_MILLISECOND
            } else {
                u64::MAX
            },
        }
    }

    /// What follows the wait: a fence that was signaled in time is reset; a
    /// wait that failed, or that ran out of time, is an error and the fence
    /// is left as it is.
    pub fn waited(&self, outcome: Result<(), ash::vk::Result>) -> (reset: Result<
        native::ResetFence,
        DeviceError,
    >)
        ensures
            reset == match outcome {
                Ok(_) => Ok::<native::ResetFence, DeviceError>(
                    native::ResetFence { fence: self.handle },
                ),
                Err(status) => Err::<native::ResetFence, DeviceError>(DeviceError::Other(status)),
            },
    {
        match native_result(outcome) {
            Ok(_) => Ok(native::ResetFence { fence: self.handle }),
            Err(error) => Err(error),
        }
    }
}

} // verus!
