//! Return codes of the syscall surface and errors of grant entry.

use vstd::prelude::*;

verus! {

/// Error codes that a syscall can hand back to a process.
#[derive(Copy, Clone, Debug, PartialEq, Eq, Structural)]
pub enum ErrorCode {
    /// Generic failure.
    Fail,
    /// The resource is busy.
    Busy,
    /// The operation was already requested.
    Already,
    /// The component is switched off.
    Off,
    /// A reservation is required first.
    Reserve,
    /// An argument is invalid.
    Inval,
    /// A size is invalid.
    Size,
    /// The operation was cancelled.
    Cancel,
    /// Memory is exhausted.
    NoMem,
    /// The operation is not supported.
    NoSupport,
    /// There is no such device.
    NoDevice,
    /// The device is not installed.
    Uninstalled,
    /// The packet was not acknowledged.
    NoAck,
}

/// Errors of entering a process's grant record.
#[derive(Copy, Clone, Debug, PartialEq, Eq, Structural)]
pub enum ProcessError {
    /// The identifier names no live process.
    NoSuchApp,
    /// The record could not be allocated.
    OutOfMemory,
    /// An address lies outside the process's memory.
    AddressOutOfBounds,
    /// The kernel is in an inconsistent state.
    KernelError,
    /// The record is already entered further up the call chain.
    AlreadyInUse,
}

/// What a command returns to the calling process.
#[derive(Copy, Clone, Debug, PartialEq, Eq, Structural)]
pub enum CommandReturn {
    /// The command failed with the given code.
    Failure(ErrorCode),
    /// The command succeeded and carries no value.
    Success,
    /// The command succeeded and carries one 32-bit value.
    SuccessU32(u32),
}

impl CommandReturn {
    /// Whether the command succeeded.
    pub open spec fn is_success_spec(self) -> bool {
        !(self is Failure)
    }

    /// Whether the command succeeded.
    pub fn is_success(&self) -> (r: bool)
        ensures
            r == self.is_success_spec(),
    {
        match self {
            CommandReturn::Failure(_) => false,
            _ => true,
        }
    }
}

} // verus!
