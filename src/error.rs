use vstd::prelude::*;

use crate::cpu::CpuModel;
use crate::framebuffer::FramebufferError;

verus! {

/// Every failure this kernel reports.
#[derive(Debug, Clone, Copy, PartialEq, Eq, Structural)]
pub enum Error {
    /// The resource is already held; the caller may retry later or give up.
    LockContention,
    /// The tag does not fit in the mailbox buffer together with its terminator.
    BufferFull,
    /// The firmware answered the whole buffer with its error code.
    FirmwareRejected,
    /// The whole-buffer code word after a call is none of the known codes.
    UnknownResponseStatus,
    /// The whole-buffer code word still reads as a request: the firmware never answered.
    NoResponse,
    /// The buffer was answered but this tag's own code word lacks the response bit.
    TagRejected,
    /// The mailbox stayed busy, or silent, for the whole poll budget.
    Timeout,
    /// The CPU core is not one this kernel can run on.
    UnsupportedCpuModel(CpuModel),
    /// The device tree blob does not start with a header holding the right magic number.
    InvalidDeviceTreeHeader,
    /// The device tree header gives a total size shorter than the header or
    /// longer than the blob.
    InvalidDeviceTreeSize,
    /// The facility has not been initialized yet.
    NotInitialized,
    /// An argument is outside the values the operation accepts.
    InvalidArgument,
    /// A framebuffer operation failed.
    FramebufferError(FramebufferError),
}

impl From<FramebufferError> for Error {
    fn from(err: FramebufferError) -> (r: Error) {
        Error::FramebufferError(err)
    }
}

impl vstd::std_specs::convert::FromSpecImpl<FramebufferError> for Error {
    open spec fn obeys_from_spec() -> bool {
        true
    }

    open spec fn from_spec(err: FramebufferError) -> Error {
        Error::FramebufferError(err)
    }
}

} // verus!
