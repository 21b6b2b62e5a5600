//! Error codes shared by every operation of the device layer.
//!
//! Each kind mirrors one failure class of the host convention: invalid
//! argument, addressing failure, resource exhaustion, and a catch-all for
//! codes the host hands back from its own entry points.  A code travels to
//! the host as a negative integer; success is reported as a non-negative
//! count or code.

use vstd::prelude::*;

verus! {

/// The smallest (most negative) errno value the host convention uses.
pub const MIN_ERRNO: i32 = -4095;

/// A failure kind of the device layer.
///
/// `EINVAL` is an invalid argument (bad offset, bad direction, malformed
/// command, operation not wired up), `EFAULT` an addressing failure (a
/// buffer that cannot be validated against the caller's context), `ENOMEM`
/// resource exhaustion.  `Code` carries any other negative errno the host
/// reported, kept verbatim so a host answer such as a registration failure
/// travels back unchanged.
#[allow(non_camel_case_types)]
#[derive(Clone, Copy, PartialEq, Eq, Structural, Debug)]
pub enum Error {
    EINVAL,
    EFAULT,
    ENOMEM,
    Code(i32),
}

impl Error {
    /// The negative integer this error shows to the host.
    pub open spec fn errno_spec(self) -> int {
        match self {
            Error::EINVAL => -22,
            Error::EFAULT => -14,
            Error::ENOMEM => -12,
            Error::Code(c) => c as int,
        }
    }

    /// Whether the error is one this layer can construct: every kind holds a
    /// strictly negative errno in the host's range.
    pub open spec fn wf(self) -> bool {
        MIN_ERRNO <= self.errno_spec() < 0
    }

    /// Converts the error into the host's numeric convention.
    pub fn to_kernel_errno(self) -> (r: i32)
        requires
            self.wf(),
        ensures
            r == self.errno_spec(),
            r < 0,
    {
        match self {
            Error::EINVAL => -22,
            Error::EFAULT => -14,
            Error::ENOMEM => -12,
            Error::Code(c) => c,
        }
    }

    /// Reconstructs an error from a negative host code, canonicalizing the
    /// codes this layer names.
    pub fn from_kernel_errno(errno: i32) -> (r: Error)
        requires
            MIN_ERRNO <= errno < 0,
        ensures
            r.errno_spec() == errno,
            r.wf(),
            errno == -22 ==> r == Error::EINVAL,
            errno == -14 ==> r == Error::EFAULT,
            errno == -12 ==> r == Error::ENOMEM,
            errno != -22 && errno != -14 && errno != -12 ==> r == Error::Code(errno),
    {
        match errno {
            -22 => Error::EINVAL,
            -14 => Error::EFAULT,
            -12 => Error::ENOMEM,
            _ => Error::Code(errno),
        }
    }
}

/// The result type of every operation of this layer.
pub type KernelResult<T> = Result<T, Error>;

} // verus!
