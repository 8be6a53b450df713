//! The unified error taxonomy for enumeration, matching, transport and
//! reply validation.

use vstd::prelude::*;

verus! {

/// The kernel I/O status code that means success.
pub const KERN_SUCCESS: i32 = 0;

/// The generic kernel failure code, surfaced when a bus scan never reached
/// the point of a concrete error.
pub const KERN_FAILURE: i32 = 5;

/// A DDC/CI reply framing violation.
#[derive(Clone, Copy, Debug, PartialEq, Eq, Structural)]
pub enum ErrorCode {
    /// The reply's declared length claims more bytes than the buffer holds.
    InvalidLength,
    /// The reply's checksum byte does not match the checksum recomputed
    /// over the reply.
    InvalidChecksum,
}

/// An error that can occur during DDC/CI communication with a monitor.
#[derive(Clone, Copy, Debug, PartialEq, Eq, Structural)]
pub enum Error {
    /// The host graphics subsystem failed while listing active displays.
    CoreGraphics(i32),
    /// A native transport call returned a non-success status code.
    Io(i32),
    /// The reply violated the DDC/CI framing rules.
    Ddc(ErrorCode),
    /// No native service backs the display; the display is skipped during
    /// enumeration.
    ServiceNotFound,
    /// The display reports no registry location string; the display is
    /// skipped during enumeration.
    DisplayLocationNotFound,
}

impl core::convert::From<ErrorCode> for Error {
    /// Wraps a framing violation into the unified taxonomy.
    fn from(code: ErrorCode) -> (r: Error) {
        Error::Ddc(code)
    }
}

impl vstd::std_specs::convert::FromSpecImpl<ErrorCode> for Error {
    open spec fn obeys_from_spec() -> bool {
        true
    }

    open spec fn from_spec(code: ErrorCode) -> Error {
        Error::Ddc(code)
    }
}

/// Turns a kernel status code into a result: success code or an I/O error
/// carrying the code.
pub fn verify_io(result: i32) -> (r: Result<(), Error>)
    ensures
        result == KERN_SUCCESS ==> r == Ok::<(), Error>(()),
        result != KERN_SUCCESS ==> r == Err::<(), Error>(Error::Io(result)),
{
    if result == KERN_SUCCESS {
        Ok(())
    } else {
        Err(Error::Io(result))
    }
}

} // verus!
