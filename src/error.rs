//! Status codes of the service layer and the library's error type.
use vstd::prelude::*;

verus! {

/// The status code that the service layer reports on success.
pub const RESULT_SUCCESS: i32 = 0;

/// What can go wrong when driving a hardware service.
#[derive(Debug, Clone, Copy, PartialEq, Eq, Structural)]
pub enum Error {
    /// A service call reported failure; the code is kept verbatim.
    ServiceError(i32),
    /// A capture buffer whose length is not `width * height * 2`.
    InvalidBufferSize,
    /// A capture width or height outside what the capture call accepts.
    DimensionOutOfRange,
    /// The wait for a captured frame elapsed with no data.
    CaptureTimeout,
}

/// Result of a library operation.
pub type Result<T> = core::result::Result<T, Error>;

/// The outcome that a raw status code stands for.
pub open spec fn status_result(code: i32) -> core::result::Result<(), Error> {
    if code == RESULT_SUCCESS {
        Ok(())
    } else {
        Err(Error::ServiceError(code))
    }
}

/// A raw status code of the service layer.
#[derive(Debug, Clone, Copy, PartialEq, Eq, Structural)]
pub struct ResultCode(pub i32);

impl ResultCode {
    /// Turns the status into a unit success or a failure that carries the code.
    pub fn into_result(self) -> (r: Result<()>)
        ensures
            r == status_result(self.0),
    {
        if self.0 == RESULT_SUCCESS {
            Ok(())
        } else {
            Err(Error::ServiceError(self.0))
        }
    }
}

/// Pairs an output value with the status of the call that produced it: the
/// value is handed on only when the call succeeded.
pub fn with_status<T>(code: i32, value: T) -> (r: Result<T>)
    ensures
        code == RESULT_SUCCESS ==> r == Ok::<T, Error>(value),
        code != RESULT_SUCCESS ==> r == Err::<T, Error>(Error::ServiceError(code)),
{
    match ResultCode(code).into_result() {
        Ok(()) => Ok(value),
        Err(e) => Err(e),
    }
}

} // verus!
