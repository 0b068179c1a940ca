use vstd::prelude::*;

verus! {

/// The status code that a driver call returns on success.
pub const STATUS_OK: i32 = 0;

/// The outcome of one call into a hardware driver: success, or the raw
/// status code of a failure.
#[derive(Debug, Clone, Copy, PartialEq, Eq, Structural)]
pub enum Status {
    Success,
    DriverError(i32),
}

impl Status {
    /// Classifies a raw driver status code.
    pub fn from_code(code: i32) -> (r: Status)
        ensures
            code == STATUS_OK ==> r == Status::Success,
            code != STATUS_OK ==> r == Status::DriverError(code),
    {
        if code == STATUS_OK {
            Status::Success
        } else {
            Status::DriverError(code)
        }
    }

    /// Whether the call succeeded.
    pub fn is_ok(&self) -> (r: bool)
        ensures
            r == (*self == Status::Success),
    {
        match self {
            Status::Success => true,
            Status::DriverError(_) => false,
        }
    }
}

} // verus!
