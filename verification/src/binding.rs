//! Status codes of the C binding layer around the library; the binding
//! itself, being all raw pointers, lives outside the verified core.

use vstd::prelude::*;

verus! {

/// The status a C-binding call reports.
#[derive(Eq, PartialEq, Structural, Debug, Clone, Copy)]
pub enum StatusCode {
    /// The call succeeded.
    Success,
    /// An argument was null or malformed.
    InvalidArgument,
    /// An index was outside the roster.
    InvalidIndex,
    /// An object could not be created.
    FailedToCreate,
    /// Writing out data failed.
    FailedToWrite,
}

impl StatusCode {
    pub open spec fn spec_code(self) -> u32 {
        match self {
            StatusCode::Success => 0,
            StatusCode::InvalidArgument => 100,
            StatusCode::InvalidIndex => 101,
            StatusCode::FailedToCreate => 102,
            StatusCode::FailedToWrite => 103,
        }
    }

    /// The numeric code handed across the C boundary.
    pub fn code(self) -> (r: u32)
        ensures
            r == self.spec_code(),
    {
        match self {
            StatusCode::Success => 0,
            StatusCode::InvalidArgument => 100,
            StatusCode::InvalidIndex => 101,
            StatusCode::FailedToCreate => 102,
            StatusCode::FailedToWrite => 103,
        }
    }

    pub fn from_u32(value: u32) -> (r: Option<StatusCode>)
        ensures
            r matches Some(s) ==> s.spec_code() == value,
            r is None <==> !(value == 0 || (100 <= value <= 103)),
    {
        match value {
            0 => Some(StatusCode::Success),
            100 => Some(StatusCode::InvalidArgument),
            101 => Some(StatusCode::InvalidIndex),
            102 => Some(StatusCode::FailedToCreate),
            103 => Some(StatusCode::FailedToWrite),
            _ => None,
        }
    }

    /// The code's name, as the C binding's string helpers report it.
    pub fn message(self) -> (r: &'static str)
        ensures
            self is Success ==> r@ == "Ok"@,
            self is InvalidArgument ==> r@ == "InvalidArgument"@,
            self is InvalidIndex ==> r@ == "InvalidIndex"@,
            self is FailedToCreate ==> r@ == "FailedToCreate"@,
            self is FailedToWrite ==> r@ == "FailedToWrite"@,
    {
        match self {
            StatusCode::Success => "Ok",
            StatusCode::InvalidArgument => "InvalidArgument",
            StatusCode::InvalidIndex => "InvalidIndex",
            StatusCode::FailedToCreate => "FailedToCreate",
            StatusCode::FailedToWrite => "FailedToWrite",
        }
    }
}

} // verus!
