use vstd::prelude::*;

verus! {

/// The failures that the service's components report to the HTTP layer.
#[derive(Debug)]
pub enum ErrorType {
    UnknownError(Option<String>),
    Unauthorized(Option<String>),
    UserNotFound(Option<String>),
    DuplicatesFound(Option<String>),
    DeviceNotFound(Option<String>),
    ControllableNotFound(Option<String>),
    Unused(Option<String>),
}

/// The HTTP status that stands for an error.
pub open spec fn error_status(e: ErrorType) -> u16 {
    match e {
        ErrorType::Unauthorized(_) => 401,
        ErrorType::UserNotFound(_) => 404,
        ErrorType::DeviceNotFound(_) => 404,
        ErrorType::ControllableNotFound(_) => 404,
        ErrorType::DuplicatesFound(_) => 409,
        _ => 500,
    }
}

impl ErrorType {
    pub fn status(&self) -> (r: u16)
        ensures
            r == error_status(*self),
    {
        match self {
            ErrorType::Unauthorized(_) => 401,
            ErrorType::UserNotFound(_) => 404,
            ErrorType::DeviceNotFound(_) => 404,
            ErrorType::ControllableNotFound(_) => 404,
            ErrorType::DuplicatesFound(_) => 409,
            _ => 500,
        }
    }
}

} // verus!
