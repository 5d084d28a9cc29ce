//! The errors that a caller of the service gets to see.

use vstd::prelude::*;

verus! {

/// The HTTP status that goes with an error.
#[derive(Clone, Copy, Debug, PartialEq, Eq, Structural)]
pub enum Status {
    Unauthorized,
    UnprocessableEntity,
    InternalServerError,
}

impl Status {
    /// The status as its number on the wire.
    pub open spec fn spec_code(self) -> u16 {
        match self {
            Status::Unauthorized => 401,
            Status::UnprocessableEntity => 422,
            Status::InternalServerError => 500,
        }
    }

    /// The status as its number on the wire.
    pub fn code(&self) -> (code: u16)
        ensures
            code == self.spec_code(),
    {
        match self {
            Status::Unauthorized => 401,
            Status::UnprocessableEntity => 422,
            Status::InternalServerError => 500,
        }
    }
}

/// An error for the caller: a fixed message that is safe to show, and the
/// status to answer with.
#[derive(Clone, Copy, Debug, PartialEq, Eq)]
pub struct ApiError {
    pub error: &'static str,
    pub status: Status,
}

impl ApiError {
    /// Whether this error carries the given message and status.
    pub open spec fn says(self, message: &str, status: Status) -> bool {
        self.error@ == message@ && self.status == status
    }
}

} // verus!
