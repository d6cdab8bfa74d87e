//! The status classes a handler can answer with, and their numeric codes.

use vstd::prelude::*;

verus! {

/// The five statuses the service ever answers with. Three of them
/// (`BadRequest`, `NotFound`, `InternalError`) are the whole error
/// taxonomy; `Okay` and `Created` are the two success shapes.
#[derive(Clone, Copy, Debug, PartialEq, Eq, Structural)]
pub enum Status {
    Okay,
    Created,
    BadRequest,
    NotFound,
    InternalError,
}

/// The numeric HTTP code of each status.
pub open spec fn spec_status_code(st: Status) -> int {
    match st {
        Status::Okay => 200,
        Status::Created => 201,
        Status::BadRequest => 400,
        Status::NotFound => 404,
        Status::InternalError => 500,
    }
}

/// The numeric HTTP code of a status, for the wire.
pub fn status_code(st: Status) -> (code: u16)
    ensures
        code == spec_status_code(st),
{
    match st {
        Status::Okay => 200,
        Status::Created => 201,
        Status::BadRequest => 400,
        Status::NotFound => 404,
        Status::InternalError => 500,
    }
}

} // verus!
