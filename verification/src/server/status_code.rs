//! The closed set of reply statuses and the kinds of failure they signal.

use vstd::prelude::*;
use crate::text::{decimal, decimal_string};

verus! {

/// Outcome of a command, sent as the first token of every reply.
///
/// `Continue` and `Processing` double as the booleans false and true;
/// `NotModified` marks a remaining-time reply of a paused session.
#[derive(Copy, Clone, Debug, PartialEq, Eq, Structural)]
pub enum StatusCode {
    Continue,
    Processing,
    Okay,
    Created,
    NotModified,
    BadRequest,
    NotFound,
    Conflict,
    InternalServerError,
}

impl StatusCode {
    /// The number that stands for this status on the wire.
    pub open spec fn spec_code(self) -> u16 {
        match self {
            StatusCode::Continue => 100,
            StatusCode::Processing => 102,
            StatusCode::Okay => 200,
            StatusCode::Created => 201,
            StatusCode::NotModified => 304,
            StatusCode::BadRequest => 400,
            StatusCode::NotFound => 404,
            StatusCode::Conflict => 409,
            StatusCode::InternalServerError => 500,
        }
    }

    /// The number that stands for this status on the wire.
    #[verifier::when_used_as_spec(spec_code)]
    pub fn code(self) -> (n: u16)
        ensures
            n == self.spec_code(),
    {
        match self {
            StatusCode::Continue => 100,
            StatusCode::Processing => 102,
            StatusCode::Okay => 200,
            StatusCode::Created => 201,
            StatusCode::NotModified => 304,
            StatusCode::BadRequest => 400,
            StatusCode::NotFound => 404,
            StatusCode::Conflict => 409,
            StatusCode::InternalServerError => 500,
        }
    }

    /// The status as it is shown: its number in base ten.
    pub open spec fn shown(self) -> Seq<char> {
        decimal(self.spec_code() as nat)
    }

    /// Shows the status: its number in base ten.
    pub fn to_string(&self) -> (s: String)
        ensures
            s@ == self.shown(),
    {
        decimal_string(self.code() as u32)
    }

    /// The status that a wire number stands for, if any.
    pub open spec fn spec_from_code(n: u16) -> Option<StatusCode> {
        if n == 100 {
            Some(StatusCode::Continue)
        } else if n == 102 {
            Some(StatusCode::Processing)
        } else if n == 200 {
            Some(StatusCode::Okay)
        } else if n == 201 {
            Some(StatusCode::Created)
        } else if n == 304 {
            Some(StatusCode::NotModified)
        } else if n == 400 {
            Some(StatusCode::BadRequest)
        } else if n == 404 {
            Some(StatusCode::NotFound)
        } else if n == 409 {
            Some(StatusCode::Conflict)
        } else if n == 500 {
            Some(StatusCode::InternalServerError)
        } else {
            None
        }
    }

    /// The status that a wire number stands for, if any.
    #[verifier::when_used_as_spec(spec_from_code)]
    pub fn from_code(n: u16) -> (r: Option<StatusCode>)
        ensures
            r == Self::spec_from_code(n),
    {
        if n == 100 {
            Some(StatusCode::Continue)
        } else if n == 102 {
            Some(StatusCode::Processing)
        } else if n == 200 {
            Some(StatusCode::Okay)
        } else if n == 201 {
            Some(StatusCode::Created)
        } else if n == 304 {
            Some(StatusCode::NotModified)
        } else if n == 400 {
            Some(StatusCode::BadRequest)
        } else if n == 404 {
            Some(StatusCode::NotFound)
        } else if n == 409 {
            Some(StatusCode::Conflict)
        } else if n == 500 {
            Some(StatusCode::InternalServerError)
        } else {
            None
        }
    }

    /// The boolean that `Continue` and `Processing` stand for.
    pub open spec fn spec_as_bool(self) -> Option<bool> {
        match self {
            StatusCode::Continue => Some(false),
            StatusCode::Processing => Some(true),
            _ => None,
        }
    }

    /// The boolean that `Continue` and `Processing` stand for; nothing for
    /// any other status.
    #[verifier::when_used_as_spec(spec_as_bool)]
    pub fn as_bool(self) -> (r: Option<bool>)
        ensures
            r == self.spec_as_bool(),
    {
        match self {
            StatusCode::Continue => Some(false),
            StatusCode::Processing => Some(true),
            _ => None,
        }
    }
}

/// Wire numbers identify statuses: a status is found again from its number,
/// and two statuses with one number are the same.
pub proof fn lemma_code_identifies_status(a: StatusCode, b: StatusCode)
    ensures
        StatusCode::spec_from_code(a.spec_code()) == Some(a),
        a.spec_code() == b.spec_code() ==> a == b,
{
}

/// Why a command was turned down.
#[derive(Copy, Clone, Debug, PartialEq, Eq, Structural)]
pub enum ErrorKind {
    /// The input could not be decoded, or was not terminated.
    MalformedRequest,
    /// An argument was missing or had a bad value.
    ValidationError,
    /// The command does not apply to the session's current state.
    StateConflict,
    /// The command path is unknown.
    NotFound,
    /// The session store could not be acquired for the optimistic probe.
    LockAcquisitionFailure,
}

impl ErrorKind {
    /// The status that reports this kind of failure.
    pub open spec fn spec_status(self) -> StatusCode {
        match self {
            ErrorKind::MalformedRequest => StatusCode::BadRequest,
            ErrorKind::ValidationError => StatusCode::BadRequest,
            ErrorKind::StateConflict => StatusCode::Conflict,
            ErrorKind::NotFound => StatusCode::NotFound,
            ErrorKind::LockAcquisitionFailure => StatusCode::InternalServerError,
        }
    }

    /// The status that reports this kind of failure.
    #[verifier::when_used_as_spec(spec_status)]
    pub fn status(self) -> (s: StatusCode)
        ensures
            s == self.spec_status(),
    {
        match self {
            ErrorKind::MalformedRequest => StatusCode::BadRequest,
            ErrorKind::ValidationError => StatusCode::BadRequest,
            ErrorKind::StateConflict => StatusCode::Conflict,
            ErrorKind::NotFound => StatusCode::NotFound,
            ErrorKind::LockAcquisitionFailure => StatusCode::InternalServerError,
        }
    }
}

} // verus!
