use vstd::prelude::*;

verus! {

/// The closed set of operation outcomes. Every public operation reports
/// exactly one of these; envelopes are the only reporting channel, never
/// faults. The numeric code and the canonical display string belong to the
/// host boundary and are generated from the status on demand.
#[derive(Debug, Clone, Copy, PartialEq, Eq, Structural)]
pub enum StatusCode {
    /// A read completed as requested.
    Success,
    /// A new record was inserted.
    Created,
    /// An existing record was modified (reserved; unused by current operations).
    Updated,
    /// Reserved for input-validation failure (not currently enforced).
    NullArgument,
    /// A lookup found no record for the account.
    NotFound,
    /// A write was rejected because a record already exists.
    Duplicate,
    /// An invariant the operation assumed did not hold.
    InternalError,
}

impl StatusCode {
    /// The numeric code the host protocol pairs with this status.
    pub open spec fn spec_code(self) -> u32 {
        match self {
            StatusCode::Success => 9000,
            StatusCode::Created => 9000,
            StatusCode::Updated => 9000,
            StatusCode::NullArgument => 9001,
            StatusCode::NotFound => 9002,
            StatusCode::Duplicate => 9003,
            StatusCode::InternalError => 9005,
        }
    }

    /// The canonical display string paired with this status.
    pub open spec fn spec_message(self) -> Seq<char> {
        match self {
            StatusCode::Success => "Operation successfully!"@,
            StatusCode::Created => "Created successfully!"@,
            StatusCode::Updated => "Updated successfully!"@,
            StatusCode::NullArgument => "Null Argument!"@,
            StatusCode::NotFound => "Not found"@,
            StatusCode::Duplicate => "Duplicate data!"@,
            StatusCode::InternalError => "Internal Constract Error!"@,
        }
    }

    /// The numeric code, for the host boundary.
    pub fn code(&self) -> (c: u32)
        ensures
            c == self.spec_code(),
    {
        match self {
            StatusCode::Success => 9000,
            StatusCode::Created => 9000,
            StatusCode::Updated => 9000,
            StatusCode::NullArgument => 9001,
            StatusCode::NotFound => 9002,
            StatusCode::Duplicate => 9003,
            StatusCode::InternalError => 9005,
        }
    }

    /// The canonical display string, for the host boundary.
    pub fn message(&self) -> (m: String)
        ensures
            m@ == self.spec_message(),
    {
        match self {
            StatusCode::Success => "Operation successfully!".to_owned(),
            StatusCode::Created => "Created successfully!".to_owned(),
            StatusCode::Updated => "Updated successfully!".to_owned(),
            StatusCode::NullArgument => "Null Argument!".to_owned(),
            StatusCode::NotFound => "Not found".to_owned(),
            StatusCode::Duplicate => "Duplicate data!".to_owned(),
            StatusCode::InternalError => "Internal Constract Error!".to_owned(),
        }
    }
}

/// Envelope of a write: the status alone.
#[derive(Debug, Clone, Copy, PartialEq, Eq, Structural)]
pub struct BaseResponse {
    pub status: StatusCode,
}

/// Envelope of a read: the status and, only when the read found something,
/// the payload. Absence is explicit: no sentinel record ever stands for
/// a missing one.
#[derive(Debug, PartialEq, Eq)]
pub struct DataResponse<T> {
    pub status: StatusCode,
    pub data: Option<T>,
}

} // verus!
