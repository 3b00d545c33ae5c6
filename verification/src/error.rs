//! The closed set of error kinds with their stable numeric codes, and the
//! response envelope every operation answers with.

use vstd::prelude::*;

verus! {

/// The error kinds the gateway can report. The numeric mapping given by
/// [`write_error_code`] is part of the wire contract and never changes for
/// existing members.
#[derive(Clone, Copy, Debug, PartialEq, Eq, Structural)]
pub enum ErrorCode {
    Success,
    InvalidArgument,
    InvalidIndex,
    InvalidResponse,
    ReadOnlyIndex,
    InvalidOperation,
    BufferTooSmall,
    InputTooLarge,
    InternalError,
}

/// The fixed numeric code of each error kind.
pub open spec fn spec_error_code(v: ErrorCode) -> u8 {
    match v {
        ErrorCode::Success => 0,
        ErrorCode::InvalidArgument => 1,
        ErrorCode::InvalidIndex => 2,
        ErrorCode::InvalidResponse => 3,
        ErrorCode::ReadOnlyIndex => 4,
        ErrorCode::InvalidOperation => 5,
        ErrorCode::BufferTooSmall => 6,
        ErrorCode::InputTooLarge => 7,
        ErrorCode::InternalError => 8,
    }
}

/// The number an error kind is written as on the wire.
pub fn write_error_code(v: &ErrorCode) -> (n: u8)
    ensures
        n == spec_error_code(*v),
{
    match v {
        ErrorCode::Success => 0,
        ErrorCode::InvalidArgument => 1,
        ErrorCode::InvalidIndex => 2,
        ErrorCode::InvalidResponse => 3,
        ErrorCode::ReadOnlyIndex => 4,
        ErrorCode::InvalidOperation => 5,
        ErrorCode::BufferTooSmall => 6,
        ErrorCode::InputTooLarge => 7,
        ErrorCode::InternalError => 8,
    }
}

/// A failure: a human-readable message and one member of the code table.
#[derive(Debug)]
pub struct Error {
    pub msg: String,
    pub code: ErrorCode,
}

/// The response envelope: `ok` holds exactly when no error is attached, and
/// a value is carried only on success.
pub struct NsmResponse {
    pub ok: bool,
    pub error: Option<Error>,
    pub value: Option<String>,
}

impl NsmResponse {
    /// The envelope's invariant: `ok` iff `error` is absent; `value` only on
    /// success; never both `error` and `value`.
    pub open spec fn wf(self) -> bool {
        &&& self.ok <==> self.error is None
        &&& self.value is Some ==> self.ok
    }
}

/// A successful response carrying `value`.
pub fn ok(value: String) -> (r: NsmResponse)
    ensures
        r.wf(),
        r.ok,
        r.error is None,
        r.value matches Some(v) && v == value,
{
    NsmResponse { ok: true, error: None, value: Some(value) }
}

impl From<Error> for NsmResponse {
    /// The failed response carrying `e`, with no value.
    fn from(e: Error) -> (r: NsmResponse)
    {
        NsmResponse { ok: false, error: Some(e), value: None }
    }
}

impl vstd::std_specs::convert::FromSpecImpl<Error> for NsmResponse {
    open spec fn obeys_from_spec() -> bool {
        true
    }

    open spec fn from_spec(e: Error) -> NsmResponse {
        NsmResponse { ok: false, error: Some(e), value: None }
    }
}

pub type NsmResult<T> = Result<T, Error>;

} // verus!
