//! The result envelope handed to every callback, and the kinds of error
//! recognised at the boundary.

use vstd::prelude::*;

verus! {

/// Envelope code of a call that succeeded.
pub const OK_CODE: i32 = 0;

/// Envelope code of a required argument that was null.
pub const NULL_INPUT_CODE: i32 = -1;

/// Envelope code of an argument whose bytes are not well-formed UTF-8.
pub const INVALID_UTF8_CODE: i32 = -2;

/// Envelope code of an output string that holds a NUL byte.
pub const ENCODING_ERROR_CODE: i32 = -3;

/// Envelope code of a fault caught by the dispatcher.
pub const INTERNAL_FAULT_CODE: i32 = -4;

/// Why a call failed.
#[derive(Clone, Copy, Debug, PartialEq, Eq, Structural)]
pub enum ErrorKind {
    /// A required pointer argument was null.
    NullInput,
    /// An argument did not decode to valid text.
    InvalidUtf8,
    /// An output string held a NUL byte, which a C string cannot carry.
    EncodingError,
    /// The underlying operation failed; its own code passes through.
    Domain(i32),
    /// A fault of the host runtime was caught at the boundary.
    InternalFault,
}

/// True of the codes that the boundary's own kinds use.
pub open spec fn is_reserved_code(c: i32) -> bool {
    c == OK_CODE || c == NULL_INPUT_CODE || c == INVALID_UTF8_CODE || c == ENCODING_ERROR_CODE
        || c == INTERNAL_FAULT_CODE
}

impl ErrorKind {
    /// A domain code must not be mistaken for success or for a boundary kind.
    pub open spec fn wf(self) -> bool {
        match self {
            ErrorKind::Domain(c) => !is_reserved_code(c),
            _ => true,
        }
    }

    pub open spec fn code_spec(self) -> i32 {
        match self {
            ErrorKind::NullInput => NULL_INPUT_CODE,
            ErrorKind::InvalidUtf8 => INVALID_UTF8_CODE,
            ErrorKind::EncodingError => ENCODING_ERROR_CODE,
            ErrorKind::Domain(c) => c,
            ErrorKind::InternalFault => INTERNAL_FAULT_CODE,
        }
    }

    /// The numeric code that a foreign caller sees for this kind.
    pub fn code(&self) -> (r: i32)
        ensures
            r == self.code_spec(),
    {
        match self {
            ErrorKind::NullInput => NULL_INPUT_CODE,
            ErrorKind::InvalidUtf8 => INVALID_UTF8_CODE,
            ErrorKind::EncodingError => ENCODING_ERROR_CODE,
            ErrorKind::Domain(c) => *c,
            ErrorKind::InternalFault => INTERNAL_FAULT_CODE,
        }
    }
}

/// A failure: its kind, and a description kept for diagnostics only.
#[derive(Clone, Debug)]
pub struct BoundaryError {
    pub kind: ErrorKind,
    pub description: String,
}

impl BoundaryError {
    pub fn new(kind: ErrorKind, description: String) -> (r: BoundaryError)
        ensures
            r.kind == kind,
            r.description == description,
    {
        BoundaryError { kind, description }
    }

    /// Two errors are the same error when their kinds are; the description
    /// plays no part.
    pub fn same_error(&self, other: &BoundaryError) -> (r: bool)
        ensures
            r == (self.kind == other.kind),
    {
        self.kind == other.kind
    }
}

/// What a callback receives as its result: code zero and no description on
/// success, the error's code and description otherwise.
#[derive(Clone, Debug)]
pub struct Envelope {
    pub error_code: i32,
    pub description: Option<String>,
}

impl Envelope {
    pub open spec fn ok_spec() -> Envelope {
        Envelope { error_code: OK_CODE, description: None }
    }

    pub open spec fn of_error_spec(e: BoundaryError) -> Envelope {
        Envelope { error_code: e.kind.code_spec(), description: Some(e.description) }
    }

    /// The envelope of a successful call.
    pub fn ok() -> (r: Envelope)
        ensures
            r == Envelope::ok_spec(),
    {
        Envelope { error_code: OK_CODE, description: None }
    }

    /// The envelope that reports `e`.
    pub fn of_error(e: BoundaryError) -> (r: Envelope)
        ensures
            r == Envelope::of_error_spec(e),
    {
        let code = e.kind.code();
        Envelope { error_code: code, description: Some(e.description) }
    }

    /// Whether the envelope reports success.
    pub fn is_ok(&self) -> (r: bool)
        ensures
            r == (self.error_code == OK_CODE),
    {
        self.error_code == OK_CODE
    }
}

/// Distinct well-formed kinds never share a code, and none of them has the
/// success code: a caller can branch on the code alone.
pub proof fn lemma_codes_identify_kinds(a: ErrorKind, b: ErrorKind)
    requires
        a.wf(),
        b.wf(),
    ensures
        a.code_spec() != OK_CODE,
        a.code_spec() == b.code_spec() ==> a == b,
{
}

} // verus!
