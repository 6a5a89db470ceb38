//! The error taxonomy: status kinds, the status returned to a caller and the
//! error descriptor carried by an outcome event.

use vstd::prelude::*;

verus! {

/// The status kinds a call can fail with. A call that succeeds carries its
/// record and no status.
#[derive(Clone, Copy, Debug, PartialEq, Eq, Structural)]
pub enum Code {
    InvalidArgument,
    NotFound,
    Unavailable,
}

/// The number that stands for a status kind on the wire.
pub open spec fn code_number(code: Code) -> i32 {
    match code {
        Code::InvalidArgument => 3i32,
        Code::NotFound => 5i32,
        Code::Unavailable => 14i32,
    }
}

/// Converts a status kind with `i32::from(tonic::Code)`. Trusted: tonic's
/// `Code` is an enum whose discriminants are the gRPC status numbers, and the
/// conversion is a cast of the discriminant.
#[verifier::external_body]
fn grpc_number(code: Code) -> (number: i32)
    ensures
        number == code_number(code),
{
    match code {
        Code::InvalidArgument => i32::from(tonic::Code::InvalidArgument),
        Code::NotFound => i32::from(tonic::Code::NotFound),
        Code::Unavailable => i32::from(tonic::Code::Unavailable),
    }
}

impl Code {
    /// The number that stands for this status kind on the wire.
    pub fn number(self) -> (number: i32)
        ensures
            number == code_number(self),
    {
        grpc_number(self)
    }
}

/// The terminal status of a call that failed: unary calls return it with no
/// body.
#[derive(Debug, PartialEq, Eq)]
pub struct Status {
    pub code: Code,
    pub message: String,
}

/// The model of a [`Status`].
pub struct StatusView {
    pub code: Code,
    pub message: Seq<char>,
}

impl View for Status {
    type V = StatusView;

    open spec fn view(&self) -> StatusView {
        StatusView { code: self.code, message: self.message@ }
    }
}

/// The text of the status returned when the store failed.
pub open spec fn unavailable_text() -> Seq<char> {
    "Database is unavailable"@
}

/// The status returned when the store failed for any reason but a missing row.
pub open spec fn unavailable_status() -> StatusView {
    StatusView { code: Code::Unavailable, message: unavailable_text() }
}

impl Status {
    /// A request that was rejected before any store call.
    pub fn invalid_argument(message: String) -> (status: Status)
        ensures
            status@ == (StatusView { code: Code::InvalidArgument, message: message@ }),
    {
        Status { code: Code::InvalidArgument, message }
    }

    /// The target row is absent.
    pub fn not_found(message: String) -> (status: Status)
        ensures
            status@ == (StatusView { code: Code::NotFound, message: message@ }),
    {
        Status { code: Code::NotFound, message }
    }

    /// The store failed.
    pub fn unavailable() -> (status: Status)
        ensures
            status@ == unavailable_status(),
    {
        Status { code: Code::Unavailable, message: "Database is unavailable".to_owned() }
    }
}

/// The error descriptor of an outcome event: the number of the status kind
/// and a message.
#[derive(Debug, PartialEq, Eq)]
pub struct ErrorDescriptor {
    pub code: i32,
    pub message: String,
}

/// The model of an [`ErrorDescriptor`].
pub struct ErrorDescriptorView {
    pub code: i32,
    pub message: Seq<char>,
}

impl View for ErrorDescriptor {
    type V = ErrorDescriptorView;

    open spec fn view(&self) -> ErrorDescriptorView {
        ErrorDescriptorView { code: self.code, message: self.message@ }
    }
}

/// The descriptor of a failure of kind `code` with the text `message`.
pub open spec fn descriptor(code: Code, message: Seq<char>) -> ErrorDescriptorView {
    ErrorDescriptorView { code: code_number(code), message }
}

impl ErrorDescriptor {
    /// Describes a failure of kind `code`.
    pub fn new(code: Code, message: String) -> (error: ErrorDescriptor)
        ensures
            error@ == descriptor(code, message@),
    {
        ErrorDescriptor { code: code.number(), message }
    }
}

} // verus!
