//! The failures that a remote-control exchange can end in.

use vstd::prelude::*;
use vstd::string::StringExecFns;

verus! {

/// A failed exchange with the multiplexer.
#[derive(Debug, Clone, PartialEq, Eq)]
pub enum RcError {
    /// No reply arrived within the bound.
    Timeout,
    /// The reply is not valid text, not valid JSON, or has the wrong shape at
    /// the named place.
    MalformedResponse(String),
    /// The reply to a single-frame exchange did not have exactly one frame.
    UnexpectedFraming,
    /// The parameter `.1` of module `.0` holds an array or an object.
    UnsupportedValueShape(String, String),
    /// The statistics endpoint identified itself as something else.
    WrongService(String),
    /// A required field is absent from the reply.
    MissingField(String),
    /// The multiplexer refused to set a parameter, for the given reason.
    SetRejected(String),
}

/// Mathematical model of an [`RcError`]: the same variants over character
/// sequences.
pub enum Failure {
    Timeout,
    MalformedResponse(Seq<char>),
    UnexpectedFraming,
    UnsupportedValueShape(Seq<char>, Seq<char>),
    WrongService(Seq<char>),
    MissingField(Seq<char>),
    SetRejected(Seq<char>),
}

impl View for RcError {
    type V = Failure;

    open spec fn view(&self) -> Failure {
        match *self {
            RcError::Timeout => Failure::Timeout,
            RcError::MalformedResponse(d) => Failure::MalformedResponse(d@),
            RcError::UnexpectedFraming => Failure::UnexpectedFraming,
            RcError::UnsupportedValueShape(m, p) => Failure::UnsupportedValueShape(m@, p@),
            RcError::WrongService(s) => Failure::WrongService(s@),
            RcError::MissingField(n) => Failure::MissingField(n@),
            RcError::SetRejected(r) => Failure::SetRejected(r@),
        }
    }
}

/// The sentence that describes a failure to an operator.
pub open spec fn message_of(f: Failure) -> Seq<char> {
    match f {
        Failure::Timeout => "timeout waiting for a reply"@,
        Failure::MalformedResponse(d) => "malformed response: "@ + d,
        Failure::UnexpectedFraming => "unexpected multipart answer"@,
        Failure::UnsupportedValueShape(m, p) => "unsupported value in "@ + m + "."@ + p,
        Failure::WrongService(s) => "wrong service in stats: "@ + s,
        Failure::MissingField(n) => "missing field: "@ + n,
        Failure::SetRejected(r) => "failed to set RC: "@ + r,
    }
}

impl RcError {
    /// Describes the failure in one sentence.
    pub fn message(&self) -> (r: String)
        ensures
            r@ == message_of(self@),
    {
        match self {
            RcError::Timeout => String::from_str("timeout waiting for a reply"),
            RcError::MalformedResponse(d) => String::from_str("malformed response: ").concat(
                d.as_str(),
            ),
            RcError::UnexpectedFraming => String::from_str("unexpected multipart answer"),
            RcError::UnsupportedValueShape(m, p) => String::from_str(
                "unsupported value in ",
            ).concat(m.as_str()).concat(".").concat(p.as_str()),
            RcError::WrongService(s) => String::from_str("wrong service in stats: ").concat(
                s.as_str(),
            ),
            RcError::MissingField(n) => String::from_str("missing field: ").concat(n.as_str()),
            RcError::SetRejected(r) => String::from_str("failed to set RC: ").concat(r.as_str()),
        }
    }
}

} // verus!
