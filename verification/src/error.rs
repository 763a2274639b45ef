//! The uniform error model of the adapter.

use vstd::prelude::*;

verus! {

/// Everything that can go wrong between building a request and reading its answer.
#[derive(Clone, Copy, PartialEq, Eq, Debug, Structural)]
pub enum ErrorKind {
    /// A namespace path failed the validity check, or a transform was given an empty
    /// pattern or template sequence.
    EncodingError,
    /// The request never reached the engine: connection refused, timeout, DNS failure or
    /// any other network-layer fault.
    TransportError,
    /// The engine answered, but the body could not be read as text.
    ResponseDecodeError,
    /// A request declared a body that the route it addresses cannot carry.
    UnsupportedBodyType,
}

impl ErrorKind {
    /// The status every error kind is surfaced with: callers see one opaque
    /// internal-error signal, whatever the cause.
    pub open spec fn spec_status(self) -> u16 {
        500
    }

    /// Status code under which this error is reported to the caller.
    #[verifier::when_used_as_spec(spec_status)]
    pub fn status(self) -> (code: u16)
        ensures
            code == self.spec_status(),
    {
        500
    }
}

} // verus!
