//! Endpoint descriptors, called Cogs: the capability contract any concrete
//! remote endpoint implements so the engine can stay endpoint-agnostic.

pub mod translation;

use vstd::prelude::*;
use crate::engine::Error as EngineError;
use crate::http::{Request, RequestView};

verus! {

/// Trait representing something that can be turned into a remote service
/// endpoint call.
///
/// In essence, an implementor is capable of
///
///   1. converting its typed request into a protocol-level [`Request`], and
///   2. converting the protocol-level outcome — the target's response body,
///      or the engine's error — back into its own typed result.
///
/// The two spec functions pin down what each implementor's conversions mean;
/// the engine never inspects or builds endpoint-specific payloads.
pub trait Cog: Sized {
    /// Item type of the typed result.
    type Item;

    /// Error type of the typed result; it composes the engine's error with
    /// endpoint-specific failures.
    type Error;

    /// The protocol request this descriptor maps to, if it can be built.
    spec fn req_spec(self) -> Option<RequestView>;

    /// How a protocol-level outcome maps to the typed result.
    spec fn output_matches(r: Result<Vec<u8>, EngineError>, out: Result<
        Self::Item,
        Self::Error,
    >) -> bool;

    /// Converts the typed request into a protocol-level request, with no
    /// authorization attached yet.
    fn to_request(self) -> (r: Result<Request, Self::Error>)
        ensures
            r matches Ok(req) ==> Some(req@) == self.req_spec(),
            r is Err ==> self.req_spec() is None,
    ;

    /// Converts the protocol-level outcome back into the typed result.
    fn from_result(r: Result<Vec<u8>, EngineError>) -> (out: Result<Self::Item, Self::Error>)
        ensures
            Self::output_matches(r, out),
    ;
}

} // verus!
