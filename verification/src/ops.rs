//! The operation dispatcher: stateless, non-durable remote calls with typed
//! input and output. One input shape is statically bound to one operation;
//! the dispatcher persists no checkpoint, so retries are the caller's
//! responsibility.
use vstd::prelude::*;

use crate::error::EngineError;

verus! {

/// The identity an operation runs under: the dispatching context's ray id
/// (so the whole request chain traces together), a request id fresh for this
/// call, and the timestamps of the surrounding request.
pub struct OperationCtx {
    pub name: String,
    pub req_id: u128,
    pub ray_id: u128,
    pub ts: i64,
    pub req_ts: i64,
}

/// A typed operation input. Implementations live with the services that own
/// the operations, outside the core: each binds one input shape to one named
/// operation whose body is an opaque deterministic handler.
pub trait Operation: Sized {
    type Output;

    /// The deterministic outcome of the operation for this input: success
    /// with the typed output, or one error of the taxonomy.
    spec fn spec_output(&self) -> Result<Self::Output, EngineError>;

    /// The operation's static routing name.
    spec fn spec_name(&self) -> Seq<char>;

    fn op_name(&self) -> (r: String)
        ensures
            r@ == self.spec_name(),
    ;

    /// Run the operation body under the given identity. The handler decides
    /// the outcome from the input alone; the identity is for tracing and
    /// pool access, never for the result.
    fn handle(self, octx: &OperationCtx) -> (r: Result<Self::Output, EngineError>)
        ensures
            r == self.spec_output(),
    ;
}

} // verus!
