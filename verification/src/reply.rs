//! What a JSON-RPC call to a chain node brought back.

use vstd::prelude::*;

verus! {

/// What an RPC call brought back, once the request went through.
#[derive(Clone, Debug)]
pub enum RpcReply<T> {
    /// The server answered with this HTTP status, which is not a success.
    HttpFailure { status: u16 },
    /// The body is not a JSON-RPC reply of the expected shape.
    Unparsable { error: String },
    /// The node answered with a JSON-RPC error object instead of a result.
    RpcError { message: String },
    /// The reply's `result`, which may be null.
    Parsed(Option<T>),
}

} // verus!
