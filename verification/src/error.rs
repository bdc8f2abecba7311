use vstd::prelude::*;

verus! {

/// The three non-overlapping failure kinds a key exchange can end with.
///
/// Every internal step fails closed: any error aborts the whole batch and no
/// partial list of shared keys is ever returned.
#[derive(Clone, Copy, Debug, PartialEq, Eq, Structural, Hash)]
pub enum KexError {
    /// Network, connection or remote-service failure.
    RpcError,
    /// The reply is syntactically well formed but fails the batch's length
    /// or positional-tag correspondence with the request.
    InvalidResponse,
    /// Failure inside the key-exchange primitive, at construction or at
    /// finalization.
    OqsError,
}

impl KexError {
    /// A short human-readable description of the error kind.
    pub fn description(&self) -> (r: &'static str)
        ensures
            self is RpcError ==> r@ == "RPC client returned an error"@,
            self is InvalidResponse ==> r@ == "RPC response is syntactically valid but unexpected"@,
            self is OqsError ==> r@ == "OQS returned an error"@,
    {
        match self {
            KexError::RpcError => "RPC client returned an error",
            KexError::InvalidResponse => "RPC response is syntactically valid but unexpected",
            KexError::OqsError => "OQS returned an error",
        }
    }
}

} // verus!
