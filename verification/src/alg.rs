use vstd::prelude::*;

verus! {

/// Names one key-exchange algorithm out of a fixed, finite set.
///
/// The identifier is used as the correlation tag between request and response
/// entries: every outbound message, every peer message and every derived key
/// carries the identifier of the algorithm it belongs to.
#[derive(Clone, Copy, Debug, PartialEq, Eq, Structural, Hash)]
pub enum KexAlg {
    MlKem512,
    MlKem768,
    MlKem1024,
    Kyber512,
    Kyber768,
    Kyber1024,
    FrodoKem640Shake,
    Hqc128,
}

/// Names the entropy backend that drives ephemeral key generation.
///
/// Selecting a backend is pure configuration: it only affects sessions
/// started after the selection.
#[derive(Clone, Copy, Debug, PartialEq, Eq, Structural, Hash)]
pub enum RandAlg {
    System,
    OpenSsl,
}

impl Default for RandAlg {
    /// The backend used when none is ever selected.
    fn default() -> (r: Self)
        ensures
            r == RandAlg::System,
    {
        RandAlg::System
    }
}

} // verus!
