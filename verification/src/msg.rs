use vstd::prelude::*;

use crate::alg::KexAlg;

verus! {

/// The public message the initiator derives from one ephemeral exchange.
///
/// It is tagged with the algorithm it belongs to and is safe to transmit.
#[derive(Clone, Debug, PartialEq, Eq)]
pub struct AliceMsg {
    pub algorithm: KexAlg,
    pub data: Vec<u8>,
}

/// The public message the remote service returns for one exchange.
///
/// It is untrusted until its tag has been validated against the request.
#[derive(Clone, Debug, PartialEq, Eq)]
pub struct BobMsg {
    pub algorithm: KexAlg,
    pub data: Vec<u8>,
}

/// The secret outcome of finalizing one exchange, tagged with the algorithm
/// that produced it.
#[derive(Clone, Debug, PartialEq, Eq)]
pub struct SharedKey {
    pub algorithm: KexAlg,
    pub data: Vec<u8>,
}

/// An explicit, verified byte-for-byte copy of a buffer.
pub fn copy_bytes(v: &Vec<u8>) -> (r: Vec<u8>)
    ensures
        r@ == v@,
{
    let mut r: Vec<u8> = Vec::new();
    let mut i: usize = 0;
    while i < v.len()
        invariant
            i <= v@.len(),
            r@ == v@.subrange(0, i as int),
        decreases v@.len() - i,
    {
        r.push(v[i]);
        i += 1;
    }
    proof {
        assert(r@ =~= v@);
    }
    r
}

impl AliceMsg {
    pub fn new(algorithm: KexAlg, data: Vec<u8>) -> (r: Self)
        ensures
            r.algorithm == algorithm,
            r.data@ == data@,
    {
        AliceMsg { algorithm, data }
    }

    pub fn algorithm(&self) -> (r: KexAlg)
        ensures
            r == self.algorithm,
    {
        self.algorithm
    }
}

impl BobMsg {
    pub fn new(algorithm: KexAlg, data: Vec<u8>) -> (r: Self)
        ensures
            r.algorithm == algorithm,
            r.data@ == data@,
    {
        BobMsg { algorithm, data }
    }

    pub fn algorithm(&self) -> (r: KexAlg)
        ensures
            r == self.algorithm,
    {
        self.algorithm
    }
}

impl SharedKey {
    pub fn new(algorithm: KexAlg, data: Vec<u8>) -> (r: Self)
        ensures
            r.algorithm == algorithm,
            r.data@ == data@,
    {
        SharedKey { algorithm, data }
    }

    pub fn algorithm(&self) -> (r: KexAlg)
        ensures
            r == self.algorithm,
    {
        self.algorithm
    }
}

} // verus!
