use vstd::prelude::*;

use crate::alg::{KexAlg, RandAlg};
use crate::session::SessionBuilder;

verus! {

/// The client-side configuration of the key-exchange protocol: which entropy
/// backend drives ephemeral key generation.
///
/// Changing the backend is pure configuration: it binds sessions started
/// afterwards and has no effect on sessions already started or completed.
pub struct OqsKexClient {
    rand: RandAlg,
}

impl OqsKexClient {
    /// The currently selected entropy backend.
    pub closed spec fn rand_alg(&self) -> RandAlg {
        self.rand
    }

    /// A client with the default entropy backend.
    pub fn new() -> (r: Self)
        ensures
            r.rand_alg() == RandAlg::System,
    {
        OqsKexClient { rand: RandAlg::default() }
    }

    /// Selects which entropy backend subsequently started sessions use.
    pub fn set_rand(&mut self, rand: RandAlg)
        ensures
            final(self).rand_alg() == rand,
    {
        self.rand = rand;
    }

    /// The currently selected entropy backend.
    pub fn rand(&self) -> (r: RandAlg)
        ensures
            r == self.rand_alg(),
    {
        self.rand
    }

    /// Starts an empty session batch for the given algorithm list, bound to
    /// the currently selected entropy backend.
    pub fn start_session(&self, algs: Vec<KexAlg>) -> (s: SessionBuilder)
        ensures
            s.wf(),
            s.rand_alg() == self.rand_alg(),
            s.algs() == algs@,
            s.entries().len() == 0,
    {
        SessionBuilder::new(self.rand, algs)
    }
}

} // verus!
