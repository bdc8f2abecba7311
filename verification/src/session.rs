use vstd::prelude::*;

use crate::alg::{KexAlg, RandAlg};
use crate::error::KexError;
use crate::msg::{copy_bytes, AliceMsg, BobMsg, SharedKey};

verus! {

/// One ephemeral initiator exchange: the algorithm it is bound to, the public
/// material that becomes the outbound message, and the secret material needed
/// to finalize the exchange.
///
/// An initiator is single use: the session pairs it with exactly one peer
/// message, at its own batch position, and never hands it out twice.
pub struct Initiator {
    pub algorithm: KexAlg,
    pub public_data: Vec<u8>,
    pub secret_data: Vec<u8>,
}

/// The positional correspondence the protocol demands of a reply: the peer
/// returned exactly one message per sent exchange, in order, each tagged with
/// the algorithm of the exchange at the same position.
pub open spec fn response_matches(entries: Seq<Initiator>, responses: Seq<BobMsg>) -> bool {
    &&& responses.len() == entries.len()
    &&& forall|i: int|
        0 <= i < entries.len() ==> #[trigger] responses[i].algorithm == entries[i].algorithm
}

/// Builds the ordered batch of independent initiator exchanges for one
/// session.
///
/// The builder fixes the requested algorithm list and the entropy backend up
/// front; the caller then supplies, one entry at a time and in request order,
/// the ephemeral key material the exchange primitive produced for the next
/// algorithm.
pub struct SessionBuilder {
    rand: RandAlg,
    algs: Vec<KexAlg>,
    entries: Vec<Initiator>,
}

impl SessionBuilder {
    /// The entropy backend this session was started with.
    pub closed spec fn rand_alg(&self) -> RandAlg {
        self.rand
    }

    /// The requested algorithm list, in request order.
    pub closed spec fn algs(&self) -> Seq<KexAlg> {
        self.algs@
    }

    /// The exchanges built so far, in request order.
    pub closed spec fn entries(&self) -> Seq<Initiator> {
        self.entries@
    }

    /// Every built entry sits at its own request position and carries the
    /// algorithm requested there.
    pub open spec fn wf(&self) -> bool {
        &&& self.entries().len() <= self.algs().len()
        &&& forall|i: int|
            0 <= i < self.entries().len() ==> #[trigger] self.entries()[i].algorithm
                == self.algs()[i]
    }

    /// All requested exchanges have been built.
    pub open spec fn complete(&self) -> bool {
        self.entries().len() == self.algs().len()
    }

    /// Starts an empty batch for the given algorithm list.
    ///
    /// An empty list is legal and yields an empty batch; duplicate algorithm
    /// identifiers are legal and each occurrence gets its own entry.
    pub fn new(rand: RandAlg, algs: Vec<KexAlg>) -> (s: Self)
        ensures
            s.wf(),
            s.rand_alg() == rand,
            s.algs() == algs@,
            s.entries().len() == 0,
    {
        SessionBuilder { rand, algs, entries: Vec::new() }
    }

    /// The entropy backend this session was started with.
    pub fn rand(&self) -> (r: RandAlg)
        ensures
            r == self.rand_alg(),
    {
        self.rand
    }

    /// The algorithm the next entry must be keyed for, or `None` when the
    /// batch is complete.
    pub fn next_algorithm(&self) -> (r: Option<KexAlg>)
        ensures
            self.entries().len() < self.algs().len() ==> r == Some(
                self.algs()[self.entries().len() as int],
            ),
            self.entries().len() >= self.algs().len() ==> r is None,
    {
        if self.entries.len() < self.algs.len() {
            Some(self.algs[self.entries.len()])
        } else {
            None
        }
    }

    /// Records the ephemeral material produced for the next requested
    /// algorithm, extending the batch by one entry at the next position.
    pub fn add_initiator(&mut self, public_data: Vec<u8>, secret_data: Vec<u8>)
        requires
            old(self).wf(),
            old(self).entries().len() < old(self).algs().len(),
        ensures
            final(self).wf(),
            final(self).rand_alg() == old(self).rand_alg(),
            final(self).algs() == old(self).algs(),
            final(self).entries().len() == old(self).entries().len() + 1,
            forall|i: int|
                0 <= i < old(self).entries().len() ==> #[trigger] final(self).entries()[i]
                    == old(self).entries()[i],
            final(self).entries().last().algorithm == old(self).algs()[old(
                self,
            ).entries().len() as int],
            final(self).entries().last().public_data@ == public_data@,
            final(self).entries().last().secret_data@ == secret_data@,
    {
        let algorithm = self.algs[self.entries.len()];
        self.entries.push(Initiator { algorithm, public_data, secret_data });
    }

    /// Whether every requested exchange has been built.
    pub fn is_complete(&self) -> (r: bool)
        ensures
            r == self.complete(),
    {
        self.entries.len() == self.algs.len()
    }

    /// The ordered outbound batch: one tagged message per built entry, in
    /// request order, each carrying the public material of its entry.
    pub fn alice_msgs(&self) -> (r: Vec<AliceMsg>)
        requires
            self.wf(),
        ensures
            r@.len() == self.entries().len(),
            forall|i: int|
                0 <= i < r@.len() ==> #[trigger] r@[i].algorithm == self.algs()[i],
            forall|i: int|
                0 <= i < r@.len() ==> #[trigger] r@[i].data@ == self.entries()[i].public_data@,
    {
        let mut r: Vec<AliceMsg> = Vec::new();
        let mut i: usize = 0;
        while i < self.entries.len()
            invariant
                self.wf(),
                i <= self.entries().len(),
                r@.len() == i,
                forall|j: int| 0 <= j < i ==> #[trigger] r@[j].algorithm == self.algs()[j],
                forall|j: int|
                    0 <= j < i ==> #[trigger] r@[j].data@ == self.entries()[j].public_data@,
            decreases self.entries().len() - i,
        {
            let entry = &self.entries[i];
            let data = copy_bytes(&entry.public_data);
            r.push(AliceMsg { algorithm: entry.algorithm, data });
            i += 1;
        }
        r
    }
}

/// One finalization the caller must run through the exchange primitive: the
/// algorithm, the initiator's secret material, and the validated peer
/// message's payload, all for a single batch position.
pub struct PendingExchange {
    pub algorithm: KexAlg,
    pub secret_data: Vec<u8>,
    pub peer_data: Vec<u8>,
}

/// Validates a reply against the sent batch, and only on success finalizes
/// the batch, one entry at a time, into shared keys.
///
/// A reducer can only be obtained by passing the validation of
/// [`Reducer::new`]; a reply of wrong length or with a mismatched tag never
/// yields one, so no key is ever derived from an unvalidated reply.
pub struct Reducer {
    entries: Vec<Initiator>,
    responses: Vec<BobMsg>,
    keys: Vec<SharedKey>,
}

impl Reducer {
    /// The sent exchanges, in request order.
    pub closed spec fn entries(&self) -> Seq<Initiator> {
        self.entries@
    }

    /// The validated reply, in the same order.
    pub closed spec fn responses(&self) -> Seq<BobMsg> {
        self.responses@
    }

    /// The keys derived so far, one per leading batch position.
    pub closed spec fn keys(&self) -> Seq<SharedKey> {
        self.keys@
    }

    /// The reply matches the sent batch positionally, and every derived key
    /// sits at its own batch position and carries that position's algorithm.
    pub open spec fn wf(&self) -> bool {
        &&& response_matches(self.entries(), self.responses())
        &&& self.keys().len() <= self.entries().len()
        &&& forall|i: int|
            0 <= i < self.keys().len() ==> #[trigger] self.keys()[i].algorithm
                == self.entries()[i].algorithm
    }

    /// Every entry has been finalized into a key.
    pub open spec fn complete(&self) -> bool {
        self.keys().len() == self.entries().len()
    }

    /// Checks the reply against the completed batch and takes ownership of
    /// both for reduction.
    ///
    /// Succeeds exactly when the reply has the batch's length and, at every
    /// position, the tag of the exchange sent there; any shorter, longer,
    /// reordered or otherwise mistagged reply is rejected whole with
    /// [`KexError::InvalidResponse`], before any key is derived.
    pub fn new(builder: SessionBuilder, responses: Vec<BobMsg>) -> (r: Result<Reducer, KexError>)
        requires
            builder.wf(),
            builder.complete(),
        ensures
            (match r {
                Ok(red) => {
                    &&& response_matches(builder.entries(), responses@)
                    &&& red.wf()
                    &&& red.entries() == builder.entries()
                    &&& red.responses() == responses@
                    &&& red.keys().len() == 0
                },
                Err(e) => {
                    &&& !response_matches(builder.entries(), responses@)
                    &&& e == KexError::InvalidResponse
                },
            }),
    {
        if responses.len() != builder.entries.len() {
            return Err(KexError::InvalidResponse);
        }
        let mut i: usize = 0;
        while i < builder.entries.len()
            invariant
                i <= builder.entries().len(),
                responses@.len() == builder.entries().len(),
                forall|j: int|
                    0 <= j < i ==> #[trigger] responses@[j].algorithm
                        == builder.entries()[j].algorithm,
            decreases builder.entries().len() - i,
        {
            if builder.entries[i].algorithm != responses[i].algorithm {
                return Err(KexError::InvalidResponse);
            }
            i += 1;
        }
        let SessionBuilder { rand: _, algs: _, entries } = builder;
        Ok(Reducer { entries, responses, keys: Vec::new() })
    }

    /// The next finalization to run, or `None` when every entry has been
    /// finalized.
    ///
    /// The exchange handed out is always the one at the first position that
    /// has no key yet, paired with the peer message at that same position;
    /// positions are therefore finalized in order, each exactly once.
    pub fn next_exchange(&self) -> (r: Option<PendingExchange>)
        requires
            self.wf(),
        ensures
            (match r {
                Some(p) => {
                    &&& self.keys().len() < self.entries().len()
                    &&& p.algorithm == self.entries()[self.keys().len() as int].algorithm
                    &&& p.secret_data@ == self.entries()[self.keys().len() as int].secret_data@
                    &&& p.peer_data@ == self.responses()[self.keys().len() as int].data@
                },
                None => self.complete(),
            }),
    {
        if self.keys.len() < self.entries.len() {
            let entry = &self.entries[self.keys.len()];
            let response = &self.responses[self.keys.len()];
            Some(
                PendingExchange {
                    algorithm: entry.algorithm,
                    secret_data: copy_bytes(&entry.secret_data),
                    peer_data: copy_bytes(&response.data),
                },
            )
        } else {
            None
        }
    }

    /// Records the key the exchange primitive derived for the next pending
    /// position, tagging it with that position's algorithm.
    pub fn add_key(&mut self, key_data: Vec<u8>)
        requires
            old(self).wf(),
            old(self).keys().len() < old(self).entries().len(),
        ensures
            final(self).wf(),
            final(self).entries() == old(self).entries(),
            final(self).responses() == old(self).responses(),
            final(self).keys().len() == old(self).keys().len() + 1,
            forall|i: int|
                0 <= i < old(self).keys().len() ==> #[trigger] final(self).keys()[i] == old(
                    self,
                ).keys()[i],
            final(self).keys().last().algorithm == old(self).entries()[old(
                self,
            ).keys().len() as int].algorithm,
            final(self).keys().last().data@ == key_data@,
    {
        let algorithm = self.entries[self.keys.len()].algorithm;
        self.keys.push(SharedKey { algorithm, data: key_data });
    }

    /// Whether every entry has been finalized.
    pub fn is_complete(&self) -> (r: bool)
        ensures
            r == self.complete(),
    {
        self.keys.len() == self.entries.len()
    }

    /// The full ordered key list, or `None` while any entry still lacks its
    /// key — a partial batch is never released.
    pub fn finish(self) -> (r: Option<Vec<SharedKey>>)
        requires
            self.wf(),
        ensures
            (match r {
                Some(keys) => {
                    &&& self.complete()
                    &&& keys@ == self.keys()
                    &&& keys@.len() == self.entries().len()
                    &&& forall|i: int|
                        0 <= i < keys@.len() ==> #[trigger] keys@[i].algorithm
                            == self.entries()[i].algorithm
                },
                None => !self.complete(),
            }),
    {
        if self.keys.len() == self.entries.len() {
            Some(self.keys)
        } else {
            None
        }
    }
}

} // verus!
