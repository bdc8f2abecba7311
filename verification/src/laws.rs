use vstd::prelude::*;

use crate::msg::{BobMsg, SharedKey};
use crate::session::{response_matches, Initiator, Reducer, SessionBuilder};

verus! {

/// A session that was built to completion and reduced to completion yields
/// exactly one shared key per requested algorithm: the key list has the
/// length of the request, and the key at every position carries the
/// algorithm requested at that position.
pub proof fn lemma_completed_exchange_matches_request(
    b: SessionBuilder,
    r: Reducer,
    keys: Seq<SharedKey>,
)
    requires
        b.wf(),
        b.complete(),
        r.wf(),
        r.entries() == b.entries(),
        r.complete(),
        keys == r.keys(),
    ensures
        keys.len() == b.algs().len(),
        forall|i: int| 0 <= i < keys.len() ==> #[trigger] keys[i].algorithm == b.algs()[i],
{
    assert forall|i: int| 0 <= i < keys.len() implies #[trigger] keys[i].algorithm
        == b.algs()[i] by {
        assert(keys[i].algorithm == r.entries()[i].algorithm);
        assert(b.entries()[i].algorithm == b.algs()[i]);
    }
}

/// An empty request is already a complete batch, and the empty reply passes
/// validation: an exchange over no algorithms succeeds with no keys rather
/// than failing.
pub proof fn lemma_empty_request_accepted(b: SessionBuilder, responses: Seq<BobMsg>)
    requires
        b.wf(),
        b.algs().len() == 0,
        responses.len() == 0,
    ensures
        b.complete(),
        response_matches(b.entries(), responses),
{
}

/// A reply that is shorter or longer than the sent batch never matches it,
/// so validation rejects it before any key is derived.
pub proof fn lemma_length_mismatch_rejected(entries: Seq<Initiator>, responses: Seq<BobMsg>)
    requires
        responses.len() != entries.len(),
    ensures
        !response_matches(entries, responses),
{
}

/// A reply of the right length whose tag at any one position differs from
/// the tag sent there — a reordered reply in particular — never matches the
/// sent batch, so validation rejects it whole.
pub proof fn lemma_mistagged_reply_rejected(
    entries: Seq<Initiator>,
    responses: Seq<BobMsg>,
    i: int,
)
    requires
        0 <= i < entries.len(),
        0 <= i < responses.len(),
        responses[i].algorithm != entries[i].algorithm,
    ensures
        !response_matches(entries, responses),
{
}

} // verus!
