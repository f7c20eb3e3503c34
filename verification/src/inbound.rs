//! The inbound pump: local endpoint bytes to the mesh.
//!
//! The pump snapshots the link tracker; while no link is tracked it
//! only waits, and forwarding is fully gated — zero fragments reach
//! the mesh transport.  With a link present, one read's bytes are
//! split into fragments of at most the mesh payload limit and each
//! fragment is submitted across the tracked link.  A read error is
//! retried by the surrounding loop with the same bounded cadence, so
//! a persistent device fault never busy-loops.

use vstd::prelude::*;

use crate::addr::LinkId;
use crate::fragment::fragment;
use crate::fragment::spec_fragments;

verus! {

/// What the inbound pump submits for one read: nothing while no link
/// is tracked, otherwise the fragments of the bytes read.
pub open spec fn spec_inbound_submission(link: Option<LinkId>, data: Seq<u8>, mdu: nat) -> Seq<
    Seq<u8>,
>
    recommends
        mdu >= 1,
{
    if link is None {
        Seq::empty()
    } else {
        spec_fragments(data, mdu)
    }
}

/// While the link tracker is absent the inbound pump submits zero
/// fragments, whatever bytes the endpoint would offer: forwarding is
/// gated, not merely throttled.
pub proof fn lemma_absent_link_gates_inbound(data: Seq<u8>, mdu: nat)
    ensures
        spec_inbound_submission(None, data, mdu) == Seq::<Seq<u8>>::empty(),
        spec_inbound_submission(None, data, mdu).len() == 0,
{
}

/// Inbound pump gate: whether a read from the local endpoint shall be
/// forwarded at all, from a snapshot of the link tracker.  When this
/// returns `false` the loop suspends for its bounded idle interval
/// instead of reading.
pub fn inbound_gate(link: &Option<LinkId>) -> (forward: bool)
    ensures
        forward <==> link is Some,
{
    link.is_some()
}

/// One inbound pump step: the fragments to submit to the mesh
/// transport for one read of `data`, given a snapshot of the link
/// tracker.  The fragments preserve byte order, each is at most `mdu`
/// bytes, and while no link is tracked nothing is submitted.
pub fn inbound_step(link: &Option<LinkId>, data: &[u8], mdu: usize) -> (frags: Vec<Vec<u8>>)
    requires
        mdu >= 1,
    ensures
        frags@.len() == spec_inbound_submission(*link, data@, mdu as nat).len(),
        forall|j: int|
            0 <= j < frags@.len() ==> (#[trigger] frags@[j])@ == spec_inbound_submission(
                *link,
                data@,
                mdu as nat,
            )[j],
{
    if link.is_some() {
        fragment(data, mdu)
    } else {
        Vec::new()
    }
}

} // verus!
