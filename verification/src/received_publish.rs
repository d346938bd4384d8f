//! Tracking of inbound PUBLISH packets.
//!
//! QoS 0 and 1 messages are dispatched to their handler directly, QoS 1 ones
//! answered with PUBACK. A QoS 2 message is answered with PUBREC and its
//! identifier parked in `pending_rel`; a redelivery while the identifier is
//! parked is answered again but not dispatched again. PUBREL clears the entry
//! and is answered with PUBCOMP.

use std::collections::HashMap;

use vstd::prelude::*;

use crate::notify::Completion;
use crate::packet::{Packet, PubAck, PubComp, PubRec, PubRel, Publish, PublishView, QoS};

verus! {

broadcast use vstd::std_specs::hash::group_hash_axioms;

/// The mathematical state of the tracker: the QoS 2 messages between the
/// PUBREC the client sent and the PUBREL it awaits.
pub ghost struct ReceivedView {
    pub pending_rel: Map<u16, PublishView>,
}

/// Whether a delivery is handed to its handler: always, except a QoS 2
/// message whose identifier is already parked — that is a redelivery the
/// handler has already seen.
pub open spec fn spec_dispatches(v: ReceivedView, p: PublishView) -> bool {
    p.qos != QoS::ExactlyOnce || !v.pending_rel.dom().contains(p.pkid)
}

/// How a delivery changes the tracker: only a fresh QoS 2 message parks its
/// identifier.
pub open spec fn spec_received_publish(v: ReceivedView, p: PublishView) -> ReceivedView {
    if p.qos == QoS::ExactlyOnce && !v.pending_rel.dom().contains(p.pkid) {
        ReceivedView { pending_rel: v.pending_rel.insert(p.pkid, p) }
    } else {
        v
    }
}

/// The reply a delivery is answered with: nothing at QoS 0, PUBACK at QoS 1,
/// PUBREC at QoS 2 — the last one also on redeliveries.
pub open spec fn spec_publish_replies(p: PublishView) -> Seq<Packet> {
    match p.qos {
        QoS::AtMostOnce => Seq::empty(),
        QoS::AtLeastOnce => seq![Packet::PubAck(PubAck { pkid: p.pkid })],
        QoS::ExactlyOnce => seq![Packet::PubRec(PubRec { pkid: p.pkid })],
    }
}

/// A PUBREL for `id`: the release the parked entry was waiting for.
pub open spec fn spec_received_pubrel(v: ReceivedView, id: u16) -> ReceivedView {
    ReceivedView { pending_rel: v.pending_rel.remove(id) }
}

/// What to do with one inbound delivery: whether to invoke the matched
/// handler, and which acknowledgments to send back.
pub struct ReceivedAction {
    pub dispatch: bool,
    pub replies: Vec<Packet>,
}

/// Per-client state machine for inbound PUBLISH packets.
pub struct ReceivedPublishHandler {
    pending_rel: HashMap<u16, Publish>,
}

impl View for ReceivedPublishHandler {
    type V = ReceivedView;

    closed spec fn view(&self) -> ReceivedView {
        ReceivedView { pending_rel: self.pending_rel@.map_values(|p: Publish| p@) }
    }
}

impl ReceivedPublishHandler {
    /// A tracker with no release pending.
    pub fn new() -> (r: ReceivedPublishHandler)
        ensures
            r@.pending_rel == Map::<u16, PublishView>::empty(),
    {
        let r = ReceivedPublishHandler { pending_rel: HashMap::new() };
        proof {
            assert(r@.pending_rel =~= Map::<u16, PublishView>::empty());
        }
        r
    }

    /// How many inbound QoS 2 messages await their PUBREL.
    pub fn pending_rel_len(&self) -> (n: usize)
        ensures
            n == self@.pending_rel.dom().len(),
    {
        proof {
            assert(self@.pending_rel.dom() =~= self.pending_rel@.dom());
        }
        self.pending_rel.len()
    }

    /// Accept one inbound delivery: decide whether its handler runs and which
    /// acknowledgment answers it, parking a fresh QoS 2 identifier.
    pub fn publish(&mut self, publish: Publish) -> (r: ReceivedAction)
        ensures
            final(self)@ == spec_received_publish(old(self)@, publish@),
            r.dispatch == spec_dispatches(old(self)@, publish@),
            r.replies@ == spec_publish_replies(publish@),
    {
        match publish.qos {
            QoS::AtMostOnce => ReceivedAction { dispatch: true, replies: Vec::new() },
            QoS::AtLeastOnce => {
                let mut replies: Vec<Packet> = Vec::new();
                replies.push(Packet::PubAck(PubAck { pkid: publish.pkid }));
                proof {
                    assert(replies@ =~= spec_publish_replies(publish@));
                }
                ReceivedAction { dispatch: true, replies }
            },
            QoS::ExactlyOnce => {
                let mut replies: Vec<Packet> = Vec::new();
                replies.push(Packet::PubRec(PubRec { pkid: publish.pkid }));
                proof {
                    assert(replies@ =~= spec_publish_replies(publish@));
                }
                let fresh = !self.pending_rel.contains_key(&publish.pkid);
                if fresh {
                    let pkid = publish.pkid;
                    self.pending_rel.insert(pkid, publish);
                    proof {
                        assert(self@.pending_rel =~= spec_received_publish(
                            old(self)@,
                            publish@,
                        ).pending_rel);
                    }
                    ReceivedAction { dispatch: true, replies }
                } else {
                    ReceivedAction { dispatch: false, replies }
                }
            },
        }
    }

    /// An outbound PUBACK needs no tracking: it completes immediately.
    pub fn puback(&self, _puback: &mut PubAck) -> (r: Completion)
        ensures
            r is Immediate,
            *final(_puback) == *old(_puback),
    {
        Completion::Immediate
    }

    /// An outbound PUBREC needs no tracking: it completes immediately.
    pub fn pubrec(&self, _pubrec: &mut PubRec) -> (r: Completion)
        ensures
            r is Immediate,
            *final(_pubrec) == *old(_pubrec),
    {
        Completion::Immediate
    }

    /// A PUBREL arrived: clear the parked entry and answer with PUBCOMP.
    pub fn pubrel(&mut self, pubrel: PubRel) -> (r: Vec<Packet>)
        ensures
            final(self)@ == spec_received_pubrel(old(self)@, pubrel.pkid),
            r@ == seq![Packet::PubComp(PubComp { pkid: pubrel.pkid })],
    {
        self.pending_rel.remove(&pubrel.pkid);
        proof {
            assert(self@.pending_rel =~= spec_received_pubrel(old(self)@, pubrel.pkid).pending_rel);
        }
        let mut r: Vec<Packet> = Vec::new();
        r.push(Packet::PubComp(PubComp { pkid: pubrel.pkid }));
        proof {
            assert(r@ =~= seq![Packet::PubComp(PubComp { pkid: pubrel.pkid })]);
        }
        r
    }

    /// An outbound PUBCOMP needs no tracking: it completes immediately.
    pub fn pubcomp(&self, _pubcomp: &mut PubComp) -> (r: Completion)
        ensures
            r is Immediate,
            *final(_pubcomp) == *old(_pubcomp),
    {
        Completion::Immediate
    }
}

/// Law: an inbound QoS 2 message is dispatched exactly once per parked
/// identifier. The first delivery parks the identifier and dispatches; any
/// redelivery before the matching PUBREL is answered but not dispatched and
/// changes nothing; the PUBREL clears the entry again.
pub proof fn lemma_qos2_dispatch_once(v: ReceivedView, p: PublishView)
    requires
        p.qos == QoS::ExactlyOnce,
        !v.pending_rel.dom().contains(p.pkid),
    ensures
        ({
            let parked = spec_received_publish(v, p);
            &&& spec_dispatches(v, p)
            &&& !spec_dispatches(parked, p)
            &&& spec_received_publish(parked, p) == parked
            &&& spec_received_pubrel(parked, p.pkid).pending_rel =~= v.pending_rel
        }),
{
}

} // verus!
