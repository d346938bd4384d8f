//! Tracking of locally originated PUBLISH packets at QoS 1 and 2.
//!
//! QoS 1 entries wait in `pending_ack` for PUBACK; QoS 2 entries wait in
//! `pending_rec` for PUBREC, after which only the bare identifier waits in
//! `pending_comp` for PUBCOMP. The caller is notified at PUBACK respectively
//! PUBREC; PUBCOMP is local bookkeeping only.

use std::collections::{HashMap, HashSet};
use std::sync::Arc;

use vstd::prelude::*;

use tokio::sync::Notify;

use crate::codec::Error;
use crate::notify::{clone_notify, fresh_notify, notify_one, Completion};
use crate::packet::{Packet, PubAck, PubComp, PubRec, PubRel, Publish, PublishView, QoS};
use crate::pkid::next_pkid;

verus! {

broadcast use vstd::std_specs::hash::group_hash_axioms;

/// The mathematical state of the tracker: the counter and, per identifier,
/// the pending message of each stage together with the completion signal
/// that its acknowledgment fires.
pub ghost struct SentView {
    pub next_id: u16,
    pub pending_ack: Map<u16, (PublishView, Arc<Notify>)>,
    pub pending_rec: Map<u16, (PublishView, Arc<Notify>)>,
    pub pending_comp: Set<u16>,
}

impl SentView {
    /// An identifier not pending in any stage.
    pub open spec fn pkid_free(self, id: u16) -> bool {
        &&& !self.pending_ack.dom().contains(id)
        &&& !self.pending_rec.dom().contains(id)
        &&& !self.pending_comp.contains(id)
    }

    /// Well-formedness: every pending identifier sits in exactly one stage,
    /// none is zero, and the maps are finite.
    pub open spec fn wf(self) -> bool {
        &&& self.pending_ack.dom().finite()
        &&& self.pending_rec.dom().finite()
        &&& self.pending_comp.finite()
        &&& !self.pending_ack.dom().contains(0)
        &&& !self.pending_rec.dom().contains(0)
        &&& !self.pending_comp.contains(0)
        &&& self.pending_ack.dom().disjoint(self.pending_rec.dom())
        &&& self.pending_ack.dom().disjoint(self.pending_comp)
        &&& self.pending_rec.dom().disjoint(self.pending_comp)
    }

    /// The empty tracker.
    pub open spec fn initial() -> SentView {
        SentView {
            next_id: 0,
            pending_ack: Map::empty(),
            pending_rec: Map::empty(),
            pending_comp: Set::empty(),
        }
    }
}

/// A QoS 1 publish: issue the next identifier and park the message with its
/// completion signal until the matching PUBACK.
pub open spec fn spec_publish_qos1(v: SentView, p: PublishView, n: Arc<Notify>) -> SentView {
    SentView {
        next_id: next_pkid(v.next_id),
        pending_ack: v.pending_ack.insert(next_pkid(v.next_id), (p, n)),
        pending_rec: v.pending_rec,
        pending_comp: v.pending_comp,
    }
}

/// A QoS 2 publish: issue the next identifier and park the message with its
/// completion signal until the matching PUBREC.
pub open spec fn spec_publish_qos2(v: SentView, p: PublishView, n: Arc<Notify>) -> SentView {
    SentView {
        next_id: next_pkid(v.next_id),
        pending_ack: v.pending_ack,
        pending_rec: v.pending_rec.insert(next_pkid(v.next_id), (p, n)),
        pending_comp: v.pending_comp,
    }
}

/// A PUBACK for `id`: the QoS 1 round-trip is over.
pub open spec fn spec_puback(v: SentView, id: u16) -> SentView {
    SentView {
        next_id: v.next_id,
        pending_ack: v.pending_ack.remove(id),
        pending_rec: v.pending_rec,
        pending_comp: v.pending_comp,
    }
}

/// A PUBREC for `id`: the caller is done waiting, only the release handshake
/// remains.
pub open spec fn spec_pubrec(v: SentView, id: u16) -> SentView {
    SentView {
        next_id: v.next_id,
        pending_ack: v.pending_ack,
        pending_rec: v.pending_rec.remove(id),
        pending_comp: v.pending_comp.insert(id),
    }
}

/// A PUBCOMP for `id`: the QoS 2 round-trip is fully over.
pub open spec fn spec_pubcomp(v: SentView, id: u16) -> SentView {
    SentView {
        next_id: v.next_id,
        pending_ack: v.pending_ack,
        pending_rec: v.pending_rec,
        pending_comp: v.pending_comp.remove(id),
    }
}

/// Per-client state machine for locally originated PUBLISH packets.
pub struct SentPublishHandler {
    next_id: u16,
    pending_ack: HashMap<u16, (Publish, Arc<Notify>)>,
    pending_rec: HashMap<u16, (Publish, Arc<Notify>)>,
    pending_comp: HashSet<u16>,
}

impl View for SentPublishHandler {
    type V = SentView;

    closed spec fn view(&self) -> SentView {
        SentView {
            next_id: self.next_id,
            pending_ack: self.pending_ack@.map_values(|v: (Publish, Arc<Notify>)| (v.0@, v.1)),
            pending_rec: self.pending_rec@.map_values(|v: (Publish, Arc<Notify>)| (v.0@, v.1)),
            pending_comp: self.pending_comp@,
        }
    }
}

impl SentPublishHandler {
    /// A tracker with nothing pending and the counter at its start.
    pub fn new() -> (r: SentPublishHandler)
        ensures
            r@ == SentView::initial(),
            r@.wf(),
    {
        let r = SentPublishHandler {
            next_id: 0,
            pending_ack: HashMap::new(),
            pending_rec: HashMap::new(),
            pending_comp: HashSet::new(),
        };
        proof {
            assert(r@.pending_ack =~= Map::empty());
            assert(r@.pending_rec =~= Map::empty());
            assert(r@.pending_comp =~= Set::empty());
        }
        r
    }

    /// How many QoS 1 publishes await their PUBACK.
    pub fn pending_ack_len(&self) -> (n: usize)
        ensures
            n == self@.pending_ack.dom().len(),
    {
        proof {
            assert(self@.pending_ack.dom() =~= self.pending_ack@.dom());
        }
        self.pending_ack.len()
    }

    /// How many QoS 2 publishes await their PUBREC.
    pub fn pending_rec_len(&self) -> (n: usize)
        ensures
            n == self@.pending_rec.dom().len(),
    {
        proof {
            assert(self@.pending_rec.dom() =~= self.pending_rec@.dom());
        }
        self.pending_rec.len()
    }

    /// How many QoS 2 publishes await their PUBCOMP.
    pub fn pending_comp_len(&self) -> (n: usize)
        ensures
            n == self@.pending_comp.len(),
    {
        self.pending_comp.len()
    }

    /// Whether a QoS 1 publish with this identifier awaits its PUBACK.
    pub fn is_ack_pending(&self, pkid: u16) -> (r: bool)
        ensures
            r == self@.pending_ack.dom().contains(pkid),
    {
        self.pending_ack.contains_key(&pkid)
    }

    /// Whether a QoS 2 publish with this identifier awaits its PUBREC.
    pub fn is_rec_pending(&self, pkid: u16) -> (r: bool)
        ensures
            r == self@.pending_rec.dom().contains(pkid),
    {
        self.pending_rec.contains_key(&pkid)
    }

    /// Issue the next packet identifier, skipping zero.
    fn next_id(&mut self) -> (id: u16)
        ensures
            id == next_pkid(old(self).next_id),
            id != 0,
            final(self).next_id == id,
            final(self).pending_ack == old(self).pending_ack,
            final(self).pending_rec == old(self).pending_rec,
            final(self).pending_comp == old(self).pending_comp,
    {
        self.next_id = crate::pkid::advance(self.next_id);
        self.next_id
    }

    /// Track an outbound publish.
    ///
    /// QoS 0 is not tracked and completes immediately. For QoS 1 and 2 the
    /// next identifier is written into the packet, the packet is parked in
    /// the stage matching its QoS, and the returned signal fires when the
    /// matching acknowledgment arrives — unless that identifier is still in
    /// flight, in which case nothing changes and the publish is refused.
    pub fn publish(&mut self, publish: &mut Publish) -> (r: Result<Completion, Error>)
        requires
            old(self)@.wf(),
        ensures
            final(self)@.wf(),
            old(publish).qos == QoS::AtMostOnce ==> {
                &&& final(self)@ == old(self)@
                &&& final(publish)@ == old(publish)@
                &&& r matches Ok(c) && c is Immediate
            },
            old(publish).qos != QoS::AtMostOnce && !old(self)@.pkid_free(
                next_pkid(old(self)@.next_id),
            ) ==> {
                &&& final(self)@ == old(self)@
                &&& final(publish)@ == old(publish)@
                &&& r matches Err(e) && e is IdentifierExhausted
            },
            old(publish).qos != QoS::AtMostOnce && old(self)@.pkid_free(
                next_pkid(old(self)@.next_id),
            ) ==> {
                &&& final(publish)@ == (PublishView {
                    pkid: next_pkid(old(self)@.next_id),
                    ..old(publish)@
                })
                &&& final(publish).pkid != 0
                &&& (r matches Ok(c) && c matches Completion::Wait(n) && {
                    &&& old(publish).qos == QoS::AtLeastOnce ==> final(self)@
                        == spec_publish_qos1(old(self)@, final(publish)@, n)
                    &&& old(publish).qos == QoS::ExactlyOnce ==> final(self)@
                        == spec_publish_qos2(old(self)@, final(publish)@, n)
                })
            },
    {
        match publish.qos {
            QoS::AtMostOnce => Ok(Completion::Immediate),
            QoS::AtLeastOnce => {
                let id = crate::pkid::advance(self.next_id);
                if self.pending_ack.contains_key(&id) || self.pending_rec.contains_key(&id)
                    || self.pending_comp.contains(&id) {
                    return Err(Error::IdentifierExhausted);
                }
                let id = self.next_id();
                publish.pkid = id;
                let n = fresh_notify();
                self.pending_ack.insert(id, (publish.clone(), clone_notify(&n)));
                proof {
                    assert(self@.pending_ack =~= spec_publish_qos1(
                        old(self)@,
                        publish@,
                        n,
                    ).pending_ack);
                    assert(self@.pending_rec =~= old(self)@.pending_rec);
                }
                Ok(Completion::Wait(n))
            },
            QoS::ExactlyOnce => {
                let id = crate::pkid::advance(self.next_id);
                if self.pending_ack.contains_key(&id) || self.pending_rec.contains_key(&id)
                    || self.pending_comp.contains(&id) {
                    return Err(Error::IdentifierExhausted);
                }
                let id = self.next_id();
                publish.pkid = id;
                let n = fresh_notify();
                self.pending_rec.insert(id, (publish.clone(), clone_notify(&n)));
                proof {
                    assert(self@.pending_rec =~= spec_publish_qos2(
                        old(self)@,
                        publish@,
                        n,
                    ).pending_rec);
                    assert(self@.pending_ack =~= old(self)@.pending_ack);
                }
                Ok(Completion::Wait(n))
            },
        }
    }

    /// A PUBACK arrived: drop the pending entry and fire its signal.
    ///
    /// The identifier must be pending in the acknowledgment stage.
    pub fn puback(&mut self, puback: PubAck) -> (r: Vec<Packet>)
        requires
            old(self)@.wf(),
            old(self)@.pending_ack.dom().contains(puback.pkid),
        ensures
            final(self)@.wf(),
            final(self)@ == spec_puback(old(self)@, puback.pkid),
            r@ =~= Seq::<Packet>::empty(),
    {
        let entry = self.pending_ack.remove(&puback.pkid);
        if let Some((_, n)) = entry {
            notify_one(&n);
        }
        proof {
            assert(self@.pending_ack =~= spec_puback(old(self)@, puback.pkid).pending_ack);
            assert(self@.pending_rec =~= old(self)@.pending_rec);
        }
        Vec::new()
    }

    /// A PUBREC arrived: fire the caller's signal, move the identifier to the
    /// completion stage, and answer with the matching PUBREL.
    ///
    /// The identifier must be pending in the record stage.
    pub fn pubrec(&mut self, pubrec: PubRec) -> (r: Vec<Packet>)
        requires
            old(self)@.wf(),
            old(self)@.pending_rec.dom().contains(pubrec.pkid),
        ensures
            final(self)@.wf(),
            final(self)@ == spec_pubrec(old(self)@, pubrec.pkid),
            r@ =~= seq![Packet::PubRel(PubRel { pkid: pubrec.pkid })],
    {
        let entry = self.pending_rec.remove(&pubrec.pkid);
        if let Some((_, n)) = entry {
            notify_one(&n);
        }
        self.pending_comp.insert(pubrec.pkid);
        proof {
            assert(self@.pending_rec =~= spec_pubrec(old(self)@, pubrec.pkid).pending_rec);
            assert(self@.pending_ack =~= old(self)@.pending_ack);
            assert(self@.pending_comp =~= spec_pubrec(old(self)@, pubrec.pkid).pending_comp);
        }
        let mut r: Vec<Packet> = Vec::new();
        r.push(Packet::PubRel(PubRel { pkid: pubrec.pkid }));
        r
    }

    /// An outbound PUBREL needs no tracking: it completes immediately.
    pub fn pubrel(&self, _pubrel: &mut PubRel) -> (r: Completion)
        ensures
            r is Immediate,
            *final(_pubrel) == *old(_pubrel),
    {
        Completion::Immediate
    }

    /// A PUBCOMP arrived: the identifier leaves the completion stage.
    pub fn pubcomp(&mut self, pubcomp: PubComp) -> (r: Vec<Packet>)
        requires
            old(self)@.wf(),
        ensures
            final(self)@.wf(),
            final(self)@ == spec_pubcomp(old(self)@, pubcomp.pkid),
            r@ =~= Seq::<Packet>::empty(),
    {
        self.pending_comp.remove(&pubcomp.pkid);
        proof {
            assert(self@.pending_comp =~= spec_pubcomp(old(self)@, pubcomp.pkid).pending_comp);
            assert(self@.pending_ack =~= old(self)@.pending_ack);
            assert(self@.pending_rec =~= old(self)@.pending_rec);
        }
        Vec::new()
    }
}

/// Law: a QoS 1 publish parks its message and the caller's completion signal
/// under a fresh, nonzero identifier, and the matching PUBACK — the only step
/// that completes it, by firing exactly that stored signal — restores every
/// stage; afterwards the identifier is pending nowhere, so no second
/// completion can be signaled for it.
pub proof fn lemma_qos1_roundtrip(v: SentView, p: PublishView, n: Arc<Notify>)
    requires
        v.wf(),
        v.pkid_free(next_pkid(v.next_id)),
    ensures
        ({
            let id = next_pkid(v.next_id);
            let after_publish = spec_publish_qos1(v, p, n);
            let after_ack = spec_puback(after_publish, id);
            &&& id != 0
            &&& after_publish.pending_ack.dom().contains(id)
            &&& after_publish.pending_ack[id] == (p, n)
            &&& after_ack.pending_ack =~= v.pending_ack
            &&& after_ack.pending_rec =~= v.pending_rec
            &&& after_ack.pending_comp =~= v.pending_comp
            &&& after_ack.pkid_free(id)
        }),
{
}

/// Law: a QoS 2 publish parks its message and the caller's completion signal
/// under a fresh, nonzero identifier; the matching PUBREC — which fires
/// exactly that stored signal — moves the identifier to the completion
/// stage; the matching PUBCOMP removes it there, and afterwards no stage
/// contains the identifier.
pub proof fn lemma_qos2_roundtrip(v: SentView, p: PublishView, n: Arc<Notify>)
    requires
        v.wf(),
        v.pkid_free(next_pkid(v.next_id)),
    ensures
        ({
            let id = next_pkid(v.next_id);
            let after_publish = spec_publish_qos2(v, p, n);
            let after_rec = spec_pubrec(after_publish, id);
            let after_comp = spec_pubcomp(after_rec, id);
            &&& id != 0
            &&& after_publish.pending_rec.dom().contains(id)
            &&& after_publish.pending_rec[id] == (p, n)
            &&& !after_rec.pending_rec.dom().contains(id)
            &&& after_rec.pending_comp.contains(id)
            &&& after_comp.pending_ack =~= v.pending_ack
            &&& after_comp.pending_rec =~= v.pending_rec
            &&& after_comp.pending_comp =~= v.pending_comp
            &&& after_comp.pkid_free(id)
        }),
{
}

} // verus!
