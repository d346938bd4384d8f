//! Tracking of SUBSCRIBE↔SUBACK and UNSUBSCRIBE↔UNSUBACK round-trips.
//!
//! The two directions mirror the sent-publish logic with independent
//! identifier counters; each pending identifier holds the signal that fires
//! when its acknowledgment arrives.

use std::collections::HashMap;
use std::sync::Arc;

use vstd::prelude::*;

use tokio::sync::Notify;

use crate::codec::Error;
use crate::notify::{clone_notify, fresh_notify, notify_one, Completion};
use crate::packet::{Packet, SubAck, Subscribe, UnsubAck, Unsubscribe};
use crate::pkid::next_pkid;

verus! {

broadcast use vstd::std_specs::hash::group_hash_axioms;

/// The mathematical state of the tracker: two counters and, per pending
/// identifier, the completion signal its acknowledgment fires.
pub ghost struct SubscribeTrackerView {
    pub next_sub_id: u16,
    pub next_unsub_id: u16,
    pub pending_suback: Map<u16, Arc<Notify>>,
    pub pending_unsuback: Map<u16, Arc<Notify>>,
}

impl SubscribeTrackerView {
    /// Well-formedness: pending identifiers are finitely many and never zero.
    pub open spec fn wf(self) -> bool {
        &&& self.pending_suback.dom().finite()
        &&& self.pending_unsuback.dom().finite()
        &&& !self.pending_suback.dom().contains(0)
        &&& !self.pending_unsuback.dom().contains(0)
    }

    /// The empty tracker.
    pub open spec fn initial() -> SubscribeTrackerView {
        SubscribeTrackerView {
            next_sub_id: 0,
            next_unsub_id: 0,
            pending_suback: Map::empty(),
            pending_unsuback: Map::empty(),
        }
    }
}

/// A subscription goes out: issue the next subscribe identifier and park
/// its completion signal.
pub open spec fn spec_subscribe(v: SubscribeTrackerView, n: Arc<Notify>) -> SubscribeTrackerView {
    SubscribeTrackerView {
        next_sub_id: next_pkid(v.next_sub_id),
        next_unsub_id: v.next_unsub_id,
        pending_suback: v.pending_suback.insert(next_pkid(v.next_sub_id), n),
        pending_unsuback: v.pending_unsuback,
    }
}

/// A SUBACK for `id`: the subscribe round-trip is over.
pub open spec fn spec_suback(v: SubscribeTrackerView, id: u16) -> SubscribeTrackerView {
    SubscribeTrackerView {
        next_sub_id: v.next_sub_id,
        next_unsub_id: v.next_unsub_id,
        pending_suback: v.pending_suback.remove(id),
        pending_unsuback: v.pending_unsuback,
    }
}

/// An unsubscription goes out: issue the next unsubscribe identifier and
/// park its completion signal.
pub open spec fn spec_unsubscribe(v: SubscribeTrackerView, n: Arc<Notify>) -> SubscribeTrackerView {
    SubscribeTrackerView {
        next_sub_id: v.next_sub_id,
        next_unsub_id: next_pkid(v.next_unsub_id),
        pending_suback: v.pending_suback,
        pending_unsuback: v.pending_unsuback.insert(next_pkid(v.next_unsub_id), n),
    }
}

/// An UNSUBACK for `id`: the unsubscribe round-trip is over.
pub open spec fn spec_unsuback(v: SubscribeTrackerView, id: u16) -> SubscribeTrackerView {
    SubscribeTrackerView {
        next_sub_id: v.next_sub_id,
        next_unsub_id: v.next_unsub_id,
        pending_suback: v.pending_suback,
        pending_unsuback: v.pending_unsuback.remove(id),
    }
}

/// Per-client state machine for subscription round-trips.
pub struct SubscribeHandler {
    next_sub_id: u16,
    next_unsub_id: u16,
    pending_suback: HashMap<u16, Arc<Notify>>,
    pending_unsuback: HashMap<u16, Arc<Notify>>,
}

impl View for SubscribeHandler {
    type V = SubscribeTrackerView;

    closed spec fn view(&self) -> SubscribeTrackerView {
        SubscribeTrackerView {
            next_sub_id: self.next_sub_id,
            next_unsub_id: self.next_unsub_id,
            pending_suback: self.pending_suback@,
            pending_unsuback: self.pending_unsuback@,
        }
    }
}

impl SubscribeHandler {
    /// A tracker with nothing pending and both counters at their start.
    pub fn new() -> (r: SubscribeHandler)
        ensures
            r@ == SubscribeTrackerView::initial(),
            r@.wf(),
    {
        let r = SubscribeHandler {
            next_sub_id: 0,
            next_unsub_id: 0,
            pending_suback: HashMap::new(),
            pending_unsuback: HashMap::new(),
        };
        proof {
            assert(r@.pending_suback =~= Map::empty());
            assert(r@.pending_unsuback =~= Map::empty());
        }
        r
    }

    /// Whether a subscription with this identifier awaits its SUBACK.
    pub fn is_suback_pending(&self, pkid: u16) -> (r: bool)
        ensures
            r == self@.pending_suback.dom().contains(pkid),
    {
        self.pending_suback.contains_key(&pkid)
    }

    /// Track an outbound subscription: the next identifier is written into
    /// the packet and the returned signal fires at the matching SUBACK —
    /// unless that identifier is still in flight, in which case nothing
    /// changes and the subscription is refused.
    pub fn subscribe(&mut self, subscribe: &mut Subscribe) -> (r: Result<Completion, Error>)
        requires
            old(self)@.wf(),
        ensures
            final(self)@.wf(),
            !old(self)@.pending_suback.dom().contains(next_pkid(old(self)@.next_sub_id)) ==> {
                &&& final(subscribe)@.pkid == next_pkid(old(self)@.next_sub_id)
                &&& final(subscribe).pkid != 0
                &&& final(subscribe)@.filters == old(subscribe)@.filters
                &&& (r matches Ok(c) && c matches Completion::Wait(n) && final(self)@
                    == spec_subscribe(old(self)@, n))
            },
            old(self)@.pending_suback.dom().contains(next_pkid(old(self)@.next_sub_id)) ==> {
                &&& final(self)@ == old(self)@
                &&& final(subscribe)@ == old(subscribe)@
                &&& r matches Err(e) && e is IdentifierExhausted
            },
    {
        let id = crate::pkid::advance(self.next_sub_id);
        if self.pending_suback.contains_key(&id) {
            return Err(Error::IdentifierExhausted);
        }
        self.next_sub_id = id;
        subscribe.pkid = id;
        let n = fresh_notify();
        self.pending_suback.insert(id, clone_notify(&n));
        proof {
            assert(self@.pending_suback =~= spec_subscribe(old(self)@, n).pending_suback);
        }
        Ok(Completion::Wait(n))
    }

    /// A SUBACK arrived: drop the pending entry and fire its signal.
    ///
    /// The identifier must be pending.
    pub fn suback(&mut self, suback: SubAck) -> (r: Vec<Packet>)
        requires
            old(self)@.wf(),
            old(self)@.pending_suback.dom().contains(suback.pkid),
        ensures
            final(self)@.wf(),
            final(self)@ == spec_suback(old(self)@, suback.pkid),
            r@ == Seq::<Packet>::empty(),
    {
        let entry = self.pending_suback.remove(&suback.pkid);
        if let Some(n) = entry {
            notify_one(&n);
        }
        proof {
            assert(self@.pending_suback =~= spec_suback(old(self)@, suback.pkid).pending_suback);
        }
        Vec::new()
    }

    /// Track an outbound unsubscription, mirroring `subscribe`.
    pub fn unsubscribe(&mut self, unsubscribe: &mut Unsubscribe) -> (r: Result<Completion, Error>)
        requires
            old(self)@.wf(),
        ensures
            final(self)@.wf(),
            !old(self)@.pending_unsuback.dom().contains(next_pkid(old(self)@.next_unsub_id)) ==> {
                &&& final(unsubscribe)@.pkid == next_pkid(old(self)@.next_unsub_id)
                &&& final(unsubscribe).pkid != 0
                &&& final(unsubscribe)@.filters == old(unsubscribe)@.filters
                &&& (r matches Ok(c) && c matches Completion::Wait(n) && final(self)@
                    == spec_unsubscribe(old(self)@, n))
            },
            old(self)@.pending_unsuback.dom().contains(next_pkid(old(self)@.next_unsub_id)) ==> {
                &&& final(self)@ == old(self)@
                &&& final(unsubscribe)@ == old(unsubscribe)@
                &&& r matches Err(e) && e is IdentifierExhausted
            },
    {
        let id = crate::pkid::advance(self.next_unsub_id);
        if self.pending_unsuback.contains_key(&id) {
            return Err(Error::IdentifierExhausted);
        }
        self.next_unsub_id = id;
        unsubscribe.pkid = id;
        let n = fresh_notify();
        self.pending_unsuback.insert(id, clone_notify(&n));
        proof {
            assert(self@.pending_unsuback =~= spec_unsubscribe(old(self)@, n).pending_unsuback);
        }
        Ok(Completion::Wait(n))
    }

    /// An UNSUBACK arrived: drop the pending entry, if any, and fire its
    /// signal.
    pub fn unsuback(&mut self, unsuback: UnsubAck) -> (r: Vec<Packet>)
        requires
            old(self)@.wf(),
        ensures
            final(self)@.wf(),
            final(self)@ == spec_unsuback(old(self)@, unsuback.pkid),
            r@ == Seq::<Packet>::empty(),
    {
        let entry = self.pending_unsuback.remove(&unsuback.pkid);
        if let Some(n) = entry {
            notify_one(&n);
        }
        proof {
            assert(self@.pending_unsuback =~= spec_unsuback(old(self)@, unsuback.pkid).pending_unsuback);
        }
        Vec::new()
    }
}

} // verus!
