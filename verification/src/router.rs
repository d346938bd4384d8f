//! The packet router: every packet, in either direction, is handed to the
//! tracker that owns its round-trip.
//!
//! Inbound, `route_received` updates the owning tracker and yields the reply
//! packets to send back plus the message to dispatch to its handler, if any.
//! Outbound, `prepare_packet` mutates the packet (identifier assignment) and
//! yields what the caller must still wait for once the bytes are out.

use vstd::prelude::*;

use crate::codec::Error;
use crate::connect_tracker::ConnectHandler;
use crate::notify::Completion;
use crate::packet::{Packet, Publish, PublishView, QoS};
use crate::pkid::next_pkid;
use crate::received_publish::{
    spec_dispatches, spec_publish_replies, spec_received_publish, spec_received_pubrel,
    ReceivedPublishHandler,
};
use crate::sent_publish::{
    spec_puback, spec_pubcomp, spec_publish_qos1, spec_publish_qos2, spec_pubrec,
    SentPublishHandler,
};
use crate::subscribe_tracker::{
    spec_suback, spec_subscribe, spec_unsuback, spec_unsubscribe, SubscribeHandler,
};

verus! {

/// What routing one inbound packet asks of the connection: replies to send
/// back through the outbound path, and at most one message whose handler
/// should run.
pub struct RouteOutcome {
    pub replies: Vec<Packet>,
    pub dispatch: Option<Publish>,
}

/// The four trackers of one connection, under one owner.
pub struct Router {
    pub connect: ConnectHandler,
    pub sent_publish: SentPublishHandler,
    pub received_publish: ReceivedPublishHandler,
    pub subscribe: SubscribeHandler,
}

/// A packet a broker can legally hand to a client.
pub open spec fn client_receivable(p: Packet) -> bool {
    !(p is Connect || p is Subscribe || p is Unsubscribe || p is PingReq)
}

/// A packet a client can legally hand to its broker.
pub open spec fn client_preparable(p: Packet) -> bool {
    !(p is ConnAck || p is SubAck || p is UnsubAck || p is PingResp)
}

impl Router {
    /// A router over fresh trackers.
    pub fn new() -> (r: Router)
        ensures
            r.connect@ is Disconnected,
            r.sent_publish@ == crate::sent_publish::SentView::initial(),
            r.received_publish@.pending_rel == Map::<u16, PublishView>::empty(),
            r.subscribe@ == crate::subscribe_tracker::SubscribeTrackerView::initial(),
            r.sent_publish@.wf(),
            r.subscribe@.wf(),
    {
        Router {
            connect: ConnectHandler::new(),
            sent_publish: SentPublishHandler::new(),
            received_publish: ReceivedPublishHandler::new(),
            subscribe: SubscribeHandler::new(),
        }
    }

    /// Route one inbound packet to its tracker.
    ///
    /// The acknowledgments require their identifier to be pending and a
    /// CONNACK requires an awaiting CONNECT, exactly as the trackers do; the
    /// four packet kinds a broker never sends are ruled out.
    pub fn route_received(&mut self, packet: Packet) -> (r: RouteOutcome)
        requires
            client_receivable(packet),
            old(self).sent_publish@.wf(),
            old(self).subscribe@.wf(),
            packet is ConnAck ==> old(self).connect@ is ConnectSent,
            packet matches Packet::PubAck(a) ==> old(self).sent_publish@.pending_ack.dom().contains(
                a.pkid,
            ),
            packet matches Packet::PubRec(a) ==> old(self).sent_publish@.pending_rec.dom().contains(
                a.pkid,
            ),
            packet matches Packet::SubAck(s) ==> old(self).subscribe@.pending_suback.dom().contains(
                s.pkid,
            ),
        ensures
            final(self).sent_publish@.wf(),
            final(self).subscribe@.wf(),
            packet matches Packet::ConnAck(_) ==> {
                &&& final(self).connect@ is Connected
                &&& final(self).sent_publish@ == old(self).sent_publish@
                &&& final(self).received_publish@ == old(self).received_publish@
                &&& final(self).subscribe@ == old(self).subscribe@
                &&& r.replies@ == Seq::<Packet>::empty()
                &&& r.dispatch is None
            },
            packet is PingResp || packet is Disconnect ==> {
                &&& final(self).connect@ == old(self).connect@
                &&& final(self).sent_publish@ == old(self).sent_publish@
                &&& final(self).received_publish@ == old(self).received_publish@
                &&& final(self).subscribe@ == old(self).subscribe@
                &&& r.replies@ == Seq::<Packet>::empty()
                &&& r.dispatch is None
            },
            packet matches Packet::Publish(p) ==> {
                &&& final(self).connect@ == old(self).connect@
                &&& final(self).sent_publish@ == old(self).sent_publish@
                &&& final(self).received_publish@ == spec_received_publish(
                    old(self).received_publish@,
                    p@,
                )
                &&& final(self).subscribe@ == old(self).subscribe@
                &&& r.replies@ == spec_publish_replies(p@)
                &&& r.dispatch matches Some(q) ==> q@ == p@
                &&& (r.dispatch is Some) == spec_dispatches(old(self).received_publish@, p@)
            },
            packet matches Packet::PubAck(a) ==> {
                &&& final(self).connect@ == old(self).connect@
                &&& final(self).sent_publish@ == spec_puback(old(self).sent_publish@, a.pkid)
                &&& final(self).received_publish@ == old(self).received_publish@
                &&& final(self).subscribe@ == old(self).subscribe@
                &&& r.replies@ == Seq::<Packet>::empty()
                &&& r.dispatch is None
            },
            packet matches Packet::PubRec(a) ==> {
                &&& final(self).connect@ == old(self).connect@
                &&& final(self).sent_publish@ == spec_pubrec(old(self).sent_publish@, a.pkid)
                &&& final(self).received_publish@ == old(self).received_publish@
                &&& final(self).subscribe@ == old(self).subscribe@
                &&& r.replies@ == seq![
                    Packet::PubRel(crate::packet::PubRel { pkid: a.pkid }),
                ]
                &&& r.dispatch is None
            },
            packet matches Packet::PubRel(a) ==> {
                &&& final(self).connect@ == old(self).connect@
                &&& final(self).sent_publish@ == old(self).sent_publish@
                &&& final(self).received_publish@ == spec_received_pubrel(
                    old(self).received_publish@,
                    a.pkid,
                )
                &&& final(self).subscribe@ == old(self).subscribe@
                &&& r.replies@ == seq![
                    Packet::PubComp(crate::packet::PubComp { pkid: a.pkid }),
                ]
                &&& r.dispatch is None
            },
            packet matches Packet::PubComp(a) ==> {
                &&& final(self).connect@ == old(self).connect@
                &&& final(self).sent_publish@ == spec_pubcomp(old(self).sent_publish@, a.pkid)
                &&& final(self).received_publish@ == old(self).received_publish@
                &&& final(self).subscribe@ == old(self).subscribe@
                &&& r.replies@ == Seq::<Packet>::empty()
                &&& r.dispatch is None
            },
            packet matches Packet::SubAck(s) ==> {
                &&& final(self).connect@ == old(self).connect@
                &&& final(self).sent_publish@ == old(self).sent_publish@
                &&& final(self).received_publish@ == old(self).received_publish@
                &&& final(self).subscribe@ == spec_suback(old(self).subscribe@, s.pkid)
                &&& r.replies@ == Seq::<Packet>::empty()
                &&& r.dispatch is None
            },
            packet matches Packet::UnsubAck(u) ==> {
                &&& final(self).connect@ == old(self).connect@
                &&& final(self).sent_publish@ == old(self).sent_publish@
                &&& final(self).received_publish@ == old(self).received_publish@
                &&& final(self).subscribe@ == spec_unsuback(old(self).subscribe@, u.pkid)
                &&& r.replies@ == Seq::<Packet>::empty()
                &&& r.dispatch is None
            },
    {
        match packet {
            Packet::ConnAck(p) => {
                let replies = self.connect.connack(p);
                RouteOutcome { replies, dispatch: None }
            },
            Packet::Disconnect(_) => RouteOutcome { replies: Vec::new(), dispatch: None },
            Packet::PingResp => {
                let replies = self.connect.pong();
                RouteOutcome { replies, dispatch: None }
            },
            Packet::Publish(p) => {
                let copy = p.clone();
                let action = self.received_publish.publish(p);
                let dispatch = if action.dispatch {
                    Some(copy)
                } else {
                    None
                };
                RouteOutcome { replies: action.replies, dispatch }
            },
            Packet::PubAck(a) => {
                let replies = self.sent_publish.puback(a);
                RouteOutcome { replies, dispatch: None }
            },
            Packet::PubRec(a) => {
                let replies = self.sent_publish.pubrec(a);
                RouteOutcome { replies, dispatch: None }
            },
            Packet::PubRel(a) => {
                let replies = self.received_publish.pubrel(a);
                RouteOutcome { replies, dispatch: None }
            },
            Packet::PubComp(a) => {
                let replies = self.sent_publish.pubcomp(a);
                RouteOutcome { replies, dispatch: None }
            },
            Packet::SubAck(s) => {
                let replies = self.subscribe.suback(s);
                RouteOutcome { replies, dispatch: None }
            },
            Packet::UnsubAck(u) => {
                let replies = self.subscribe.unsuback(u);
                RouteOutcome { replies, dispatch: None }
            },
            Packet::Connect(_) => unreached(),
            Packet::Subscribe(_) => unreached(),
            Packet::Unsubscribe(_) => unreached(),
            Packet::PingReq => unreached(),
        }
    }

    /// Prepare one outbound packet: assign its identifier where one is due,
    /// update the owning tracker, and say what the sender must await after
    /// transmission.
    ///
    /// Refused with `IdentifierExhausted` when the identifier the owning
    /// counter would issue is still in flight; the four packet kinds a client
    /// never sends are ruled out.
    pub fn prepare_packet(&mut self, packet: &mut Packet) -> (r: Result<Completion, Error>)
        requires
            client_preparable(*old(packet)),
            old(self).sent_publish@.wf(),
            old(self).subscribe@.wf(),
        ensures
            final(self).sent_publish@.wf(),
            final(self).subscribe@.wf(),
            *old(packet) matches Packet::Connect(_) ==> {
                &&& final(self).sent_publish@ == old(self).sent_publish@
                &&& final(self).received_publish@ == old(self).received_publish@
                &&& final(self).subscribe@ == old(self).subscribe@
                &&& final(packet)@ == old(packet)@
                &&& (r matches Ok(c) && c matches Completion::Wait(n) && final(self).connect@
                    == crate::connect_tracker::ConnectStage::ConnectSent(n))
            },
            *old(packet) matches Packet::Disconnect(_) ==> {
                &&& final(self).connect@ is Disconnected
                &&& final(self).sent_publish@ == old(self).sent_publish@
                &&& final(self).received_publish@ == old(self).received_publish@
                &&& final(self).subscribe@ == old(self).subscribe@
                &&& final(packet)@ == old(packet)@
                &&& r matches Ok(c) && c is Immediate
            },
            *old(packet) is PingReq ==> {
                &&& final(self).connect@ == old(self).connect@
                &&& final(self).sent_publish@ == old(self).sent_publish@
                &&& final(self).received_publish@ == old(self).received_publish@
                &&& final(self).subscribe@ == old(self).subscribe@
                &&& final(packet)@ == old(packet)@
                &&& (r matches Ok(c) && c matches Completion::Wait(n) && n
                    == final(self).connect.ping_signal())
            },
            (*old(packet) is PubAck || *old(packet) is PubRec || *old(packet) is PubRel
                || *old(packet) is PubComp) ==> {
                &&& final(self).connect@ == old(self).connect@
                &&& final(self).sent_publish@ == old(self).sent_publish@
                &&& final(self).received_publish@ == old(self).received_publish@
                &&& final(self).subscribe@ == old(self).subscribe@
                &&& final(packet)@ == old(packet)@
                &&& r matches Ok(c) && c is Immediate
            },
            *old(packet) matches Packet::Publish(p) ==> {
                &&& final(self).connect@ == old(self).connect@
                &&& final(self).received_publish@ == old(self).received_publish@
                &&& final(self).subscribe@ == old(self).subscribe@
                &&& p.qos == QoS::AtMostOnce ==> {
                    &&& final(self).sent_publish@ == old(self).sent_publish@
                    &&& final(packet)@ == old(packet)@
                    &&& r matches Ok(c) && c is Immediate
                }
                &&& p.qos != QoS::AtMostOnce && old(self).sent_publish@.pkid_free(
                    next_pkid(old(self).sent_publish@.next_id),
                ) ==> {
                    &&& (*final(packet) matches Packet::Publish(q) && (r matches Ok(c)
                        && c matches Completion::Wait(n) && {
                        &&& q@ == (PublishView {
                            pkid: next_pkid(old(self).sent_publish@.next_id),
                            ..p@
                        })
                        &&& q.pkid != 0
                        &&& p.qos == QoS::AtLeastOnce ==> final(self).sent_publish@
                            == spec_publish_qos1(old(self).sent_publish@, q@, n)
                        &&& p.qos == QoS::ExactlyOnce ==> final(self).sent_publish@
                            == spec_publish_qos2(old(self).sent_publish@, q@, n)
                    }))
                }
                &&& p.qos != QoS::AtMostOnce && !old(self).sent_publish@.pkid_free(
                    next_pkid(old(self).sent_publish@.next_id),
                ) ==> {
                    &&& final(self).sent_publish@ == old(self).sent_publish@
                    &&& final(packet)@ == old(packet)@
                    &&& r matches Err(e) && e is IdentifierExhausted
                }
            },
            *old(packet) matches Packet::Subscribe(s) ==> {
                &&& final(self).connect@ == old(self).connect@
                &&& final(self).sent_publish@ == old(self).sent_publish@
                &&& final(self).received_publish@ == old(self).received_publish@
                &&& !old(self).subscribe@.pending_suback.dom().contains(
                    next_pkid(old(self).subscribe@.next_sub_id),
                ) ==> {
                    &&& (*final(packet) matches Packet::Subscribe(q) && (r matches Ok(c)
                        && c matches Completion::Wait(n) && {
                        &&& q@.pkid == next_pkid(old(self).subscribe@.next_sub_id)
                        &&& q.pkid != 0
                        &&& q@.filters == s@.filters
                        &&& final(self).subscribe@ == spec_subscribe(old(self).subscribe@, n)
                    }))
                }
                &&& old(self).subscribe@.pending_suback.dom().contains(
                    next_pkid(old(self).subscribe@.next_sub_id),
                ) ==> {
                    &&& final(self).subscribe@ == old(self).subscribe@
                    &&& final(packet)@ == old(packet)@
                    &&& r matches Err(e) && e is IdentifierExhausted
                }
            },
            *old(packet) matches Packet::Unsubscribe(u) ==> {
                &&& final(self).connect@ == old(self).connect@
                &&& final(self).sent_publish@ == old(self).sent_publish@
                &&& final(self).received_publish@ == old(self).received_publish@
                &&& !old(self).subscribe@.pending_unsuback.dom().contains(
                    next_pkid(old(self).subscribe@.next_unsub_id),
                ) ==> {
                    &&& (*final(packet) matches Packet::Unsubscribe(q) && (r matches Ok(c)
                        && c matches Completion::Wait(n) && {
                        &&& q@.pkid == next_pkid(old(self).subscribe@.next_unsub_id)
                        &&& q.pkid != 0
                        &&& q@.filters == u@.filters
                        &&& final(self).subscribe@ == spec_unsubscribe(old(self).subscribe@, n)
                    }))
                }
                &&& old(self).subscribe@.pending_unsuback.dom().contains(
                    next_pkid(old(self).subscribe@.next_unsub_id),
                ) ==> {
                    &&& final(self).subscribe@ == old(self).subscribe@
                    &&& final(packet)@ == old(packet)@
                    &&& r matches Err(e) && e is IdentifierExhausted
                }
            },
    {
        match packet {
            Packet::Connect(c) => Ok(self.connect.connect(c)),
            Packet::Disconnect(d) => Ok(self.connect.disconnect(d)),
            Packet::PingReq => Ok(self.connect.ping()),
            Packet::Publish(p) => self.sent_publish.publish(p),
            Packet::PubAck(a) => Ok(self.received_publish.puback(a)),
            Packet::PubRec(a) => Ok(self.received_publish.pubrec(a)),
            Packet::PubRel(a) => Ok(self.sent_publish.pubrel(a)),
            Packet::PubComp(a) => Ok(self.received_publish.pubcomp(a)),
            Packet::Subscribe(s) => self.subscribe.subscribe(s),
            Packet::Unsubscribe(u) => self.subscribe.unsubscribe(u),
            Packet::ConnAck(_) => unreached(),
            Packet::SubAck(_) => unreached(),
            Packet::UnsubAck(_) => unreached(),
            Packet::PingResp => unreached(),
        }
    }
}

} // verus!
