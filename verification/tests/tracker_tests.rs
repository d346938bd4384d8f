use qute::codec::Error;
use qute::notify::Completion;
use qute::packet::{ConnAck, Packet, PubAck, PubComp, PubRec, PubRel, Publish, QoS, SubAck,
    Subscribe, UnsubAck, Unsubscribe};
use qute::received_publish::ReceivedPublishHandler;
use qute::sent_publish::SentPublishHandler;
use qute::subscribe_tracker::SubscribeHandler;
use qute::connect_tracker::ConnectHandler;

#[test]
fn qos0_publish_is_not_tracked() {
    let mut tracker = SentPublishHandler::new();
    let mut publish = Publish::new("test", QoS::AtMostOnce, b"hello");
    let completion = tracker.publish(&mut publish).expect("accepted");
    assert!(matches!(completion, Completion::Immediate));
    assert_eq!(publish.pkid, 0);
    assert_eq!(tracker.pending_ack_len(), 0);
    assert_eq!(tracker.pending_rec_len(), 0);
    assert_eq!(tracker.pending_comp_len(), 0);
}

#[test]
fn qos1_publish_completes_on_matching_puback() {
    let mut tracker = SentPublishHandler::new();
    let mut publish = Publish::new("test", QoS::AtLeastOnce, b"x");
    let completion = tracker.publish(&mut publish).expect("accepted");
    assert!(matches!(completion, Completion::Wait(_)));
    assert_eq!(publish.pkid, 1);
    assert_eq!(tracker.pending_ack_len(), 1);
    let replies = tracker.puback(PubAck::new(1));
    assert!(replies.is_empty());
    assert_eq!(tracker.pending_ack_len(), 0);
}

#[test]
fn qos2_publish_walks_rec_then_comp() {
    let mut tracker = SentPublishHandler::new();
    let mut publish = Publish::new("test", QoS::ExactlyOnce, b"y");
    let completion = tracker.publish(&mut publish).expect("accepted");
    assert!(matches!(completion, Completion::Wait(_)));
    assert_eq!(publish.pkid, 1);
    assert_eq!(tracker.pending_rec_len(), 1);
    assert_eq!(tracker.pending_comp_len(), 0);

    let replies = tracker.pubrec(PubRec::new(1));
    assert_eq!(replies, vec![Packet::PubRel(PubRel::new(1))]);
    assert_eq!(tracker.pending_rec_len(), 0);
    assert_eq!(tracker.pending_comp_len(), 1);

    let replies = tracker.pubcomp(PubComp::new(1));
    assert!(replies.is_empty());
    assert_eq!(tracker.pending_comp_len(), 0);
}

#[test]
fn identifiers_count_up_and_skip_zero() {
    let mut tracker = SentPublishHandler::new();
    for expected in 1..=5u16 {
        let mut publish = Publish::new("t", QoS::AtLeastOnce, b"p");
        tracker.publish(&mut publish).expect("accepted");
        assert_eq!(publish.pkid, expected);
        assert_ne!(publish.pkid, 0);
        tracker.puback(PubAck::new(expected));
    }
}

#[test]
fn identifier_wraps_past_the_top_without_zero() {
    let mut tracker = SentPublishHandler::new();
    for _ in 0..65535u32 {
        let mut publish = Publish::new("t", QoS::AtLeastOnce, b"p");
        tracker.publish(&mut publish).expect("accepted");
        tracker.puback(PubAck::new(publish.pkid));
    }
    let mut publish = Publish::new("t", QoS::AtLeastOnce, b"p");
    tracker.publish(&mut publish).expect("accepted");
    assert_eq!(publish.pkid, 1, "the counter wraps from 65535 to 1, skipping 0");
}

#[test]
fn exhausted_identifier_space_refuses_the_publish() {
    let mut tracker = SentPublishHandler::new();
    for _ in 0..65535u32 {
        let mut publish = Publish::new("t", QoS::AtLeastOnce, b"p");
        tracker.publish(&mut publish).expect("accepted");
    }
    assert_eq!(tracker.pending_ack_len(), 65535);
    let mut publish = Publish::new("t", QoS::AtLeastOnce, b"p");
    match tracker.publish(&mut publish) {
        Err(Error::IdentifierExhausted) => {}
        _ => panic!("a fully in-flight identifier space must refuse the publish"),
    }
    assert_eq!(publish.pkid, 0, "a refused publish is left untouched");
}

#[test]
fn nested_publish_rides_its_own_identifier() {
    let mut tracker = SentPublishHandler::new();
    let mut outer = Publish::new("test", QoS::ExactlyOnce, b"outer");
    tracker.publish(&mut outer).expect("accepted");
    assert_eq!(outer.pkid, 1);

    let mut inner = Publish::new("callback", QoS::AtLeastOnce, b"r");
    tracker.publish(&mut inner).expect("accepted");
    assert_eq!(inner.pkid, 2);

    let replies = tracker.puback(PubAck::new(2));
    assert!(replies.is_empty());
    assert_eq!(tracker.pending_ack_len(), 0);
    assert_eq!(tracker.pending_rec_len(), 1, "the outer publish is still in flight");

    let replies = tracker.pubrec(PubRec::new(1));
    assert_eq!(replies, vec![Packet::PubRel(PubRel::new(1))]);
    tracker.pubcomp(PubComp::new(1));
    assert_eq!(tracker.pending_comp_len(), 0);
}

#[test]
fn inbound_qos0_dispatches_without_reply() {
    let mut tracker = ReceivedPublishHandler::new();
    let action = tracker.publish(Publish::new("t", QoS::AtMostOnce, b"m"));
    assert!(action.dispatch);
    assert!(action.replies.is_empty());
    assert_eq!(tracker.pending_rel_len(), 0);
}

#[test]
fn inbound_qos1_dispatches_and_replies_puback() {
    let mut tracker = ReceivedPublishHandler::new();
    let mut publish = Publish::new("t", QoS::AtLeastOnce, b"m");
    publish.pkid = 4;
    let action = tracker.publish(publish);
    assert!(action.dispatch);
    assert_eq!(action.replies, vec![Packet::PubAck(PubAck::new(4))]);
    assert_eq!(tracker.pending_rel_len(), 0);
}

#[test]
fn redelivered_qos2_is_not_dispatched_twice() {
    let mut tracker = ReceivedPublishHandler::new();
    let mut publish = Publish::new("t", QoS::ExactlyOnce, b"m");
    publish.pkid = 9;

    let action = tracker.publish(publish.clone());
    assert!(action.dispatch, "the first delivery reaches the handler");
    assert_eq!(action.replies, vec![Packet::PubRec(PubRec::new(9))]);
    assert_eq!(tracker.pending_rel_len(), 1);

    let action = tracker.publish(publish.clone());
    assert!(!action.dispatch, "a redelivery before PUBREL is answered but not dispatched");
    assert_eq!(action.replies, vec![Packet::PubRec(PubRec::new(9))]);
    assert_eq!(tracker.pending_rel_len(), 1);

    let replies = tracker.pubrel(PubRel::new(9));
    assert_eq!(replies, vec![Packet::PubComp(PubComp::new(9))]);
    assert_eq!(tracker.pending_rel_len(), 0);

    let action = tracker.publish(publish);
    assert!(action.dispatch, "after the release a fresh delivery is dispatched again");
}

#[test]
fn subscribe_and_unsubscribe_use_independent_counters() {
    let mut tracker = SubscribeHandler::new();
    let mut subscribe = Subscribe::new("a", QoS::ExactlyOnce);
    let completion = tracker.subscribe(&mut subscribe).expect("accepted");
    assert!(matches!(completion, Completion::Wait(_)));
    assert_eq!(subscribe.pkid, 1);

    let mut unsubscribe = Unsubscribe::new("a");
    let completion = tracker.unsubscribe(&mut unsubscribe).expect("accepted");
    assert!(matches!(completion, Completion::Wait(_)));
    assert_eq!(unsubscribe.pkid, 1, "unsubscribe ids are their own namespace");

    assert!(tracker.suback(SubAck { pkid: 1 }).is_empty());
    assert!(tracker.unsuback(UnsubAck { pkid: 1 }).is_empty());
}

#[test]
fn unsuback_for_unknown_identifier_is_ignored() {
    let mut tracker = SubscribeHandler::new();
    assert!(tracker.unsuback(UnsubAck { pkid: 42 }).is_empty());
}

#[test]
fn handshake_walks_to_connected() {
    let mut tracker = ConnectHandler::new();
    assert!(!tracker.is_connected());
    let mut connect = qute::options::ConnectOptions::new().connect_packet();
    let completion = tracker.connect(&mut connect);
    assert!(matches!(completion, Completion::Wait(_)));
    assert!(!tracker.is_connected());
    assert!(tracker.connack(ConnAck { session_present: false }).is_empty());
    assert!(tracker.is_connected());

    let mut disconnect = qute::packet::Disconnect::new();
    let completion = tracker.disconnect(&mut disconnect);
    assert!(matches!(completion, Completion::Immediate));
    assert!(!tracker.is_connected());
}

#[test]
fn pong_answers_nothing_and_ping_waits() {
    let tracker = ConnectHandler::new();
    assert!(matches!(tracker.ping(), Completion::Wait(_)));
    assert!(tracker.pong().is_empty());
}
