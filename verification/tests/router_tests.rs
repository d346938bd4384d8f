use qute::notify::Completion;
use qute::packet::{
    ConnAck, Packet, PubAck, PubComp, PubRec, PubRel, Publish, QoS, SubAck, Subscribe, UnsubAck,
};
use qute::router::Router;

#[test]
fn outbound_publish_gets_a_nonzero_identifier() {
    let mut router = Router::new();
    let mut packet = Packet::Publish(Publish::new("test", QoS::AtLeastOnce, b"x"));
    let completion = router.prepare_packet(&mut packet).expect("accepted");
    assert!(matches!(completion, Completion::Wait(_)));
    match packet {
        Packet::Publish(p) => assert_eq!(p.pkid, 1),
        _ => panic!("the packet keeps its kind"),
    }
}

#[test]
fn outbound_qos0_publish_is_untouched_and_immediate() {
    let mut router = Router::new();
    let mut packet = Packet::Publish(Publish::new("test", QoS::AtMostOnce, b"hello"));
    let completion = router.prepare_packet(&mut packet).expect("accepted");
    assert!(matches!(completion, Completion::Immediate));
    match packet {
        Packet::Publish(p) => assert_eq!(p.pkid, 0),
        _ => panic!("the packet keeps its kind"),
    }
}

#[test]
fn outbound_subscribe_gets_its_own_identifier() {
    let mut router = Router::new();
    let mut publish = Packet::Publish(Publish::new("t", QoS::AtLeastOnce, b"x"));
    router.prepare_packet(&mut publish).expect("accepted");

    let mut packet = Packet::Subscribe(Subscribe::new("test", QoS::ExactlyOnce));
    let completion = router.prepare_packet(&mut packet).expect("accepted");
    assert!(matches!(completion, Completion::Wait(_)));
    match packet {
        Packet::Subscribe(s) => {
            assert_eq!(s.pkid, 1, "subscribe ids do not share the publish counter")
        }
        _ => panic!("the packet keeps its kind"),
    }
}

#[test]
fn inbound_qos1_publish_yields_dispatch_and_puback() {
    let mut router = Router::new();
    let mut publish = Publish::new("t", QoS::AtLeastOnce, b"m");
    publish.pkid = 3;
    let outcome = router.route_received(Packet::Publish(publish.clone()));
    assert_eq!(outcome.replies, vec![Packet::PubAck(PubAck::new(3))]);
    assert_eq!(outcome.dispatch, Some(publish));
}

#[test]
fn inbound_qos2_redelivery_is_answered_but_not_dispatched() {
    let mut router = Router::new();
    let mut publish = Publish::new("t", QoS::ExactlyOnce, b"m");
    publish.pkid = 8;

    let outcome = router.route_received(Packet::Publish(publish.clone()));
    assert_eq!(outcome.replies, vec![Packet::PubRec(PubRec::new(8))]);
    assert_eq!(outcome.dispatch, Some(publish.clone()));

    let outcome = router.route_received(Packet::Publish(publish));
    assert_eq!(outcome.replies, vec![Packet::PubRec(PubRec::new(8))]);
    assert_eq!(outcome.dispatch, None);

    let outcome = router.route_received(Packet::PubRel(PubRel::new(8)));
    assert_eq!(outcome.replies, vec![Packet::PubComp(PubComp::new(8))]);
    assert_eq!(outcome.dispatch, None);
}

#[test]
fn full_qos1_exchange_through_the_router() {
    let mut router = Router::new();
    let mut packet = Packet::Publish(Publish::new("test", QoS::AtLeastOnce, b"x"));
    router.prepare_packet(&mut packet).expect("accepted");
    let outcome = router.route_received(Packet::PubAck(PubAck::new(1)));
    assert!(outcome.replies.is_empty());
    assert!(outcome.dispatch.is_none());
    assert_eq!(router.sent_publish.pending_ack_len(), 0);
}

#[test]
fn full_qos2_exchange_through_the_router() {
    let mut router = Router::new();
    let mut packet = Packet::Publish(Publish::new("test", QoS::ExactlyOnce, b"y"));
    router.prepare_packet(&mut packet).expect("accepted");

    let outcome = router.route_received(Packet::PubRec(PubRec::new(1)));
    assert_eq!(outcome.replies, vec![Packet::PubRel(PubRel::new(1))]);
    assert_eq!(router.sent_publish.pending_comp_len(), 1);

    let mut reply = outcome.replies.into_iter().next().unwrap();
    let completion = router.prepare_packet(&mut reply).expect("accepted");
    assert!(matches!(completion, Completion::Immediate));

    let outcome = router.route_received(Packet::PubComp(PubComp::new(1)));
    assert!(outcome.replies.is_empty());
    assert_eq!(router.sent_publish.pending_comp_len(), 0);
}

#[test]
fn connack_and_acks_flow_to_their_trackers() {
    let mut router = Router::new();
    let mut connect = Packet::Connect(qute::options::ConnectOptions::new().connect_packet());
    let completion = router.prepare_packet(&mut connect).expect("accepted");
    assert!(matches!(completion, Completion::Wait(_)));

    let outcome = router.route_received(Packet::ConnAck(ConnAck { session_present: false }));
    assert!(outcome.replies.is_empty());
    assert!(router.connect.is_connected());

    let mut subscribe = Packet::Subscribe(Subscribe::new("t", QoS::ExactlyOnce));
    router.prepare_packet(&mut subscribe).expect("accepted");
    let outcome = router.route_received(Packet::SubAck(SubAck { pkid: 1 }));
    assert!(outcome.replies.is_empty());

    let outcome = router.route_received(Packet::UnsubAck(UnsubAck { pkid: 7 }));
    assert!(outcome.replies.is_empty());

    let outcome = router.route_received(Packet::PingResp);
    assert!(outcome.replies.is_empty());
    assert!(outcome.dispatch.is_none());
}
