//! End-to-end exchanges over real bytes, with the broker simulated by
//! answering each frame with the acknowledgment the protocol mandates.

use qute::codec::{encode_packet, recv_step, RecvStep};
use qute::notify::Completion;
use qute::packet::{Packet, Publish, QoS};
use qute::router::Router;

/// Parse the single frame the client sent, as the broker would.
fn broker_parse(bytes: &[u8]) -> mqttbytes::v5::Packet {
    let mut stream = bytes::BytesMut::from(bytes);
    let packet = mqttbytes::v5::read(&mut stream, 1024).expect("the broker parses the frame");
    assert!(stream.is_empty());
    packet
}

/// Hand the broker's reply bytes to the client and frame one packet.
fn client_receive(bytes: Vec<u8>) -> Packet {
    let mut buf = bytes;
    match recv_step(&mut buf, false) {
        RecvStep::Packet(p) => p,
        _ => panic!("expected one whole packet from the broker"),
    }
}

#[test]
fn qos0_publish_sends_one_frame_and_completes_at_once() {
    let mut router = Router::new();
    let mut packet = Packet::Publish(Publish::new("test", QoS::AtMostOnce, b"hello"));
    let completion = router.prepare_packet(&mut packet).expect("accepted");
    assert!(matches!(completion, Completion::Immediate));

    let bytes = encode_packet(&packet).expect("encodes");
    match broker_parse(&bytes) {
        mqttbytes::v5::Packet::Publish(p) => {
            assert_eq!(p.pkid, 0);
            assert_eq!(p.topic, "test");
            assert_eq!(&p.payload[..], b"hello");
        }
        other => panic!("expected a PUBLISH on the wire, got {:?}", other),
    }
    // No further traffic: nothing is pending.
    assert_eq!(router.sent_publish.pending_ack_len(), 0);
    assert_eq!(router.sent_publish.pending_rec_len(), 0);
}

#[test]
fn qos1_publish_completes_on_the_brokers_puback() {
    let mut router = Router::new();
    let mut packet = Packet::Publish(Publish::new("test", QoS::AtLeastOnce, b"x"));
    let completion = router.prepare_packet(&mut packet).expect("accepted");
    assert!(matches!(completion, Completion::Wait(_)));

    let bytes = encode_packet(&packet).expect("encodes");
    let pkid = match broker_parse(&bytes) {
        mqttbytes::v5::Packet::Publish(p) => p.pkid,
        other => panic!("expected a PUBLISH on the wire, got {:?}", other),
    };
    assert_eq!(pkid, 1);

    let mut reply = bytes::BytesMut::new();
    mqttbytes::v5::PubAck::new(pkid).write(&mut reply).expect("the broker replies");
    let outcome = router.route_received(client_receive(reply.to_vec()));
    assert!(outcome.replies.is_empty());
    assert!(outcome.dispatch.is_none());
    assert_eq!(router.sent_publish.pending_ack_len(), 0, "nothing stays pending");
}

#[test]
fn qos2_publish_walks_the_full_handshake() {
    let mut router = Router::new();
    let mut packet = Packet::Publish(Publish::new("test", QoS::ExactlyOnce, b"y"));
    let completion = router.prepare_packet(&mut packet).expect("accepted");
    assert!(matches!(completion, Completion::Wait(_)));
    let bytes = encode_packet(&packet).expect("encodes");
    let pkid = match broker_parse(&bytes) {
        mqttbytes::v5::Packet::Publish(p) => p.pkid,
        other => panic!("expected a PUBLISH on the wire, got {:?}", other),
    };
    assert_eq!(pkid, 1);

    // The broker records the message; the caller's completion fires here.
    let mut reply = bytes::BytesMut::new();
    mqttbytes::v5::PubRec::new(pkid).write(&mut reply).expect("the broker replies");
    let outcome = router.route_received(client_receive(reply.to_vec()));
    let mut release = {
        let mut replies = outcome.replies;
        assert_eq!(replies.len(), 1);
        replies.remove(0)
    };
    assert_eq!(router.sent_publish.pending_rec_len(), 0);
    assert_eq!(router.sent_publish.pending_comp_len(), 1);

    // The client releases; the broker parses the PUBREL and completes.
    let completion = router.prepare_packet(&mut release).expect("accepted");
    assert!(matches!(completion, Completion::Immediate));
    let bytes = encode_packet(&release).expect("encodes");
    match broker_parse(&bytes) {
        mqttbytes::v5::Packet::PubRel(r) => assert_eq!(r.pkid, pkid),
        other => panic!("expected a PUBREL on the wire, got {:?}", other),
    }
    let mut reply = bytes::BytesMut::new();
    mqttbytes::v5::PubComp::new(pkid).write(&mut reply).expect("the broker replies");
    let outcome = router.route_received(client_receive(reply.to_vec()));
    assert!(outcome.replies.is_empty());
    assert_eq!(router.sent_publish.pending_comp_len(), 0, "PUBCOMP clears the last stage");
}

#[test]
fn inbound_qos2_delivery_is_acknowledged_and_released() {
    let mut router = Router::new();

    // The broker delivers a QoS 2 message.
    let mut wire = mqttbytes::v5::Publish::new("t", mqttbytes::QoS::ExactlyOnce, &b"m"[..]);
    wire.pkid = 77;
    let mut delivery = bytes::BytesMut::new();
    wire.write(&mut delivery).expect("the broker frames the delivery");
    let outcome = router.route_received(client_receive(delivery.to_vec()));
    assert!(outcome.dispatch.is_some());

    // The client's PUBREC goes back over the wire.
    let mut rec = {
        let mut replies = outcome.replies;
        assert_eq!(replies.len(), 1);
        replies.remove(0)
    };
    router.prepare_packet(&mut rec).expect("accepted");
    match broker_parse(&encode_packet(&rec).expect("encodes")) {
        mqttbytes::v5::Packet::PubRec(r) => assert_eq!(r.pkid, 77),
        other => panic!("expected a PUBREC on the wire, got {:?}", other),
    }

    // The broker releases; the client answers PUBCOMP and forgets the id.
    let mut rel = bytes::BytesMut::new();
    mqttbytes::v5::PubRel::new(77).write(&mut rel).expect("the broker replies");
    let outcome = router.route_received(client_receive(rel.to_vec()));
    assert_eq!(outcome.replies.len(), 1);
    assert_eq!(router.received_publish.pending_rel_len(), 0);
}
