use qute::codec::{encode_packet, recv_step, Error, RecvStep};
use qute::packet::{
    Disconnect, Packet, PubAck, PubComp, PubRec, PubRel, Publish, QoS, Subscribe, Unsubscribe,
};

fn encode(p: &Packet) -> Vec<u8> {
    encode_packet(p).expect("encoding must succeed for small packets")
}

fn decode_one(bytes: &[u8]) -> Packet {
    let mut buf = bytes.to_vec();
    match recv_step(&mut buf, false) {
        RecvStep::Packet(p) => {
            assert!(buf.is_empty(), "a single whole frame must be fully consumed");
            p
        }
        _ => panic!("expected a whole packet"),
    }
}

#[test]
fn pingreq_is_exactly_c0_00() {
    assert_eq!(encode(&Packet::PingReq), vec![0xC0, 0x00]);
}

#[test]
fn pingresp_is_exactly_d0_00() {
    assert_eq!(encode(&Packet::PingResp), vec![0xD0, 0x00]);
}

#[test]
fn publish_qos0_round_trips() {
    let p = Packet::Publish(Publish::new("test", QoS::AtMostOnce, b"hello"));
    assert_eq!(decode_one(&encode(&p)), p);
}

#[test]
fn publish_qos1_round_trips() {
    let mut publish = Publish::new("a/b/c", QoS::AtLeastOnce, b"x");
    publish.pkid = 7;
    let p = Packet::Publish(publish);
    assert_eq!(decode_one(&encode(&p)), p);
}

#[test]
fn publish_qos2_with_flags_round_trips() {
    let mut publish = Publish::new("t", QoS::ExactlyOnce, b"payload bytes");
    publish.pkid = 512;
    publish.retain = true;
    publish.dup = true;
    let p = Packet::Publish(publish);
    assert_eq!(decode_one(&encode(&p)), p);
}

#[test]
fn acknowledgments_round_trip() {
    for p in [
        Packet::PubAck(PubAck::new(1)),
        Packet::PubRec(PubRec::new(2)),
        Packet::PubRel(PubRel::new(3)),
        Packet::PubComp(PubComp::new(65535)),
    ] {
        assert_eq!(decode_one(&encode(&p)), p);
    }
}

#[test]
fn disconnect_frames_as_the_minimal_packet() {
    // The wire codec writes a normal DISCONNECT as the two-byte minimal
    // frame; its own parser refuses zero-length DISCONNECT frames, so this
    // is the one outbound packet that does not parse back.
    let bytes = encode(&Packet::Disconnect(Disconnect::new()));
    assert_eq!(bytes, vec![0xE0, 0x00]);
    let mut buf = bytes;
    assert!(matches!(
        recv_step(&mut buf, false),
        RecvStep::Fail(Error::MqttDeserialize(_))
    ));
}

#[test]
fn subscribe_round_trips_through_the_wire_codec() {
    let mut s = Subscribe::new("foo/+", QoS::ExactlyOnce);
    s.pkid = 3;
    let bytes = encode(&Packet::Subscribe(s));
    let mut stream = bytes::BytesMut::from(&bytes[..]);
    match mqttbytes::v5::read(&mut stream, 1024).expect("parse") {
        mqttbytes::v5::Packet::Subscribe(parsed) => {
            assert_eq!(parsed.pkid, 3);
            assert_eq!(parsed.filters.len(), 1);
            assert_eq!(parsed.filters[0].path, "foo/+");
            assert_eq!(parsed.filters[0].qos, mqttbytes::QoS::ExactlyOnce);
        }
        other => panic!("expected a SUBSCRIBE, got {:?}", other),
    }
}

#[test]
fn unsubscribe_round_trips_through_the_wire_codec() {
    let mut u = Unsubscribe::new("foo/bar");
    u.pkid = 9;
    let bytes = encode(&Packet::Unsubscribe(u));
    let mut stream = bytes::BytesMut::from(&bytes[..]);
    match mqttbytes::v5::read(&mut stream, 1024).expect("parse") {
        mqttbytes::v5::Packet::Unsubscribe(parsed) => {
            assert_eq!(parsed.pkid, 9);
            assert_eq!(parsed.filters, vec![String::from("foo/bar")]);
        }
        other => panic!("expected an UNSUBSCRIBE, got {:?}", other),
    }
}

#[test]
fn connect_round_trips_through_the_wire_codec() {
    let mut options = qute::options::ConnectOptions::new();
    options.set_client_id(String::from("me"));
    options.set_keep_alive(30);
    let bytes = encode(&Packet::Connect(options.connect_packet()));
    let mut stream = bytes::BytesMut::from(&bytes[..]);
    match mqttbytes::v5::read(&mut stream, 1024).expect("parse") {
        mqttbytes::v5::Packet::Connect(parsed) => {
            assert_eq!(parsed.client_id, "me");
            assert_eq!(parsed.keep_alive, 30);
            assert!(parsed.clean_session);
            let props = parsed.properties.expect("properties are always present");
            assert_eq!(props.request_response_info, Some(1));
            assert_eq!(props.request_problem_info, Some(1));
        }
        other => panic!("expected a CONNECT, got {:?}", other),
    }
}

#[test]
fn back_to_back_packets_are_kept_in_the_buffer() {
    let first = Packet::PubAck(PubAck::new(1));
    let second = Packet::PubRec(PubRec::new(2));
    let mut buf = encode(&first);
    buf.extend_from_slice(&encode(&second));
    match recv_step(&mut buf, false) {
        RecvStep::Packet(p) => assert_eq!(p, first),
        _ => panic!("expected the first packet"),
    }
    assert!(!buf.is_empty(), "the second frame must stay buffered");
    match recv_step(&mut buf, false) {
        RecvStep::Packet(p) => assert_eq!(p, second),
        _ => panic!("expected the second packet"),
    }
    assert!(buf.is_empty());
}

#[test]
fn partial_frame_asks_for_more_data() {
    let whole = encode(&Packet::Publish(Publish::new("t", QoS::AtMostOnce, b"hello")));
    let mut buf = whole[..whole.len() - 1].to_vec();
    assert!(matches!(recv_step(&mut buf, false), RecvStep::NeedData));
    buf.push(*whole.last().unwrap());
    match recv_step(&mut buf, false) {
        RecvStep::Packet(Packet::Publish(p)) => assert_eq!(p.payload, b"hello".to_vec()),
        _ => panic!("expected the completed publish"),
    }
}

#[test]
fn clean_close_only_with_empty_buffer() {
    let mut empty: Vec<u8> = Vec::new();
    assert!(matches!(recv_step(&mut empty, true), RecvStep::CleanClose));
    assert!(matches!(recv_step(&mut empty, false), RecvStep::NeedData));
    let whole = encode(&Packet::PubAck(PubAck::new(5)));
    let mut partial = whole[..1].to_vec();
    assert!(matches!(
        recv_step(&mut partial, true),
        RecvStep::Fail(Error::Truncated)
    ));
}

#[test]
fn malformed_bytes_fail_with_the_codec_error() {
    let mut buf = vec![0x00, 0x00];
    assert!(matches!(
        recv_step(&mut buf, false),
        RecvStep::Fail(Error::MqttDeserialize(_))
    ));
}

#[test]
fn broker_only_requests_are_rejected() {
    let mut buf = encode(&Packet::Subscribe(Subscribe::new("a", QoS::AtMostOnce)));
    assert!(matches!(
        recv_step(&mut buf, false),
        RecvStep::Fail(Error::UnexpectedPacket)
    ));
}
