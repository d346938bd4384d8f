//! Framing of [`crate::packet::Packet`] values on a byte stream.
//!
//! The wire-level field encoding is delegated to the `mqttbytes` codec, each
//! call standing behind a trusted wrapper; the two PING packets, the framing
//! decisions, and everything around the calls is verified. What each
//! `mqttbytes` writer produces is named by an uninterpreted `wire_*`
//! function, and what its reader makes of a buffer by `decode_of`; the
//! contracts here are exact over those names.

use vstd::prelude::*;

use crate::packet::{
    ConnAck, Connect, ConnectProperties, ConnectView, Disconnect, LastWill, Login, Packet,
    PacketView, PubAck, PubComp, PubRec, PubRel, Publish, PublishView, QoS, SubAck, Subscribe,
    SubscribeView, UnsubAck, Unsubscribe, UnsubscribeView,
};
use mqttbytes::v5::ConnectProperties as WireConnectProperties;
use mqttbytes::v5::LastWill as WireLastWill;
use mqttbytes::v5::Login as WireLogin;
use mqttbytes::v5::Packet as WirePacket;
use mqttbytes::v5::Publish as WirePublish;
use mqttbytes::Error as WireError;
use mqttbytes::QoS as WireQoS;

verus! {

#[verifier::external_type_specification]
#[verifier::external_body]
pub struct ExWireError(WireError);

#[verifier::external_type_specification]
#[verifier::external_body]
pub struct ExWireQoS(WireQoS);

#[verifier::external_type_specification]
#[verifier::external_body]
pub struct ExWirePacket(WirePacket);

#[verifier::external_type_specification]
#[verifier::external_body]
pub struct ExWirePublish(WirePublish);

#[verifier::external_type_specification]
#[verifier::external_body]
pub struct ExWireLastWill(WireLastWill);

#[verifier::external_type_specification]
#[verifier::external_body]
pub struct ExWireLogin(WireLogin);

#[verifier::external_type_specification]
#[verifier::external_body]
pub struct ExWireConnectProperties(WireConnectProperties);

/// What went wrong on this connection: decode and encode failures keep the
/// codec's error verbatim; the other kinds are the connection's own rules.
#[derive(Debug, Clone, Copy, PartialEq)]
pub enum Error {
    /// The codec rejected inbound bytes; carries its error verbatim.
    MqttDeserialize(WireError),
    /// The codec refused to serialize an outbound packet.
    MqttSerialize(WireError),
    /// The peer closed while a partial frame was still buffered.
    Truncated,
    /// A packet type only a broker may send arrived at the client.
    UnexpectedPacket,
    /// The 16-bit identifier space is fully in flight.
    IdentifierExhausted,
}

/// What `mqttbytes::v5::Connect::write` produces for a CONNECT: the frame's
/// bytes, or nothing where the writer refuses the packet (oversized frame).
pub uninterp spec fn wire_connect(c: ConnectView) -> Option<Seq<u8>>;

/// What `mqttbytes::v5::Publish::write` produces for a PUBLISH: the frame's
/// bytes, or nothing where the writer refuses the packet (oversized frame).
pub uninterp spec fn wire_publish(p: PublishView) -> Option<Seq<u8>>;

/// The bytes `mqttbytes::v5::PubAck::write` produces for a plain PUBACK.
pub uninterp spec fn wire_puback(pkid: u16) -> Seq<u8>;

/// The bytes `mqttbytes::v5::PubRec::write` produces for a plain PUBREC.
pub uninterp spec fn wire_pubrec(pkid: u16) -> Seq<u8>;

/// The bytes `mqttbytes::v5::PubRel::write` produces for a plain PUBREL.
pub uninterp spec fn wire_pubrel(pkid: u16) -> Seq<u8>;

/// The bytes `mqttbytes::v5::PubComp::write` produces for a plain PUBCOMP.
pub uninterp spec fn wire_pubcomp(pkid: u16) -> Seq<u8>;

/// What `mqttbytes::v5::Subscribe::write` produces for a SUBSCRIBE: the
/// frame's bytes, or nothing where the writer refuses the packet.
pub uninterp spec fn wire_subscribe(s: SubscribeView) -> Option<Seq<u8>>;

/// What `mqttbytes::v5::Unsubscribe::write` produces for an UNSUBSCRIBE: the
/// frame's bytes, or nothing where the writer refuses the packet.
pub uninterp spec fn wire_unsubscribe(u: UnsubscribeView) -> Option<Seq<u8>>;

/// The bytes `mqttbytes::v5::Disconnect::write` produces for a normal DISCONNECT.
pub uninterp spec fn wire_disconnect(d: Disconnect) -> Seq<u8>;

/// Relies on `mqttbytes::QoS`: the wire form of each delivery level.
#[verifier::external_body]
fn to_wire_qos(q: QoS) -> WireQoS {
    match q {
        QoS::AtMostOnce => WireQoS::AtMostOnce,
        QoS::AtLeastOnce => WireQoS::AtLeastOnce,
        QoS::ExactlyOnce => WireQoS::ExactlyOnce,
    }
}

/// Relies on `mqttbytes::v5::LastWill`: field-for-field copy of the will.
#[verifier::external_body]
fn to_wire_will(w: &LastWill) -> WireLastWill {
    WireLastWill {
        topic: w.topic.clone(),
        message: bytes::Bytes::from(w.message.clone()),
        qos: to_wire_qos(w.qos),
        retain: w.retain,
        properties: None,
    }
}

/// Relies on `mqttbytes::v5::Login`: field-for-field copy of the credentials.
#[verifier::external_body]
fn to_wire_login(l: &Login) -> WireLogin {
    WireLogin { username: l.username.clone(), password: l.password.clone() }
}

/// Relies on `mqttbytes::v5::ConnectProperties`: field-for-field copy.
#[verifier::external_body]
fn to_wire_props(p: &ConnectProperties) -> WireConnectProperties {
    WireConnectProperties {
        session_expiry_interval: p.session_expiry_interval,
        receive_maximum: p.receive_maximum,
        max_packet_size: p.max_packet_size,
        topic_alias_max: p.topic_alias_max,
        request_response_info: p.request_response_info,
        request_problem_info: p.request_problem_info,
        user_properties: p.user_properties.clone(),
        authentication_method: p.authentication_method.clone(),
        authentication_data: p.authentication_data.clone().map(bytes::Bytes::from),
    }
}

/// Relies on `mqttbytes::v5::Connect::write`: serializes a CONNECT; whether
/// it succeeds and which bytes come out are functions of the packet's fields
/// alone.
#[verifier::external_body]
fn encode_connect(c: &Connect) -> (r: Result<Vec<u8>, WireError>)
    ensures
        (match wire_connect(c@) {
            Some(bytes) => r matches Ok(b) && b@ == bytes,
            None => r is Err,
        }),
{
    let mut m = mqttbytes::v5::Connect::new(c.client_id.clone());
    m.keep_alive = c.keep_alive;
    m.clean_session = c.clean_session;
    m.last_will = c.last_will.as_ref().map(to_wire_will);
    m.login = c.login.as_ref().map(to_wire_login);
    m.properties = c.properties.as_ref().map(to_wire_props);
    let mut buf = bytes::BytesMut::new();
    match m.write(&mut buf) {
        Ok(_) => Ok(buf.to_vec()),
        Err(e) => Err(e),
    }
}

/// Relies on `mqttbytes::v5::Publish::write`: serializes a PUBLISH; whether
/// it succeeds and which bytes come out are functions of the packet's fields
/// alone.
#[verifier::external_body]
fn encode_publish(p: &Publish) -> (r: Result<Vec<u8>, WireError>)
    ensures
        (match wire_publish(p@) {
            Some(bytes) => r matches Ok(b) && b@ == bytes,
            None => r is Err,
        }),
{
    let mut m = mqttbytes::v5::Publish::new(p.topic.clone(), to_wire_qos(p.qos), p.payload.clone());
    m.dup = p.dup;
    m.retain = p.retain;
    m.pkid = p.pkid;
    let mut buf = bytes::BytesMut::new();
    match m.write(&mut buf) {
        Ok(_) => Ok(buf.to_vec()),
        Err(e) => Err(e),
    }
}

/// Relies on `mqttbytes::v5::PubAck::write`: serializes a success PUBACK.
/// For a success reason without properties the frame is a fixed four bytes
/// and the writer cannot fail.
#[verifier::external_body]
fn encode_puback(pkid: u16) -> (r: Result<Vec<u8>, WireError>)
    ensures
        r is Ok,
        r matches Ok(b) ==> b@ == wire_puback(pkid),
{
    let mut buf = bytes::BytesMut::new();
    match mqttbytes::v5::PubAck::new(pkid).write(&mut buf) {
        Ok(_) => Ok(buf.to_vec()),
        Err(e) => Err(e),
    }
}

/// Relies on `mqttbytes::v5::PubRec::write`: serializes a success PUBREC.
/// For a success reason without properties the frame is a fixed four bytes
/// and the writer cannot fail.
#[verifier::external_body]
fn encode_pubrec(pkid: u16) -> (r: Result<Vec<u8>, WireError>)
    ensures
        r is Ok,
        r matches Ok(b) ==> b@ == wire_pubrec(pkid),
{
    let mut buf = bytes::BytesMut::new();
    match mqttbytes::v5::PubRec::new(pkid).write(&mut buf) {
        Ok(_) => Ok(buf.to_vec()),
        Err(e) => Err(e),
    }
}

/// Relies on `mqttbytes::v5::PubRel::write`: serializes a success PUBREL.
/// For a success reason without properties the frame is a fixed four bytes
/// and the writer cannot fail.
#[verifier::external_body]
fn encode_pubrel(pkid: u16) -> (r: Result<Vec<u8>, WireError>)
    ensures
        r is Ok,
        r matches Ok(b) ==> b@ == wire_pubrel(pkid),
{
    let mut buf = bytes::BytesMut::new();
    match mqttbytes::v5::PubRel::new(pkid).write(&mut buf) {
        Ok(_) => Ok(buf.to_vec()),
        Err(e) => Err(e),
    }
}

/// Relies on `mqttbytes::v5::PubComp::write`: serializes a success PUBCOMP.
/// For a success reason without properties the frame is a fixed four bytes
/// and the writer cannot fail.
#[verifier::external_body]
fn encode_pubcomp(pkid: u16) -> (r: Result<Vec<u8>, WireError>)
    ensures
        r is Ok,
        r matches Ok(b) ==> b@ == wire_pubcomp(pkid),
{
    let mut buf = bytes::BytesMut::new();
    match mqttbytes::v5::PubComp::new(pkid).write(&mut buf) {
        Ok(_) => Ok(buf.to_vec()),
        Err(e) => Err(e),
    }
}

/// Relies on `mqttbytes::v5::Subscribe::write`: serializes a SUBSCRIBE whose
/// filters carry default subscription options; success and bytes are
/// functions of the packet's fields alone.
#[verifier::external_body]
fn encode_subscribe(s: &Subscribe) -> (r: Result<Vec<u8>, WireError>)
    ensures
        (match wire_subscribe(s@) {
            Some(bytes) => r matches Ok(b) && b@ == bytes,
            None => r is Err,
        }),
{
    let mut fs = Vec::new();
    for f in &s.filters {
        fs.push(mqttbytes::v5::SubscribeFilter::new(f.path.clone(), to_wire_qos(f.qos)));
    }
    let mut m = mqttbytes::v5::Subscribe::new_many(fs);
    m.pkid = s.pkid;
    let mut buf = bytes::BytesMut::new();
    match m.write(&mut buf) {
        Ok(_) => Ok(buf.to_vec()),
        Err(e) => Err(e),
    }
}

/// Relies on `mqttbytes::v5::Unsubscribe::write`: serializes an UNSUBSCRIBE;
/// success and bytes are functions of the packet's fields alone.
#[verifier::external_body]
fn encode_unsubscribe(u: &Unsubscribe) -> (r: Result<Vec<u8>, WireError>)
    ensures
        (match wire_unsubscribe(u@) {
            Some(bytes) => r matches Ok(b) && b@ == bytes,
            None => r is Err,
        }),
{
    let m = mqttbytes::v5::Unsubscribe {
        pkid: u.pkid,
        filters: u.filters.clone(),
        properties: None,
    };
    let mut buf = bytes::BytesMut::new();
    match m.write(&mut buf) {
        Ok(_) => Ok(buf.to_vec()),
        Err(e) => Err(e),
    }
}

/// Relies on `mqttbytes::v5::Disconnect::write`: serializes a normal
/// DISCONNECT. For the normal reason without properties the frame is a fixed
/// two bytes and the writer cannot fail.
#[verifier::external_body]
fn encode_disconnect(d: &Disconnect) -> (r: Result<Vec<u8>, WireError>)
    ensures
        r is Ok,
        r matches Ok(b) ==> b@ == wire_disconnect(*d),
{
    let mut buf = bytes::BytesMut::new();
    match mqttbytes::v5::Disconnect::new().write(&mut buf) {
        Ok(_) => Ok(buf.to_vec()),
        Err(e) => Err(e),
    }
}

/// Which packets the client itself ever serializes: everything except the
/// acknowledgments only a broker sends.
pub open spec fn client_sendable(p: PacketView) -> bool {
    !(p is ConnAck || p is SubAck || p is UnsubAck)
}

/// Whether the codec accepts a packet for serialization: everything the
/// client builds succeeds except the four variable-size packets when their
/// writer refuses them.
pub open spec fn encodable(p: PacketView) -> bool {
    match p {
        PacketView::Connect(c) => wire_connect(c) is Some,
        PacketView::Publish(pu) => wire_publish(pu) is Some,
        PacketView::Subscribe(s) => wire_subscribe(s) is Some,
        PacketView::Unsubscribe(u) => wire_unsubscribe(u) is Some,
        _ => true,
    }
}

/// The bytes a packet is framed as. PINGREQ and PINGRESP are exactly the two
/// literal bytes the protocol fixes for them; everything else is the codec's
/// serialization of the packet's fields.
pub open spec fn encoding_of(p: PacketView) -> Seq<u8>
    recommends
        client_sendable(p),
        encodable(p),
{
    match p {
        PacketView::Connect(c) => match wire_connect(c) {
            Some(b) => b,
            None => Seq::empty(),
        },
        PacketView::Publish(pu) => match wire_publish(pu) {
            Some(b) => b,
            None => Seq::empty(),
        },
        PacketView::PubAck(a) => wire_puback(a.pkid),
        PacketView::PubRec(a) => wire_pubrec(a.pkid),
        PacketView::PubRel(a) => wire_pubrel(a.pkid),
        PacketView::PubComp(a) => wire_pubcomp(a.pkid),
        PacketView::Subscribe(s) => match wire_subscribe(s) {
            Some(b) => b,
            None => Seq::empty(),
        },
        PacketView::Unsubscribe(u) => match wire_unsubscribe(u) {
            Some(b) => b,
            None => Seq::empty(),
        },
        PacketView::PingReq => seq![0xC0u8, 0x00u8],
        PacketView::PingResp => seq![0xD0u8, 0x00u8],
        PacketView::Disconnect(d) => wire_disconnect(d),
        _ => Seq::empty(),
    }
}

/// Serialize one outbound packet into a fresh buffer.
///
/// Succeeds exactly when the codec accepts the packet; PINGREQ and PINGRESP
/// are framed by this function itself as their two literal bytes, every
/// other packet goes through the codec.
pub fn encode_packet(p: &Packet) -> (r: Result<Vec<u8>, Error>)
    requires
        client_sendable(p@),
    ensures
        (r is Ok) == encodable(p@),
        r matches Ok(b) ==> b@ == encoding_of(p@),
        r matches Err(e) ==> e is MqttSerialize,
{
    let r = match p {
        Packet::Connect(c) => encode_connect(c),
        Packet::Publish(pu) => encode_publish(pu),
        Packet::PubAck(a) => encode_puback(a.pkid),
        Packet::PubRec(a) => encode_pubrec(a.pkid),
        Packet::PubRel(a) => encode_pubrel(a.pkid),
        Packet::PubComp(a) => encode_pubcomp(a.pkid),
        Packet::Subscribe(s) => encode_subscribe(s),
        Packet::Unsubscribe(u) => encode_unsubscribe(u),
        Packet::PingReq => {
            let mut b: Vec<u8> = Vec::new();
            b.push(0xC0u8);
            b.push(0x00u8);
            proof {
                assert(b@ =~= seq![0xC0u8, 0x00u8]);
            }
            return Ok(b);
        },
        Packet::PingResp => {
            let mut b: Vec<u8> = Vec::new();
            b.push(0xD0u8);
            b.push(0x00u8);
            proof {
                assert(b@ =~= seq![0xD0u8, 0x00u8]);
            }
            return Ok(b);
        },
        Packet::Disconnect(d) => encode_disconnect(d),
        Packet::ConnAck(_) => unreached(),
        Packet::SubAck(_) => unreached(),
        Packet::UnsubAck(_) => unreached(),
    };
    proof {
        // The success condition is settled packet kind by packet kind, so
        // that each wrapper's contract applies to its own arm.
        match p {
            Packet::Connect(_) => assert((r is Ok) == encodable(p@)),
            Packet::Publish(_) => assert((r is Ok) == encodable(p@)),
            Packet::PubAck(_) => assert((r is Ok) == encodable(p@)),
            Packet::PubRec(_) => assert((r is Ok) == encodable(p@)),
            Packet::PubRel(_) => assert((r is Ok) == encodable(p@)),
            Packet::PubComp(_) => assert((r is Ok) == encodable(p@)),
            Packet::Subscribe(_) => assert((r is Ok) == encodable(p@)),
            Packet::Unsubscribe(_) => assert((r is Ok) == encodable(p@)),
            Packet::Disconnect(_) => assert((r is Ok) == encodable(p@)),
            _ => (),
        }
    }
    match r {
        Ok(b) => Ok(b),
        Err(e) => Err(Error::MqttSerialize(e)),
    }
}

/// The outcome of framing one packet out of a byte buffer, at the
/// specification level: what `mqttbytes::v5::read` yields, carried into the
/// library's model, together with the bytes it leaves behind.
pub ghost enum DecodeView {
    /// A whole frame parsed into the library's model, and the remainder of
    /// the buffer after the frame's bytes were consumed.
    Packet(PacketView, Seq<u8>),
    /// A whole frame of a packet type only a broker may send, and the
    /// remainder after it was consumed.
    Rejected(Seq<u8>),
    /// The buffer holds no whole frame yet.
    NeedMore,
    /// The codec refused the bytes, with its error verbatim.
    Malformed(WireError),
}

/// What `mqttbytes::v5::read` makes of a buffer under a size bound: a
/// function of the bytes and the bound alone.
pub uninterp spec fn decode_of(bytes: Seq<u8>, max_size: usize) -> DecodeView;

/// What one attempt at framing a packet out of buffered bytes yielded.
enum ReadOutcome {
    /// A whole packet, already moved into the library's own model.
    Decoded(Packet),
    /// A whole packet of a type only a broker may send.
    Rejected,
    /// The buffer holds no whole frame yet.
    NeedMore,
    /// The codec rejected the bytes.
    Malformed(WireError),
}

/// Relies on `mqttbytes::QoS`: names each wire delivery level.
#[verifier::external_body]
fn from_wire_qos(q: WireQoS) -> QoS {
    match q {
        WireQoS::AtMostOnce => QoS::AtMostOnce,
        WireQoS::AtLeastOnce => QoS::AtLeastOnce,
        WireQoS::ExactlyOnce => QoS::ExactlyOnce,
    }
}

/// Relies on `mqttbytes::v5::Publish`: field-for-field copy of a message.
#[verifier::external_body]
fn from_wire_publish(p: WirePublish) -> Publish {
    Publish {
        dup: p.dup,
        qos: from_wire_qos(p.qos),
        retain: p.retain,
        topic: p.topic,
        pkid: p.pkid,
        payload: p.payload.to_vec(),
    }
}

/// Relies on `mqttbytes::v5::Packet`: tells the variants a client may receive
/// apart, moving their fields; yields nothing for broker-only requests.
#[verifier::external_body]
fn from_wire(p: WirePacket) -> Option<Packet> {
    match p {
        WirePacket::Publish(p) => Some(Packet::Publish(from_wire_publish(p))),
        WirePacket::ConnAck(c) => Some(Packet::ConnAck(ConnAck { session_present: c.session_present })),
        WirePacket::PubAck(a) => Some(Packet::PubAck(PubAck { pkid: a.pkid })),
        WirePacket::PubRec(a) => Some(Packet::PubRec(PubRec { pkid: a.pkid })),
        WirePacket::PubRel(a) => Some(Packet::PubRel(PubRel { pkid: a.pkid })),
        WirePacket::PubComp(a) => Some(Packet::PubComp(PubComp { pkid: a.pkid })),
        other => from_wire_rest(other),
    }
}

/// Relies on `mqttbytes::v5::Packet`: the remaining receivable variants.
#[verifier::external_body]
fn from_wire_rest(p: WirePacket) -> Option<Packet> {
    match p {
        WirePacket::SubAck(s) => Some(Packet::SubAck(SubAck { pkid: s.pkid })),
        WirePacket::UnsubAck(u) => Some(Packet::UnsubAck(UnsubAck { pkid: u.pkid })),
        WirePacket::PingResp => Some(Packet::PingResp),
        WirePacket::Disconnect(_) => Some(Packet::Disconnect(Disconnect {})),
        _ => None,
    }
}

/// Relies on `mqttbytes::v5::read`: frames and parses the first packet of the
/// buffer, consuming its bytes and retaining the remainder; asks for more
/// bytes without consuming anything while the frame is still partial. The
/// outcome is the named decode of the buffered bytes.
#[verifier::external_body]
fn read_packet(buf: &mut Vec<u8>, max_size: usize) -> (r: ReadOutcome)
    ensures
        decode_of(old(buf)@, max_size) matches DecodeView::Packet(p, rest) ==> (r matches
            ReadOutcome::Decoded(q) && q@ == p) && final(buf)@ == rest,
        decode_of(old(buf)@, max_size) matches DecodeView::Rejected(rest) ==> r is Rejected
            && final(buf)@ == rest,
        decode_of(old(buf)@, max_size) is NeedMore ==> r is NeedMore && final(buf)@ == old(buf)@,
        decode_of(old(buf)@, max_size) matches DecodeView::Malformed(e) ==> (r matches
            ReadOutcome::Malformed(e2) && e2 == e) && final(buf)@ == old(buf)@,
{
    let mut stream = bytes::BytesMut::from(&buf[..]);
    match mqttbytes::v5::read(&mut stream, max_size) {
        Ok(p) => {
            *buf = stream.to_vec();
            match from_wire(p) {
                Some(q) => ReadOutcome::Decoded(q),
                None => ReadOutcome::Rejected,
            }
        },
        Err(WireError::InsufficientBytes(_)) => ReadOutcome::NeedMore,
        Err(e) => ReadOutcome::Malformed(e),
    }
}

/// One step of receiving: what the connection should do next, given the
/// buffered bytes and whether the peer has closed its half of the stream.
pub enum RecvStep {
    /// A whole packet was framed; the remainder stays buffered.
    Packet(Packet),
    /// The buffer holds no whole packet yet: read more bytes.
    NeedData,
    /// The peer closed cleanly and nothing was left over.
    CleanClose,
    /// The stream cannot be read further.
    Fail(Error),
}

/// Decide the next receive action.
///
/// A clean close is reported exactly when the peer has closed and no buffered
/// bytes remain. For a nonempty buffer the named decode of its bytes settles
/// everything: a whole frame is returned with the remainder kept buffered, a
/// malformed frame fails with the codec's error verbatim, a broker-only
/// request fails as `UnexpectedPacket`, and a partial frame asks for more
/// bytes — or fails as `Truncated` once the peer has closed.
pub fn recv_step(buf: &mut Vec<u8>, eof: bool) -> (r: RecvStep)
    ensures
        (r is CleanClose) <==> (eof && old(buf)@.len() == 0),
        (!eof && old(buf)@.len() == 0) ==> r is NeedData && final(buf)@ == old(buf)@,
        eof ==> !(r is NeedData),
        old(buf)@.len() > 0 ==> (match decode_of(old(buf)@, crate::MAX_PACKET_SIZE) {
            DecodeView::Packet(p, rest) => (r matches RecvStep::Packet(q) && q@ == p)
                && final(buf)@ == rest,
            DecodeView::Rejected(rest) => (r matches RecvStep::Fail(e) && e is UnexpectedPacket)
                && final(buf)@ == rest,
            DecodeView::NeedMore => if eof {
                (r matches RecvStep::Fail(e) && e is Truncated) && final(buf)@ == old(buf)@
            } else {
                r is NeedData && final(buf)@ == old(buf)@
            },
            DecodeView::Malformed(e) => (r matches RecvStep::Fail(err) && err
                == Error::MqttDeserialize(e)) && final(buf)@ == old(buf)@,
        }),
{
    if buf.len() == 0 {
        if eof {
            RecvStep::CleanClose
        } else {
            RecvStep::NeedData
        }
    } else {
        match read_packet(buf, crate::MAX_PACKET_SIZE) {
            ReadOutcome::Decoded(p) => RecvStep::Packet(p),
            ReadOutcome::Rejected => RecvStep::Fail(Error::UnexpectedPacket),
            ReadOutcome::NeedMore => {
                if eof {
                    RecvStep::Fail(Error::Truncated)
                } else {
                    RecvStep::NeedData
                }
            },
            ReadOutcome::Malformed(e) => RecvStep::Fail(Error::MqttDeserialize(e)),
        }
    }
}

} // verus!
