//! Plain-data model of the MQTT v5 control packets the client exchanges.
//!
//! Each packet type carries exactly the fields the client's logic reads or
//! writes, as plain values; every type has a mathematical view over `Seq` so
//! that contracts can speak about its contents.

use vstd::prelude::*;

verus! {

/// Quality of service of a PUBLISH: at most once, at least once, exactly once.
#[derive(Clone, Copy, Debug, PartialEq, Eq, Structural)]
pub enum QoS {
    AtMostOnce,
    AtLeastOnce,
    ExactlyOnce,
}

/// An application message, outbound or inbound.
#[derive(Debug, PartialEq, Eq)]
pub struct Publish {
    pub dup: bool,
    pub qos: QoS,
    pub retain: bool,
    pub topic: String,
    pub pkid: u16,
    pub payload: Vec<u8>,
}

pub ghost struct PublishView {
    pub dup: bool,
    pub qos: QoS,
    pub retain: bool,
    pub topic: Seq<char>,
    pub pkid: u16,
    pub payload: Seq<u8>,
}

impl View for Publish {
    type V = PublishView;

    open spec fn view(&self) -> PublishView {
        PublishView {
            dup: self.dup,
            qos: self.qos,
            retain: self.retain,
            topic: self.topic@,
            pkid: self.pkid,
            payload: self.payload@,
        }
    }
}

impl Clone for Publish {
    /// A deep copy with the same view.
    fn clone(&self) -> (res: Self)
        ensures
            res@ == self@,
    {
        let payload = self.payload.clone();
        proof {
            assert(payload@ =~= self.payload@);
        }
        Publish {
            dup: self.dup,
            qos: self.qos,
            retain: self.retain,
            topic: self.topic.clone(),
            pkid: self.pkid,
            payload,
        }
    }
}

impl Publish {
    /// A fresh message: not a duplicate, not retained, identifier unassigned.
    pub fn new(topic: &str, qos: QoS, payload: &[u8]) -> (r: Publish)
        ensures
            r@ == (PublishView {
                dup: false,
                qos,
                retain: false,
                topic: topic@,
                pkid: 0,
                payload: payload@,
            }),
    {
        Publish {
            dup: false,
            qos,
            retain: false,
            topic: topic.to_owned(),
            pkid: 0,
            payload: vstd::slice::slice_to_vec(payload),
        }
    }
}

/// The message a broker stores and publishes on the client's behalf if the
/// connection dies unexpectedly.
#[derive(Debug, PartialEq, Eq)]
pub struct LastWill {
    pub topic: String,
    pub message: Vec<u8>,
    pub qos: QoS,
    pub retain: bool,
}

impl Clone for LastWill {
    /// A deep copy with the same view.
    fn clone(&self) -> (res: Self)
        ensures
            res@ == self@,
    {
        let message = self.message.clone();
        proof {
            assert(message@ =~= self.message@);
        }
        LastWill { topic: self.topic.clone(), message, qos: self.qos, retain: self.retain }
    }
}

pub ghost struct LastWillView {
    pub topic: Seq<char>,
    pub message: Seq<u8>,
    pub qos: QoS,
    pub retain: bool,
}

impl View for LastWill {
    type V = LastWillView;

    open spec fn view(&self) -> LastWillView {
        LastWillView {
            topic: self.topic@,
            message: self.message@,
            qos: self.qos,
            retain: self.retain,
        }
    }
}

/// Username and password sent in CONNECT.
#[derive(Debug, PartialEq, Eq)]
pub struct Login {
    pub username: String,
    pub password: String,
}

impl Clone for Login {
    /// A deep copy with the same view.
    fn clone(&self) -> (res: Self)
        ensures
            res@ == self@,
    {
        Login { username: self.username.clone(), password: self.password.clone() }
    }
}

pub ghost struct LoginView {
    pub username: Seq<char>,
    pub password: Seq<char>,
}

impl View for Login {
    type V = LoginView;

    open spec fn view(&self) -> LoginView {
        LoginView { username: self.username@, password: self.password@ }
    }
}

/// The properties block of a CONNECT packet.
#[derive(Clone, Debug, PartialEq, Eq)]
pub struct ConnectProperties {
    pub session_expiry_interval: Option<u32>,
    pub receive_maximum: Option<u16>,
    pub max_packet_size: Option<u32>,
    pub topic_alias_max: Option<u16>,
    pub request_response_info: Option<u8>,
    pub request_problem_info: Option<u8>,
    pub user_properties: Vec<(String, String)>,
    pub authentication_method: Option<String>,
    pub authentication_data: Option<Vec<u8>>,
}

pub ghost struct ConnectPropertiesView {
    pub session_expiry_interval: Option<u32>,
    pub receive_maximum: Option<u16>,
    pub max_packet_size: Option<u32>,
    pub topic_alias_max: Option<u16>,
    pub request_response_info: Option<u8>,
    pub request_problem_info: Option<u8>,
    pub user_properties: Seq<(Seq<char>, Seq<char>)>,
    pub authentication_method: Option<Seq<char>>,
    pub authentication_data: Option<Seq<u8>>,
}

impl View for ConnectProperties {
    type V = ConnectPropertiesView;

    open spec fn view(&self) -> ConnectPropertiesView {
        ConnectPropertiesView {
            session_expiry_interval: self.session_expiry_interval,
            receive_maximum: self.receive_maximum,
            max_packet_size: self.max_packet_size,
            topic_alias_max: self.topic_alias_max,
            request_response_info: self.request_response_info,
            request_problem_info: self.request_problem_info,
            user_properties: self.user_properties.deep_view(),
            authentication_method: match self.authentication_method {
                Some(ref m) => Some(m@),
                None => None,
            },
            authentication_data: match self.authentication_data {
                Some(ref d) => Some(d@),
                None => None,
            },
        }
    }
}

/// The handshake request opening the session.
#[derive(Clone, Debug, PartialEq, Eq)]
pub struct Connect {
    pub keep_alive: u16,
    pub client_id: String,
    pub clean_session: bool,
    pub last_will: Option<LastWill>,
    pub login: Option<Login>,
    pub properties: Option<ConnectProperties>,
}

pub ghost struct ConnectView {
    pub keep_alive: u16,
    pub client_id: Seq<char>,
    pub clean_session: bool,
    pub last_will: Option<LastWillView>,
    pub login: Option<LoginView>,
    pub properties: Option<ConnectPropertiesView>,
}

impl View for Connect {
    type V = ConnectView;

    open spec fn view(&self) -> ConnectView {
        ConnectView {
            keep_alive: self.keep_alive,
            client_id: self.client_id@,
            clean_session: self.clean_session,
            last_will: match self.last_will {
                Some(ref w) => Some(w@),
                None => None,
            },
            login: match self.login {
                Some(ref l) => Some(l@),
                None => None,
            },
            properties: match self.properties {
                Some(ref p) => Some(p@),
                None => None,
            },
        }
    }
}

impl Connect {
    /// A CONNECT with the protocol's default options.
    pub fn new(client_id: &str) -> (r: Connect)
        ensures
            r@ == (ConnectView {
                keep_alive: 10,
                client_id: client_id@,
                clean_session: true,
                last_will: None,
                login: None,
                properties: None,
            }),
    {
        Connect {
            keep_alive: 10,
            client_id: client_id.to_owned(),
            clean_session: true,
            last_will: None,
            login: None,
            properties: None,
        }
    }
}

/// The broker's answer to CONNECT.
#[derive(Clone, Copy, Debug, PartialEq, Eq, Structural)]
pub struct ConnAck {
    pub session_present: bool,
}

/// Acknowledgment completing a QoS 1 PUBLISH.
#[derive(Clone, Copy, Debug, PartialEq, Eq, Structural)]
pub struct PubAck {
    pub pkid: u16,
}

impl PubAck {
    pub fn new(pkid: u16) -> (r: PubAck)
        ensures
            r.pkid == pkid,
    {
        PubAck { pkid }
    }
}

/// First acknowledgment of a QoS 2 PUBLISH.
#[derive(Clone, Copy, Debug, PartialEq, Eq, Structural)]
pub struct PubRec {
    pub pkid: u16,
}

impl PubRec {
    pub fn new(pkid: u16) -> (r: PubRec)
        ensures
            r.pkid == pkid,
    {
        PubRec { pkid }
    }
}

/// Release of a QoS 2 PUBLISH, sent after PUBREC.
#[derive(Clone, Copy, Debug, PartialEq, Eq, Structural)]
pub struct PubRel {
    pub pkid: u16,
}

impl PubRel {
    pub fn new(pkid: u16) -> (r: PubRel)
        ensures
            r.pkid == pkid,
    {
        PubRel { pkid }
    }
}

/// Final acknowledgment of a QoS 2 PUBLISH.
#[derive(Clone, Copy, Debug, PartialEq, Eq, Structural)]
pub struct PubComp {
    pub pkid: u16,
}

impl PubComp {
    pub fn new(pkid: u16) -> (r: PubComp)
        ensures
            r.pkid == pkid,
    {
        PubComp { pkid }
    }
}

/// One topic filter requested in a SUBSCRIBE.
#[derive(Clone, Debug, PartialEq, Eq)]
pub struct SubscribeFilter {
    pub path: String,
    pub qos: QoS,
}

pub ghost struct SubscribeFilterView {
    pub path: Seq<char>,
    pub qos: QoS,
}

impl View for SubscribeFilter {
    type V = SubscribeFilterView;

    open spec fn view(&self) -> SubscribeFilterView {
        SubscribeFilterView { path: self.path@, qos: self.qos }
    }
}

/// A subscription request; carries one or more filters.
#[derive(Clone, Debug, PartialEq, Eq)]
pub struct Subscribe {
    pub pkid: u16,
    pub filters: Vec<SubscribeFilter>,
}

pub ghost struct SubscribeView {
    pub pkid: u16,
    pub filters: Seq<SubscribeFilterView>,
}

impl View for Subscribe {
    type V = SubscribeView;

    open spec fn view(&self) -> SubscribeView {
        SubscribeView {
            pkid: self.pkid,
            filters: Seq::new(self.filters@.len(), |i: int| self.filters@[i]@),
        }
    }
}

impl Subscribe {
    /// A subscription to a single filter, identifier unassigned.
    pub fn new(path: &str, qos: QoS) -> (r: Subscribe)
        ensures
            r@.pkid == 0,
            r@.filters =~= seq![SubscribeFilterView { path: path@, qos }],
    {
        let mut filters: Vec<SubscribeFilter> = Vec::new();
        filters.push(SubscribeFilter { path: path.to_owned(), qos });
        Subscribe { pkid: 0, filters }
    }

    /// A subscription to many filters at once, identifier unassigned.
    pub fn new_many(filters: Vec<SubscribeFilter>) -> (r: Subscribe)
        ensures
            r@.pkid == 0,
            r@.filters =~= Seq::new(filters@.len(), |i: int| filters@[i]@),
    {
        Subscribe { pkid: 0, filters }
    }
}

/// A request to drop subscriptions; carries the filters to drop.
#[derive(Clone, Debug, PartialEq, Eq)]
pub struct Unsubscribe {
    pub pkid: u16,
    pub filters: Vec<String>,
}

pub ghost struct UnsubscribeView {
    pub pkid: u16,
    pub filters: Seq<Seq<char>>,
}

impl View for Unsubscribe {
    type V = UnsubscribeView;

    open spec fn view(&self) -> UnsubscribeView {
        UnsubscribeView { pkid: self.pkid, filters: self.filters.deep_view() }
    }
}

impl Unsubscribe {
    pub fn new(topic: &str) -> (r: Unsubscribe)
        ensures
            r@.pkid == 0,
            r@.filters =~= seq![topic@],
    {
        let mut filters: Vec<String> = Vec::new();
        filters.push(topic.to_owned());
        Unsubscribe { pkid: 0, filters }
    }
}

/// The broker's answer to SUBSCRIBE.
#[derive(Clone, Copy, Debug, PartialEq, Eq, Structural)]
pub struct SubAck {
    pub pkid: u16,
}

/// The broker's answer to UNSUBSCRIBE.
#[derive(Clone, Copy, Debug, PartialEq, Eq, Structural)]
pub struct UnsubAck {
    pub pkid: u16,
}

/// An orderly end of the session.
#[derive(Clone, Copy, Debug, PartialEq, Eq, Structural)]
pub struct Disconnect {}

impl Disconnect {
    pub fn new() -> (r: Disconnect) {
        Disconnect {}
    }
}

/// Every MQTT v5 control packet the client sends or receives.
#[derive(Clone, Debug, PartialEq, Eq)]
pub enum Packet {
    Connect(Connect),
    ConnAck(ConnAck),
    Publish(Publish),
    PubAck(PubAck),
    PubRec(PubRec),
    PubRel(PubRel),
    PubComp(PubComp),
    Subscribe(Subscribe),
    SubAck(SubAck),
    Unsubscribe(Unsubscribe),
    UnsubAck(UnsubAck),
    PingReq,
    PingResp,
    Disconnect(Disconnect),
}

pub ghost enum PacketView {
    Connect(ConnectView),
    ConnAck(ConnAck),
    Publish(PublishView),
    PubAck(PubAck),
    PubRec(PubRec),
    PubRel(PubRel),
    PubComp(PubComp),
    Subscribe(SubscribeView),
    SubAck(SubAck),
    Unsubscribe(UnsubscribeView),
    UnsubAck(UnsubAck),
    PingReq,
    PingResp,
    Disconnect(Disconnect),
}

impl View for Packet {
    type V = PacketView;

    open spec fn view(&self) -> PacketView {
        match self {
            Packet::Connect(p) => PacketView::Connect(p@),
            Packet::ConnAck(p) => PacketView::ConnAck(*p),
            Packet::Publish(p) => PacketView::Publish(p@),
            Packet::PubAck(p) => PacketView::PubAck(*p),
            Packet::PubRec(p) => PacketView::PubRec(*p),
            Packet::PubRel(p) => PacketView::PubRel(*p),
            Packet::PubComp(p) => PacketView::PubComp(*p),
            Packet::Subscribe(p) => PacketView::Subscribe(p@),
            Packet::SubAck(p) => PacketView::SubAck(*p),
            Packet::Unsubscribe(p) => PacketView::Unsubscribe(p@),
            Packet::UnsubAck(p) => PacketView::UnsubAck(*p),
            Packet::PingReq => PacketView::PingReq,
            Packet::PingResp => PacketView::PingResp,
            Packet::Disconnect(p) => PacketView::Disconnect(*p),
        }
    }
}

} // verus!
