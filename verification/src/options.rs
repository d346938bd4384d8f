//! The client's connection options and the CONNECT packet built from them.
//!
//! Every option is optional; an unset one keeps the protocol's default. The
//! CONNECT built from the options always asks the broker for response and
//! problem information.

use vstd::prelude::*;

use crate::packet::{Connect, ConnectProperties, LastWill, Login};

verus! {

/// The options a client is built with.
pub struct ConnectOptions {
    pub client_id: Option<String>,
    pub keep_alive: Option<u16>,
    pub clean_session: Option<bool>,
    pub last_will: Option<LastWill>,
    pub login: Option<Login>,
    pub authentication_method_and_data: Option<(String, Vec<u8>)>,
    pub user_properties: Vec<(String, String)>,
}

impl ConnectOptions {
    /// All options unset.
    pub fn new() -> (r: ConnectOptions)
        ensures
            r.client_id is None,
            r.keep_alive is None,
            r.clean_session is None,
            r.last_will is None,
            r.login is None,
            r.authentication_method_and_data is None,
            r.user_properties@.len() == 0,
    {
        ConnectOptions {
            client_id: None,
            keep_alive: None,
            clean_session: None,
            last_will: None,
            login: None,
            authentication_method_and_data: None,
            user_properties: Vec::new(),
        }
    }

    /// Use this client identifier instead of the default.
    pub fn set_client_id(&mut self, client_id: String)
        ensures
            *final(self) == (ConnectOptions { client_id: Some(client_id), ..*old(self) }),
    {
        self.client_id = Some(client_id);
    }

    /// Use this keep-alive interval, in seconds.
    pub fn set_keep_alive(&mut self, keep_alive: u16)
        ensures
            *final(self) == (ConnectOptions { keep_alive: Some(keep_alive), ..*old(self) }),
    {
        self.keep_alive = Some(keep_alive);
    }

    /// Ask the broker to start from (or keep) session state.
    pub fn set_clean_session(&mut self, clean_session: bool)
        ensures
            *final(self) == (ConnectOptions { clean_session: Some(clean_session), ..*old(self) }),
    {
        self.clean_session = Some(clean_session);
    }

    /// Leave this will with the broker.
    pub fn set_last_will(&mut self, last_will: LastWill)
        ensures
            *final(self) == (ConnectOptions { last_will: Some(last_will), ..*old(self) }),
    {
        self.last_will = Some(last_will);
    }

    /// Authenticate with this username and password.
    pub fn set_login(&mut self, login: Login)
        ensures
            *final(self) == (ConnectOptions { login: Some(login), ..*old(self) }),
    {
        self.login = Some(login);
    }

    /// Use this enhanced-authentication method and data.
    pub fn set_authentication_method_and_data(&mut self, method: String, data: Vec<u8>)
        ensures
            *final(self) == (ConnectOptions {
                authentication_method_and_data: Some((method, data)),
                ..*old(self)
            }),
    {
        self.authentication_method_and_data = Some((method, data));
    }

    /// Attach these user properties to the CONNECT.
    pub fn set_user_properties(&mut self, properties: Vec<(String, String)>)
        ensures
            *final(self) == (ConnectOptions { user_properties: properties, ..*old(self) }),
    {
        self.user_properties = properties;
    }

    /// The CONNECT packet these options ask for: defaults where unset, the
    /// chosen values where set, and a properties block that always requests
    /// response and problem information from the broker.
    pub fn connect_packet(&self) -> (r: Connect)
        ensures
            r@.client_id == match self.client_id {
                Some(ref id) => id@,
                None => "qute"@,
            },
            r@.keep_alive == match self.keep_alive {
                Some(k) => k,
                None => 10u16,
            },
            r@.clean_session == match self.clean_session {
                Some(c) => c,
                None => true,
            },
            r@.last_will == match self.last_will {
                Some(ref w) => Some(w@),
                None => None::<crate::packet::LastWillView>,
            },
            r@.login == match self.login {
                Some(ref l) => Some(l@),
                None => None::<crate::packet::LoginView>,
            },
            r@.properties matches Some(p) && {
                &&& p.session_expiry_interval is None
                &&& p.receive_maximum is None
                &&& p.max_packet_size is None
                &&& p.topic_alias_max is None
                &&& p.request_response_info == Some(1u8)
                &&& p.request_problem_info == Some(1u8)
                &&& p.user_properties == self.user_properties.deep_view()
                &&& p.authentication_method == match self.authentication_method_and_data {
                    Some(ref md) => Some(md.0@),
                    None => None::<Seq<char>>,
                }
                &&& p.authentication_data == match self.authentication_method_and_data {
                    Some(ref md) => Some(md.1@),
                    None => None::<Seq<u8>>,
                }
            },
    {
        let client_id: String = match &self.client_id {
            Some(id) => id.clone(),
            None => "qute".to_owned(),
        };
        let mut connect = Connect::new(client_id.as_str());
        if let Some(keep_alive) = self.keep_alive {
            connect.keep_alive = keep_alive;
        }
        if let Some(clean_session) = self.clean_session {
            connect.clean_session = clean_session;
        }
        connect.last_will = match &self.last_will {
            Some(w) => Some(w.clone()),
            None => None,
        };
        connect.login = match &self.login {
            Some(l) => Some(l.clone()),
            None => None,
        };
        let mut properties = ConnectProperties {
            session_expiry_interval: None,
            receive_maximum: None,
            max_packet_size: None,
            topic_alias_max: None,
            request_response_info: Some(1),
            request_problem_info: Some(1),
            user_properties: clone_string_pairs(&self.user_properties),
            authentication_method: None,
            authentication_data: None,
        };
        if let Some((method, data)) = &self.authentication_method_and_data {
            properties.authentication_method = Some(method.clone());
            let data_copy = data.clone();
            proof {
                assert(data_copy@ =~= data@);
            }
            properties.authentication_data = Some(data_copy);
        }
        connect.properties = Some(properties);
        connect
    }
}

/// A deep copy of a list of key-value text pairs.
fn clone_string_pairs(pairs: &Vec<(String, String)>) -> (r: Vec<(String, String)>)
    ensures
        r.deep_view() == pairs.deep_view(),
{
    let mut r: Vec<(String, String)> = Vec::new();
    let n = pairs.len();
    let mut i: usize = 0;
    while i < n
        invariant
            i <= n,
            n == pairs.len(),
            r.deep_view() =~~= pairs.deep_view().take(i as int),
        decreases n - i,
    {
        let ghost pre = r.deep_view();
        r.push((pairs[i].0.clone(), pairs[i].1.clone()));
        proof {
            assert(r.deep_view() =~~= pre.push(pairs.deep_view()[i as int]));
            assert(pairs.deep_view().take(i + 1) =~~= pairs.deep_view().take(i as int).push(
                pairs.deep_view()[i as int],
            ));
        }
        i = i + 1;
    }
    proof {
        assert(pairs.deep_view().take(n as int) =~~= pairs.deep_view());
    }
    r
}

} // verus!
