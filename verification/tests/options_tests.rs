use qute::extract::{payload_of, qos_of, FromState, State, Topic};
use qute::options::ConnectOptions;
use qute::packet::{LastWill, Login, Publish, QoS};

#[test]
fn default_connect_packet_uses_protocol_defaults() {
    let connect = ConnectOptions::new().connect_packet();
    assert_eq!(connect.client_id, "qute");
    assert_eq!(connect.keep_alive, 10);
    assert!(connect.clean_session);
    assert!(connect.last_will.is_none());
    assert!(connect.login.is_none());
    let props = connect.properties.expect("properties are always present");
    assert_eq!(props.request_response_info, Some(1));
    assert_eq!(props.request_problem_info, Some(1));
    assert!(props.session_expiry_interval.is_none());
    assert!(props.user_properties.is_empty());
    assert!(props.authentication_method.is_none());
    assert!(props.authentication_data.is_none());
}

#[test]
fn every_option_lands_in_the_connect_packet() {
    let mut options = ConnectOptions::new();
    options.set_client_id(String::from("device-7"));
    options.set_keep_alive(60);
    options.set_clean_session(false);
    options.set_last_will(LastWill {
        topic: String::from("gone"),
        message: b"bye".to_vec(),
        qos: QoS::AtLeastOnce,
        retain: true,
    });
    options.set_login(Login { username: String::from("u"), password: String::from("p") });
    options.set_authentication_method_and_data(String::from("SCRAM"), b"nonce".to_vec());
    options.set_user_properties(vec![(String::from("k"), String::from("v"))]);

    let connect = options.connect_packet();
    assert_eq!(connect.client_id, "device-7");
    assert_eq!(connect.keep_alive, 60);
    assert!(!connect.clean_session);
    let will = connect.last_will.expect("the will is kept");
    assert_eq!(will.topic, "gone");
    assert_eq!(will.message, b"bye".to_vec());
    assert_eq!(will.qos, QoS::AtLeastOnce);
    assert!(will.retain);
    let login = connect.login.expect("the login is kept");
    assert_eq!(login.username, "u");
    assert_eq!(login.password, "p");
    let props = connect.properties.expect("properties are always present");
    assert_eq!(props.user_properties, vec![(String::from("k"), String::from("v"))]);
    assert_eq!(props.authentication_method, Some(String::from("SCRAM")));
    assert_eq!(props.authentication_data, Some(b"nonce".to_vec()));
}

#[test]
fn extractors_read_the_literal_message() {
    let mut publish = Publish::new("foo/bar", QoS::ExactlyOnce, b"payload");
    publish.pkid = 5;
    assert_eq!(Topic::from_publish(&publish).0, "foo/bar");
    assert_eq!(qos_of(&publish), QoS::ExactlyOnce);
    assert_eq!(payload_of(&publish), b"payload".to_vec());
    let copy = publish.clone();
    assert_eq!(copy, publish);
}

#[test]
fn state_extraction_is_the_identity_for_the_state_type() {
    let state = String::from("shared");
    let State(inner) = State(String::from_state(&state));
    assert_eq!(inner, "shared");
}
