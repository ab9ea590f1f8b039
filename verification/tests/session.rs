use coap_gateway::coap::CoapResponse;
use coap_gateway::device::{BulbData, BulbTemperature, Device, DeviceState};
use coap_gateway::gateway::{Gateway, GatewayError, Request};
use serde_json::Value;

fn json(text: &str) -> Value {
    serde_json::from_str(text).unwrap()
}

fn success(text: &str) -> CoapResponse {
    CoapResponse::Success(json(text))
}

fn refusal() -> CoapResponse {
    CoapResponse::Error("Bad request.".to_string())
}

fn pairs(request: Request) -> (String, Vec<(char, String)>) {
    let mut options = request.options;
    (request.endpoint, options.drain())
}

fn owned(pairs: &[(char, &str)]) -> Vec<(char, String)> {
    pairs.iter().map(|(flag, value)| (*flag, value.to_string())).collect()
}

fn authenticated() -> Gateway {
    let mut gateway = Gateway::new([192, 168, 1, 10], "code");
    assert!(gateway.begin_authentication("alice", Some("abc123".to_string())).is_none());
    gateway
}

#[test]
fn a_new_session_is_not_authenticated() {
    let gateway = Gateway::new([10, 0, 0, 2], "code");
    assert!(!gateway.is_authenticated());
    assert_eq!(gateway.user(), None);
    assert_eq!(gateway.preshared_key(), None);
    assert_eq!(gateway.addr(), [10, 0, 0, 2]);
}

#[test]
fn a_stored_key_is_adopted_without_a_request() {
    let mut gateway = Gateway::new([10, 0, 0, 2], "code");
    let request = gateway.begin_authentication("alice", Some("stored".to_string()));
    assert!(request.is_none());
    assert!(gateway.is_authenticated());
    assert_eq!(gateway.user(), Some("alice"));
    assert_eq!(gateway.preshared_key(), Some("stored"));
}

#[test]
fn without_a_stored_key_the_bootstrap_request_is_worded() {
    let mut gateway = Gateway::new([192, 168, 1, 10], "code");
    let request = gateway.begin_authentication("alice", None).unwrap();
    assert!(!gateway.is_authenticated());
    let (endpoint, fields) = pairs(request);
    assert_eq!(endpoint, "coaps://192.168.1.10:5684/15011/9063");
    assert_eq!(
        fields,
        owned(&[('m', "post"), ('u', "Client_identity"), ('k', "code"), ('e', "{\"9090\":\"alice\"}")])
    );
}

#[test]
fn authentication_derives_the_key_and_the_line_to_keep() {
    let mut gateway = Gateway::new([192, 168, 1, 10], "code");
    let line = gateway.authenticate("alice", success("{\"9091\":\"abc123\"}"));
    assert_eq!(line, Ok("PRESHARED_KEY=abc123".to_string()));
    assert!(gateway.is_authenticated());
    assert_eq!(gateway.preshared_key(), Some("abc123"));
    assert_eq!(gateway.user(), Some("alice"));
}

#[test]
fn a_key_that_is_no_string_is_taken_as_its_json_text() {
    let mut gateway = Gateway::new([192, 168, 1, 10], "code");
    let line = gateway.authenticate("alice", success("{\"9091\":[1,\"a\"],\"9029\":\"1.2\"}"));
    assert_eq!(line, Ok("PRESHARED_KEY=[1,\"a\"]".to_string()));
    assert_eq!(gateway.preshared_key(), Some("[1,\"a\"]"));
    let mut other = Gateway::new([192, 168, 1, 10], "code");
    assert_eq!(other.authenticate("bob", success("{\"9091\":42}")), Ok("PRESHARED_KEY=42".to_string()));
    assert_eq!(other.preshared_key(), Some("42"));
}

#[test]
fn an_answer_without_key_leaves_the_session_as_it_was() {
    let mut gateway = Gateway::new([192, 168, 1, 10], "code");
    assert_eq!(gateway.authenticate("alice", success("{}")), Err(GatewayError::MissingKey));
    assert_eq!(gateway.authenticate("alice", success("[\"9091\"]")), Err(GatewayError::MissingKey));
    assert!(!gateway.is_authenticated());
    let mut known = authenticated();
    assert_eq!(known.authenticate("bob", success("{\"9090\":\"x\"}")), Err(GatewayError::MissingKey));
    assert_eq!(known.user(), Some("alice"));
    assert_eq!(known.preshared_key(), Some("abc123"));
}

#[test]
fn a_refused_authentication_leaves_the_session_as_it_was() {
    let mut gateway = Gateway::new([192, 168, 1, 10], "code");
    assert_eq!(
        gateway.authenticate("alice", refusal()),
        Err(GatewayError::Protocol("Bad request.".to_string()))
    );
    assert!(!gateway.is_authenticated());
    assert_eq!(gateway.request_device_ids().err(), Some(GatewayError::NotAuthenticated));
}

#[test]
fn authenticating_again_overwrites_the_key() {
    let mut gateway = authenticated();
    assert_eq!(
        gateway.authenticate("bob", success("{\"9091\":\"fresh\"}")),
        Ok("PRESHARED_KEY=fresh".to_string())
    );
    assert_eq!(gateway.user(), Some("bob"));
    assert_eq!(gateway.preshared_key(), Some("fresh"));
}

#[test]
fn operations_need_an_authenticated_session() {
    let gateway = Gateway::new([192, 168, 1, 10], "code");
    assert_eq!(gateway.request_device_ids().err(), Some(GatewayError::NotAuthenticated));
    assert_eq!(gateway.request_device(1).err(), Some(GatewayError::NotAuthenticated));
    assert_eq!(
        gateway.request_device_state(1, &json("{}")).err(),
        Some(GatewayError::NotAuthenticated)
    );
    assert_eq!(gateway.get_device_ids(success("[1]")), Err(GatewayError::NotAuthenticated));
    assert_eq!(gateway.get_device_by_id(refusal()).err(), Some(GatewayError::NotAuthenticated));
    assert_eq!(gateway.set_device_state(success("{}")), Err(GatewayError::NotAuthenticated));
}

#[test]
fn the_device_list_is_asked_for_with_the_session_key() {
    let (endpoint, fields) = pairs(authenticated().request_device_ids().unwrap());
    assert_eq!(endpoint, "coaps://192.168.1.10:5684/15001");
    assert_eq!(fields, owned(&[('m', "get"), ('u', "alice"), ('k', "abc123")]));
}

#[test]
fn device_ids_pass_over_what_is_no_identifier() {
    let gateway = authenticated();
    assert_eq!(gateway.get_device_ids(success("[1, 2, \"x\", 3]")), Ok(vec![1, 2, 3]));
    assert_eq!(
        gateway.get_device_ids(success("[-1, 65537, 2.5, null, [4], {\"5\":5}, 18446744073709551615, 0]")),
        Ok(vec![65537, 18446744073709551615, 0])
    );
    assert_eq!(gateway.get_device_ids(success("[]")), Ok(Vec::new()));
}

#[test]
fn device_ids_keep_their_order_and_repeats() {
    assert_eq!(authenticated().get_device_ids(success("[3, 1, 3, 2]")), Ok(vec![3, 1, 3, 2]));
}

#[test]
fn a_device_list_that_is_no_array_is_malformed() {
    let gateway = authenticated();
    assert_eq!(gateway.get_device_ids(success("{}")), Err(GatewayError::MalformedList));
    assert_eq!(gateway.get_device_ids(success("7")), Err(GatewayError::MalformedList));
}

#[test]
fn a_refusal_is_handed_on() {
    let gateway = authenticated();
    let error = GatewayError::Protocol("Bad request.".to_string());
    assert_eq!(gateway.get_device_ids(refusal()), Err(GatewayError::Protocol("Bad request.".to_string())));
    assert_eq!(gateway.get_device_by_id(refusal()).err(), Some(GatewayError::Protocol("Bad request.".to_string())));
    assert_eq!(gateway.set_device_state(refusal()), Err(error));
}

#[test]
fn one_device_is_asked_for_under_its_identifier() {
    let gateway = authenticated();
    let (endpoint, fields) = pairs(gateway.request_device(65537).unwrap());
    assert_eq!(endpoint, "coaps://192.168.1.10:5684/15001/65537");
    assert_eq!(fields, owned(&[('m', "get"), ('u', "alice"), ('k', "abc123")]));
    let (endpoint, _) = pairs(gateway.request_device(0).unwrap());
    assert_eq!(endpoint, "coaps://192.168.1.10:5684/15001/0");
    let (endpoint, _) = pairs(gateway.request_device(u64::MAX).unwrap());
    assert_eq!(endpoint, "coaps://192.168.1.10:5684/15001/18446744073709551615");
}

#[test]
fn addresses_are_written_in_dotted_decimal() {
    let mut gateway = Gateway::new([0, 255, 100, 7], "code");
    gateway.begin_authentication("u", Some("k".to_string()));
    let (endpoint, _) = pairs(gateway.request_device_ids().unwrap());
    assert_eq!(endpoint, "coaps://0.255.100.7:5684/15001");
}

#[test]
fn a_device_is_read_from_its_object() {
    let payload = "{\"9001\":\"Desk lamp\",\"9003\":65537,\"5750\":2,\
                   \"3311\":[{\"5850\":1,\"5706\":\"f1e0b5\",\"5851\":254}]}";
    let device = authenticated().get_device_by_id(success(payload)).unwrap();
    assert_eq!(
        device,
        Device {
            id: 65537,
            name: "Desk lamp".to_string(),
            data: BulbData { status: DeviceState::On, temperature: BulbTemperature::Warm },
        }
    );
}

#[test]
fn the_first_attribute_object_counts() {
    let payload = "{\"9001\":\"\",\"9003\":0,\"3311\":[{\"5850\":0,\"5706\":\"efd275\"},{\"5850\":1}]}";
    let device = authenticated().get_device_by_id(success(payload)).unwrap();
    assert_eq!(device.id, 0);
    assert_eq!(device.name, "");
    assert_eq!(device.data, BulbData { status: DeviceState::Off, temperature: BulbTemperature::Glow });
}

#[test]
fn a_malformed_device_is_a_decode_error() {
    let gateway = authenticated();
    for payload in [
        "{}",
        "[65537,\"Lamp\",[{\"5850\":1,\"5706\":\"f1e0b5\"}]]",
        "{\"9001\":\"Lamp\",\"3311\":[{\"5850\":1,\"5706\":\"f1e0b5\"}]}",
        "{\"9003\":1,\"3311\":[{\"5850\":1,\"5706\":\"f1e0b5\"}]}",
        "{\"9003\":1,\"9001\":\"Lamp\"}",
        "{\"9003\":1,\"9001\":\"Lamp\",\"3311\":[]}",
        "{\"9003\":1,\"9001\":\"Lamp\",\"3311\":{\"5850\":1,\"5706\":\"f1e0b5\"}}",
        "{\"9003\":\"1\",\"9001\":\"Lamp\",\"3311\":[{\"5850\":1,\"5706\":\"f1e0b5\"}]}",
        "{\"9003\":-1,\"9001\":\"Lamp\",\"3311\":[{\"5850\":1,\"5706\":\"f1e0b5\"}]}",
        "{\"9003\":1,\"9001\":7,\"3311\":[{\"5850\":1,\"5706\":\"f1e0b5\"}]}",
        "{\"9003\":1,\"9001\":\"Lamp\",\"3311\":[{\"5850\":2,\"5706\":\"f1e0b5\"}]}",
        "{\"9003\":1,\"9001\":\"Lamp\",\"3311\":[{\"5850\":true,\"5706\":\"f1e0b5\"}]}",
        "{\"9003\":1,\"9001\":\"Lamp\",\"3311\":[{\"5850\":1,\"5706\":\"ffffff\"}]}",
        "{\"9003\":1,\"9001\":\"Lamp\",\"3311\":[{\"5850\":1,\"5706\":\"F1E0B5\"}]}",
        "{\"9003\":1,\"9001\":\"Lamp\",\"3311\":[{\"5850\":1}]}",
        "{\"9003\":1,\"9001\":\"Lamp\",\"3311\":[{\"5706\":\"f1e0b5\"}]}",
        "{\"9003\":1,\"9001\":\"Lamp\",\"3311\":[7,{\"5850\":1,\"5706\":\"f1e0b5\"}]}",
    ] {
        assert_eq!(
            gateway.get_device_by_id(success(payload)),
            Err(GatewayError::MalformedDevice),
            "{}",
            payload
        );
    }
}

#[test]
fn a_state_is_pushed_as_the_json_text_of_the_payload() {
    let gateway = authenticated();
    let payload = json("{\"3311\":[{\"5850\":1,\"5706\":\"f5faf6\"}]}");
    let (endpoint, fields) = pairs(gateway.request_device_state(65537, &payload).unwrap());
    assert_eq!(endpoint, "coaps://192.168.1.10:5684/15001/65537");
    assert_eq!(
        fields,
        owned(&[
            ('m', "put"),
            ('u', "alice"),
            ('k', "abc123"),
            ('e', "{\"3311\":[{\"5706\":\"f5faf6\",\"5850\":1}]}")
        ])
    );
}

#[test]
fn a_pushed_state_is_done_on_any_success() {
    let gateway = authenticated();
    assert_eq!(gateway.set_device_state(success("{}")), Ok(()));
    assert_eq!(gateway.set_device_state(success("[1,2]")), Ok(()));
}

#[test]
fn errors_describe_themselves() {
    assert_eq!(GatewayError::NotAuthenticated.message(), "The session is not authenticated.");
    assert_eq!(GatewayError::Protocol("Bad request.".to_string()).message(), "Bad request.");
    assert_eq!(GatewayError::MissingKey.message(), "The answer holds no derived key.");
    assert_eq!(GatewayError::MalformedList.message(), "The device list is no array.");
    assert_eq!(GatewayError::MalformedDevice.message(), "The device is malformed.");
}

#[test]
fn a_cloned_session_keeps_its_key() {
    let gateway = authenticated();
    let copy = gateway.clone();
    assert_eq!(copy.user(), Some("alice"));
    assert_eq!(copy.preshared_key(), Some("abc123"));
    assert_eq!(copy.addr(), [192, 168, 1, 10]);
}
