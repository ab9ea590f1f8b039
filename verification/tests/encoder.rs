use coap_gateway::coap::{CoapClient, Method, RequestOptions};

fn owned(pairs: &[(char, &str)]) -> Vec<(char, String)> {
    pairs.iter().map(|(flag, value)| (*flag, value.to_string())).collect()
}

fn with_fields(method: bool, user: bool, key: bool, payload: bool) -> RequestOptions {
    let mut options = RequestOptions::build();
    // Set in an order that is not the order of the flags.
    if payload {
        options = options.payload("{}");
    }
    if key {
        options = options.key("secret");
    }
    if user {
        options = options.user("alice");
    }
    if method {
        options = options.method(Method::PUT);
    }
    options
}

#[test]
fn build_yields_nothing() {
    let mut options = RequestOptions::build();
    assert_eq!(options.next(), None);
    assert_eq!(options.drain(), Vec::new());
}

#[test]
fn new_sets_all_four_fields() {
    let mut options = RequestOptions::new("post", "Client_identity", "code", "{\"9090\":\"bob\"}");
    assert_eq!(
        options.drain(),
        owned(&[('m', "post"), ('u', "Client_identity"), ('k', "code"), ('e', "{\"9090\":\"bob\"}")])
    );
}

#[test]
fn methods_are_lower_case_words() {
    assert_eq!(Method::GET.as_str(), "get");
    assert_eq!(Method::POST.as_str(), "post");
    assert_eq!(Method::PUT.as_str(), "put");
    assert_eq!(RequestOptions::build().method(Method::GET).drain(), owned(&[('m', "get")]));
    assert_eq!(RequestOptions::build().method(Method::POST).drain(), owned(&[('m', "post")]));
    assert_eq!(RequestOptions::build().method(Method::PUT).drain(), owned(&[('m', "put")]));
}

#[test]
fn every_subset_comes_out_in_the_fixed_order() {
    for bits in 0u8..16 {
        let (method, user, key, payload) =
            (bits & 1 != 0, bits & 2 != 0, bits & 4 != 0, bits & 8 != 0);
        let mut expected = Vec::new();
        if method {
            expected.push(('m', "put".to_string()));
        }
        if user {
            expected.push(('u', "alice".to_string()));
        }
        if key {
            expected.push(('k', "secret".to_string()));
        }
        if payload {
            expected.push(('e', "{}".to_string()));
        }
        let mut options = with_fields(method, user, key, payload);
        assert_eq!(options.drain(), expected);
    }
}

#[test]
fn second_pass_yields_nothing() {
    for bits in 0u8..16 {
        let mut options = with_fields(bits & 1 != 0, bits & 2 != 0, bits & 4 != 0, bits & 8 != 0);
        options.drain();
        assert_eq!(options.drain(), Vec::new());
        assert_eq!(options.next(), None);
    }
}

#[test]
fn next_hands_out_each_pair_once() {
    let mut options = RequestOptions::build().key("k1").method(Method::GET);
    assert_eq!(options.next(), Some(('m', "get".to_string())));
    assert_eq!(options.next(), Some(('k', "k1".to_string())));
    assert_eq!(options.next(), None);
    assert_eq!(options.next(), None);
}

#[test]
fn next_then_drain_gives_the_rest() {
    let mut options = RequestOptions::new("get", "u", "k", "p");
    assert_eq!(options.next(), Some(('m', "get".to_string())));
    assert_eq!(options.drain(), owned(&[('u', "u"), ('k', "k"), ('e', "p")]));
}

#[test]
fn setting_a_field_again_replaces_it() {
    let mut options = RequestOptions::build().user("first").user("second").payload("a").payload("");
    assert_eq!(options.drain(), owned(&[('u', "second"), ('e', "")]));
}

#[test]
fn setting_a_field_leaves_the_others() {
    let mut options = RequestOptions::new("get", "u", "k", "p").key("other");
    assert_eq!(options.drain(), owned(&[('m', "get"), ('u', "u"), ('k', "other"), ('e', "p")]));
}

#[test]
fn arguments_are_flags_values_and_the_endpoint() {
    let options = RequestOptions::build().method(Method::GET).user("alice").key("secret");
    assert_eq!(
        CoapClient::arguments("coaps://10.0.0.2:5684/15001", options),
        vec!["-m", "get", "-u", "alice", "-k", "secret", "coaps://10.0.0.2:5684/15001"]
    );
}

#[test]
fn arguments_carry_the_payload_last_of_the_fields() {
    let options = RequestOptions::new("put", "alice", "secret", "{\"x\":1}");
    assert_eq!(
        CoapClient::arguments("coaps://h/p", options),
        vec!["-m", "put", "-u", "alice", "-k", "secret", "-e", "{\"x\":1}", "coaps://h/p"]
    );
}

#[test]
fn arguments_of_no_fields_are_the_endpoint_alone() {
    assert_eq!(CoapClient::arguments("coaps://h/p", RequestOptions::build()), vec!["coaps://h/p"]);
}
