use libpoly::errors::PolyRestError;
use libpoly::polyrest::mgmt::{ConfigResponseValue, PolyWrapper};
use libpoly::polyrest::{PolyRest, RestMethod};

fn handler() -> PolyRest {
    PolyRest::new("Polycom".to_string(), "789".to_string(), "https://192.168.1.9".to_string(), true)
}

#[test]
fn handler_keeps_what_it_was_made_with() {
    let h = handler();
    assert_eq!(h.username, "Polycom");
    assert_eq!(h.password, "789");
    assert_eq!(h.url, "https://192.168.1.9");
    assert!(h.insecure);
}

#[test]
fn info_requests_are_gets_with_credentials() {
    let h = handler();
    let cases = [
        (h.device_info(), "https://192.168.1.9/api/v1/mgmt/device/info"),
        (h.network_info(), "https://192.168.1.9/api/v1/mgmt/network/info"),
        (h.network_stats(), "https://192.168.1.9/api/v1/mgmt/network/stats"),
    ];
    for (request, url) in cases {
        assert_eq!(request.method, RestMethod::Get);
        assert_eq!(request.url, url);
        assert_eq!(request.username, "Polycom");
        assert_eq!(request.password, "789");
        assert_eq!(request.body, None);
        assert!(request.insecure);
    }
}

#[test]
fn config_set_wraps_key_and_value() {
    let request = handler().config_set("device.set", "1").unwrap();
    assert_eq!(request.method, RestMethod::Post);
    assert_eq!(request.url, "https://192.168.1.9/api/v1/mgmt/config/set");
    assert_eq!(request.body.unwrap(), "{\"data\":{\"device.set\":\"1\"}}");
}

#[test]
fn config_get_lists_the_parameter() {
    let request = handler().config_get("device.set").unwrap();
    assert_eq!(request.method, RestMethod::Post);
    assert_eq!(request.url, "https://192.168.1.9/api/v1/mgmt/config/get");
    assert_eq!(request.body.unwrap(), "{\"data\":[\"device.set\"]}");
}

#[test]
fn json_strings_are_escaped() {
    let request = handler().config_set("a\"b\\c", "line\nbreak\ttab\u{1}\u{1f}\u{8}\u{c}\rü").unwrap();
    assert_eq!(
        request.body.unwrap(),
        "{\"data\":{\"a\\\"b\\\\c\":\"line\\nbreak\\ttab\\u0001\\u001f\\b\\f\\rü\"}}"
    );
}

#[test]
fn config_bodies_are_json() {
    let body = handler().config_set("k\"", "v\n").unwrap().body.unwrap();
    let value: serde_json::Value = serde_json::from_str(&body).unwrap();
    assert_eq!(value["data"]["k\""], "v\n");
    let body = handler().config_get("x\\y").unwrap().body.unwrap();
    let value: serde_json::Value = serde_json::from_str(&body).unwrap();
    assert_eq!(value["data"][0], "x\\y");
}

#[test]
fn raw_get_goes_to_the_given_path() {
    let request = handler().raw_get("http://h/x".to_string());
    assert_eq!(request.method, RestMethod::Get);
    assert_eq!(request.url, "http://h/x");
    assert_eq!(request.body, None);
}

#[test]
fn client_and_server_errors_are_refused() {
    for status in [400u16, 401, 404, 499, 500, 503, 599] {
        match PolyRest::accept(status, "no".to_string()) {
            Err(PolyRestError::DeviceRejectedError { status: s, body }) => {
                assert_eq!(s, status);
                assert_eq!(body, "no");
            }
            other => panic!("unexpected outcome: {:?}", other),
        }
    }
    for status in [100u16, 200, 204, 301, 399, 600] {
        assert_eq!(PolyRest::accept(status, "yes".to_string()).unwrap(), "yes");
    }
}

#[test]
fn it_works() {
    let handler = PolyRest::new(
        "Polycom".to_string(),
        "789".to_string(),
        "https://192.168.1.9".to_string(),
        true,
    );

    let resp = handler.device_info();

    println!("got: {:?}", resp);
    assert_eq!(resp.url, "https://192.168.1.9/api/v1/mgmt/device/info");
}

#[test]
fn envelope_gives_up_its_data() {
    let wrapped = PolyWrapper {
        status: Some("2000".to_string()),
        data: ConfigResponseValue { value: "1".to_string(), source: "web".to_string() },
    };
    let data = wrapped.into_data();
    assert_eq!(data.value, "1");
    assert_eq!(data.source, "web");
}

#[test]
fn config_requests_are_always_made() {
    for text in ["", "k", "a\"b", "\u{0}\u{1f}", "ü\\"] {
        assert!(handler().config_get(text).is_ok());
        assert!(handler().config_set(text, text).is_ok());
    }
    let request = handler().config_set("k", "v").unwrap();
    assert_eq!(request.body.unwrap(), "{\"data\":{\"k\":\"v\"}}");
    assert_eq!(request.username, "Polycom");
    assert_eq!(request.password, "789");
    let request = handler().config_get("k").unwrap();
    assert_eq!(request.body.unwrap(), "{\"data\":[\"k\"]}");
}
