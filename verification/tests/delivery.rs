use libpoly::errors::PolyRestError;
use libpoly::push::messages::transport_failure;
use libpoly::push::{MessageLevel, PushMessenger, PushType};

const CHALLENGE: &str = "Digest realm=\"x\", nonce=\"abc\", qop=\"auth\"";

fn messenger() -> PushMessenger {
    PushMessenger::new("u".to_string(), "p".to_string(), "https://192.168.1.9".to_string(), true)
}

#[test]
fn messenger_keeps_what_it_was_made_with() {
    let m = messenger();
    assert_eq!(m.username, "u");
    assert_eq!(m.password, "p");
    assert_eq!(m.url, "https://192.168.1.9");
    assert!(m.insecure);
    assert_eq!(m.timeout, None);
}

#[test]
fn timeout_is_carried_into_the_delivery() {
    let m = messenger().with_timeout(Some(5));
    assert_eq!(m.timeout, Some(5));
    assert_eq!(m.username, "u");
    assert_eq!(m.url, "https://192.168.1.9");
    let delivery = m.send(MessageLevel::Normal, "hi", PushType::HTML).unwrap();
    assert_eq!(delivery.timeout, Some(5));
    assert_eq!(m.with_timeout(None).timeout, None);
}

#[test]
fn delivery_answers_with_the_first_count() {
    let request = messenger()
        .send(MessageLevel::High, "hi", PushType::HTML)
        .unwrap()
        .authenticate(Some(CHALLENGE))
        .unwrap()
        .request();
    let answer = request.authorization.unwrap();
    assert!(answer.starts_with("Digest username=\"u\", realm=\"x\", nonce=\"abc\", uri=\"https://192.168.1.9/push\", qop=auth, nc=00000001, cnonce=\""));
    assert!(!answer.contains("\"p\""));
}

#[test]
fn probe_carries_the_document_without_credentials() {
    let delivery = messenger().send(MessageLevel::Critical, "<b>hi</b>", PushType::Command).unwrap();
    let probe = delivery.probe();
    assert!(delivery.insecure);
    assert_eq!(probe.url, "https://192.168.1.9/push");
    assert_eq!(probe.content_type, "application/x-www-form-urlencoded");
    assert_eq!(probe.authorization, None);
    assert_eq!(
        probe.body,
        "<PolycomIPPhone><Data priority=\"critical\"><b>hi</b></Data></PolycomIPPhone>"
    );
}

#[test]
fn missing_challenge_ends_the_delivery() {
    let delivery = messenger().send(MessageLevel::Critical, "hi", PushType::HTML).unwrap();
    assert!(matches!(delivery.authenticate(None), Err(PolyRestError::MissingChallengeError)));
}

#[test]
fn unreadable_challenge_ends_the_delivery() {
    let delivery = messenger().send(MessageLevel::Critical, "hi", PushType::HTML).unwrap();
    assert!(matches!(
        delivery.authenticate(Some("Basic")),
        Err(PolyRestError::ChallengeParseError)
    ));
}

#[test]
fn every_readable_challenge_is_answered() {
    for header in [
        "Digest realm=\"x\", nonce=\"abc\"",
        "Digest realm=\"x\", nonce=\"abc\", qop=\"auth\"",
        "Digest realm=\"x\", nonce=\"abc\", qop=\"auth-int\"",
        "Digest realm=\"x\", nonce=\"abc\", qop=\"auth, auth-int\", algorithm=MD5-sess",
        "realm=x, nonce=abc",
    ] {
        let delivery = messenger().send(MessageLevel::Critical, "hi", PushType::HTML).unwrap();
        assert!(delivery.authenticate(Some(header)).is_ok());
    }
}

#[test]
fn status_500_is_device_rejected() {
    let delivery = messenger().send(MessageLevel::Critical, "hi", PushType::HTML).unwrap();
    let authenticated = delivery.authenticate(Some(CHALLENGE)).unwrap();
    match authenticated.finish(500, "boom".to_string()) {
        Err(PolyRestError::DeviceRejectedError { status, body }) => {
            assert_eq!(status, 500);
            assert_eq!(body, "boom");
        }
        other => panic!("unexpected outcome: {:?}", other),
    }
}

#[test]
fn status_200_returns_the_body() {
    let delivery = messenger().send(MessageLevel::Critical, "hi", PushType::HTML).unwrap();
    let authenticated = delivery.authenticate(Some(CHALLENGE)).unwrap();
    assert_eq!(authenticated.finish(200, "OK".to_string()).unwrap(), "OK");
}

#[test]
fn only_2xx_is_accepted() {
    for status in [0u16, 100, 199, 300, 301, 401, 404, 503, 600, u16::MAX] {
        let delivery = messenger().send(MessageLevel::Normal, "hi", PushType::HTML).unwrap();
        let authenticated = delivery.authenticate(Some(CHALLENGE)).unwrap();
        assert!(matches!(
            authenticated.finish(status, String::new()),
            Err(PolyRestError::DeviceRejectedError { .. })
        ));
    }
    for status in [200u16, 201, 204, 299] {
        let delivery = messenger().send(MessageLevel::Normal, "hi", PushType::HTML).unwrap();
        let authenticated = delivery.authenticate(Some(CHALLENGE)).unwrap();
        assert_eq!(authenticated.finish(status, "done".to_string()).unwrap(), "done");
    }
}

#[test]
fn content_type_follows_the_kind() {
    let html = messenger()
        .send(MessageLevel::High, "Key:Home", PushType::HTML)
        .unwrap()
        .authenticate_with_cnonce(Some(CHALLENGE), "0a4f113b")
        .unwrap()
        .request();
    let command = messenger()
        .send(MessageLevel::High, "Key:Home", PushType::Command)
        .unwrap()
        .authenticate_with_cnonce(Some(CHALLENGE), "0a4f113b")
        .unwrap()
        .request();
    assert_eq!(html.content_type, "application/x-www-form-urlencoded");
    assert_eq!(command.content_type, "application/x-com-polycom-spipx");
    assert_eq!(html.body, command.body);
    assert_eq!(html.url, command.url);
    assert_eq!(html.authorization, command.authorization);
    assert_eq!(
        command.body,
        "<PolycomIPPhone><Data priority=\"high\">Key:Home</Data></PolycomIPPhone>"
    );
}

#[test]
fn authenticated_request_answers_for_the_endpoint() {
    let request = messenger()
        .send(MessageLevel::High, "hi", PushType::HTML)
        .unwrap()
        .authenticate_with_cnonce(Some(CHALLENGE), "0a4f113b")
        .unwrap()
        .request();
    let answer = request.authorization.unwrap();
    assert!(answer.starts_with("Digest username=\"u\", realm=\"x\", nonce=\"abc\", uri=\"https://192.168.1.9/push\", qop=auth, nc=00000001, cnonce=\"0a4f113b\", response=\""));
    assert_eq!(request.url, "https://192.168.1.9/push");
}

#[test]
fn transport_failure_keeps_the_reason() {
    match transport_failure("connection refused".to_string()) {
        PolyRestError::TransportError(reason) => assert_eq!(reason, "connection refused"),
        other => panic!("unexpected error: {:?}", other),
    }
}

#[test]
fn kinds_have_their_names() {
    assert_eq!(PushType::HTML.to_string(), "html");
    assert_eq!(PushType::Command.to_string(), "cmd");
    assert_eq!(PushType::value_variants(), vec![PushType::HTML, PushType::Command]);
    assert_eq!(
        MessageLevel::value_variants(),
        vec![
            MessageLevel::Critical,
            MessageLevel::High,
            MessageLevel::Important,
            MessageLevel::Normal
        ]
    );
}

#[test]
fn errors_describe_themselves() {
    assert_eq!(PolyRestError::EncodingError.to_string(), "error fixing XML output");
    assert_eq!(
        PolyRestError::TransportError("x".to_string()).to_string(),
        "error making HTTP request"
    );
    assert_eq!(
        PolyRestError::DeviceRejectedError { status: 500, body: String::new() }.to_string(),
        "error sending message"
    );
}
