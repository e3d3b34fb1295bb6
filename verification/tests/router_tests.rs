use bucket_gate::router::{
    STATUS_METHOD_NOT_ALLOWED, STATUS_MOVED_PERMANENTLY, STATUS_NOT_FOUND, STATUS_OK,
    STATUS_UNAUTHORIZED,
};
use bucket_gate::{
    answer_link, answer_now, answer_probe, route, Action, Config, Operation, Verb,
};

fn settings() -> Config {
    Config {
        bucket: "foo".into(),
        username: "foo".into(),
        password: "bar".into(),
    }
}

const VALID: &[u8] = b"Basic Zm9vOmJhcg==";

#[test]
fn status_codes_are_the_http_ones() {
    assert_eq!(STATUS_OK, 200);
    assert_eq!(STATUS_MOVED_PERMANENTLY, 301);
    assert_eq!(STATUS_UNAUTHORIZED, 401);
    assert_eq!(STATUS_NOT_FOUND, 404);
    assert_eq!(STATUS_METHOD_NOT_ALLOWED, 405);
}

#[test]
fn verbs_are_read_from_their_names() {
    assert_eq!(Verb::parse(b"GET"), Verb::Get);
    assert_eq!(Verb::parse(b"PUT"), Verb::Put);
    assert_eq!(Verb::parse(b"HEAD"), Verb::Head);
    assert_eq!(Verb::parse(b"DELETE"), Verb::Other);
    assert_eq!(Verb::parse(b"POST"), Verb::Other);
    assert_eq!(Verb::parse(b""), Verb::Other);
}

#[test]
fn verb_names_are_taken_as_written() {
    assert_eq!(Verb::parse(b"get"), Verb::Other);
    assert_eq!(Verb::parse(b"Put"), Verb::Other);
    assert_eq!(Verb::parse(b"HEAD "), Verb::Other);
    assert_eq!(Verb::parse(b"GE"), Verb::Other);
    assert_eq!(Verb::parse(b"GETS"), Verb::Other);
    assert_eq!(Verb::parse(b"PET"), Verb::Other);
    assert_eq!(Verb::parse(b"HEAP"), Verb::Other);
}

#[test]
fn request_without_header_is_dispatched_on_its_method() {
    assert_eq!(route(&settings(), Verb::Get, None), Action::Sign(Operation::Get));
    assert_eq!(route(&settings(), Verb::Put, None), Action::Sign(Operation::Put));
    assert_eq!(route(&settings(), Verb::Head, None), Action::Probe);
    assert_eq!(route(&settings(), Verb::Other, None), Action::Refuse);
}

#[test]
fn request_with_valid_header_is_denied() {
    assert_eq!(route(&settings(), Verb::Get, Some(VALID)), Action::Deny);
    assert_eq!(route(&settings(), Verb::Put, Some(VALID)), Action::Deny);
    assert_eq!(route(&settings(), Verb::Head, Some(VALID)), Action::Deny);
    assert_eq!(route(&settings(), Verb::Other, Some(VALID)), Action::Deny);
}

#[test]
fn request_with_invalid_header_passes_the_settings() {
    let invalid: [&[u8]; 4] = [b"test", b"Basic Zm9v", b"Basic !!!!", b"Basic Zm9vOmJheg=="];
    for header in invalid {
        assert_eq!(route(&settings(), Verb::Get, Some(header)), Action::Sign(Operation::Get));
        assert_eq!(route(&settings(), Verb::Put, Some(header)), Action::Sign(Operation::Put));
        assert_eq!(route(&settings(), Verb::Head, Some(header)), Action::Probe);
        assert_eq!(route(&settings(), Verb::Other, Some(header)), Action::Refuse);
    }
}

#[test]
fn delete_without_valid_header_is_not_allowed() {
    let action = route(&settings(), Verb::parse(b"DELETE"), None);
    let reply = answer_now(action).unwrap();
    assert_eq!(reply.status, 405);
    assert_eq!(reply.location, None);
}

#[test]
fn valid_header_is_answered_with_unauthorized() {
    let action = route(&settings(), Verb::parse(b"GET"), Some(VALID));
    let reply = answer_now(action).unwrap();
    assert_eq!(reply.status, 401);
    assert_eq!(reply.location, None);
}

#[test]
fn outside_work_has_no_reply_yet() {
    assert!(answer_now(Action::Sign(Operation::Get)).is_none());
    assert!(answer_now(Action::Sign(Operation::Put)).is_none());
    assert!(answer_now(Action::Probe).is_none());
}

#[test]
fn link_is_answered_with_a_redirect() {
    let reply = answer_link("https://s3.amazonaws.com/foo/bar?X-Amz-Expires=3600".to_string());
    assert_eq!(reply.status, 301);
    assert_eq!(
        reply.location,
        Some("https://s3.amazonaws.com/foo/bar?X-Amz-Expires=3600".to_string())
    );
}

#[test]
fn probe_is_answered_with_found_or_not() {
    let reply = answer_probe(true);
    assert_eq!(reply.status, 200);
    assert_eq!(reply.location, None);
    let reply = answer_probe(false);
    assert_eq!(reply.status, 404);
    assert_eq!(reply.location, None);
}
