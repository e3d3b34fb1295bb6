use bucket_gate::link::LINK_LIFETIME_SECS;
use bucket_gate::{build_link, get, link_for_path, put, Credentials, Endpoint, Operation};
use http::Uri;
use url::form_urlencoded;

fn temporary() -> Credentials {
    Credentials {
        access_key: "boom".into(),
        secret_key: "zoom".into(),
        session_token: None,
        expiration: None,
    }
}

fn query_value(link: &Uri, name: &str) -> Option<String> {
    form_urlencoded::parse(link.query().unwrap().as_bytes())
        .into_iter()
        .find(|(k, _)| k == name)
        .map(|(_, v)| v.into_owned())
}

#[test]
fn get_link() {
    let link: Uri = get(
        "foo".into(),
        "bar/car".into(),
        &Credentials {
            access_key: "boom".into(),
            secret_key: "zoom".into(),
            session_token: Default::default(),
            expiration: Default::default(),
        },
        &Endpoint::global(),
    ).parse()
        .unwrap();
    assert_eq!(Some("s3.amazonaws.com"), link.host());
    assert_eq!("/foo/bar/car", link.path());
    assert!(
        form_urlencoded::parse(link.query().unwrap().as_bytes())
            .into_iter()
            .any(|(k, _)| k.starts_with("X-Amz-"))
    );
}

#[test]
fn put_link() {
    let link: Uri = put(
        "foo".into(),
        "bar/car".into(),
        &Credentials {
            access_key: "boom".into(),
            secret_key: "zoom".into(),
            session_token: Default::default(),
            expiration: Default::default(),
        },
        &Endpoint::global(),
    ).parse()
        .unwrap();
    assert_eq!(Some("s3.amazonaws.com"), link.host());
    assert_eq!("/foo/bar/car", link.path());
    assert!(
        form_urlencoded::parse(link.query().unwrap().as_bytes())
            .into_iter()
            .any(|(k, _)| k.starts_with("X-Amz-"))
    );
}

#[test]
fn link_lifetime_is_one_hour() {
    assert_eq!(LINK_LIFETIME_SECS, 3600);
    let link: Uri = get("foo".into(), "bar".into(), &temporary(), &Endpoint::global()).parse().unwrap();
    assert_eq!(query_value(&link, "X-Amz-Expires"), Some("3600".to_string()));
    let link: Uri = put("foo".into(), "bar".into(), &temporary(), &Endpoint::global()).parse().unwrap();
    assert_eq!(query_value(&link, "X-Amz-Expires"), Some("3600".to_string()));
}

#[test]
fn link_carries_signature_parameters() {
    let link: Uri = get("foo".into(), "bar".into(), &temporary(), &Endpoint::global()).parse().unwrap();
    assert!(query_value(&link, "X-Amz-Signature").is_some());
    assert!(query_value(&link, "X-Amz-SignedHeaders").is_some());
    assert_eq!(query_value(&link, "X-Amz-Algorithm"), Some("AWS4-HMAC-SHA256".to_string()));
    let scope = query_value(&link, "X-Amz-Credential").unwrap();
    assert!(scope.starts_with("boom/"));
    assert!(scope.ends_with("/s3/aws4_request"));
    assert_eq!(query_value(&link, "X-Amz-Security-Token"), None);
}

#[test]
fn link_carries_session_token() {
    let credentials = Credentials {
        access_key: "boom".into(),
        secret_key: "zoom".into(),
        session_token: Some("doom".into()),
        expiration: Some(4102444800),
    };
    let link: Uri = put("foo".into(), "bar".into(), &credentials, &Endpoint::global()).parse().unwrap();
    assert_eq!(query_value(&link, "X-Amz-Security-Token"), Some("doom".to_string()));
}

#[test]
fn build_link_serves_both_operations() {
    let read: Uri = build_link(Operation::Get, "foo".into(), "bar/car".into(), &temporary(), &Endpoint::global())
        .parse()
        .unwrap();
    let write: Uri = build_link(Operation::Put, "foo".into(), "bar/car".into(), &temporary(), &Endpoint::global())
        .parse()
        .unwrap();
    assert_eq!("/foo/bar/car", read.path());
    assert_eq!("/foo/bar/car", write.path());
    assert_eq!(Some("s3.amazonaws.com"), read.host());
    assert_eq!(Some("s3.amazonaws.com"), write.host());
    assert_ne!(
        query_value(&read, "X-Amz-Signature"),
        query_value(&write, "X-Amz-Signature")
    );
}

#[test]
fn link_for_path_signs_the_normalized_key() {
    let (object, url) = link_for_path(Operation::Get, "foo".into(), "/bar/car", &temporary(), &Endpoint::global());
    assert_eq!(object, "bar/car");
    let link: Uri = url.parse().unwrap();
    assert_eq!("/foo/bar/car", link.path());
    let (object, url) = link_for_path(Operation::Put, "foo".into(), "bar/car", &temporary(), &Endpoint::global());
    assert_eq!(object, "bar/car");
    let link: Uri = url.parse().unwrap();
    assert_eq!("/foo/bar/car", link.path());
}

#[test]
fn link_is_an_https_url_in_three_parts() {
    for url in [
        get("foo".into(), "bar/car".into(), &temporary(), &Endpoint::global()),
        put("foo".into(), "bar/car".into(), &temporary(), &Endpoint::global()),
    ] {
        let rest = url.strip_prefix("https://").unwrap();
        let slash = rest.find('/').unwrap();
        let mark = rest.find('?').unwrap();
        assert!(0 < slash && slash < mark);
        assert_eq!(&rest[..slash], "s3.amazonaws.com");
        assert_eq!(&rest[slash..mark], "/foo/bar/car");
        assert!(!rest[mark + 1..].is_empty());
    }
}

#[test]
fn link_gives_its_validity_as_a_whole_parameter() {
    for url in [
        get("foo".into(), "bar".into(), &temporary(), &Endpoint::global()),
        put("foo".into(), "bar".into(), &temporary(), &Endpoint::global()),
        build_link(Operation::Get, "foo".into(), "bar".into(), &temporary(), &Endpoint::global()),
        build_link(Operation::Put, "foo".into(), "bar".into(), &temporary(), &Endpoint::global()),
    ] {
        let query = url.split_once('?').unwrap().1;
        assert_eq!(query.split('&').filter(|p| *p == "X-Amz-Expires=3600").count(), 1);
        for name in ["X-Amz-Signature=", "X-Amz-SignedHeaders=", "X-Amz-Credential="] {
            assert_eq!(query.split('&').filter(|p| p.starts_with(name)).count(), 1);
        }
    }
}

#[test]
fn link_path_keeps_plain_text_as_it_is() {
    let link: Uri = get("my-bucket.v1".into(), "A_b/c~d/0.9/".into(), &temporary(), &Endpoint::global())
        .parse()
        .unwrap();
    assert_eq!("/my-bucket.v1/A_b/c~d/0.9/", link.path());
    let link: Uri = put("foo".into(), "".into(), &temporary(), &Endpoint::global()).parse().unwrap();
    assert_eq!("/foo/", link.path());
}

#[test]
fn link_path_encodes_what_is_not_plain() {
    let url = get("foo".into(), "a b?c&d/\u{e9}".into(), &temporary(), &Endpoint::global());
    let rest = url.strip_prefix("https://s3.amazonaws.com").unwrap();
    let (path, query) = rest.split_once('?').unwrap();
    assert_eq!(path, "/foo/a%20b%3Fc%26d/%C3%A9");
    assert_eq!(query.split('&').filter(|p| *p == "X-Amz-Expires=3600").count(), 1);
}

fn raw_value(url: &str, name: &str) -> Option<String> {
    let query = url.split_once('?').unwrap().1;
    let mut found = query
        .split('&')
        .filter_map(|p| p.split_once('='))
        .filter(|(k, _)| *k == name)
        .map(|(_, v)| v.to_string());
    let first = found.next();
    assert!(found.next().is_none());
    first
}

#[test]
fn default_endpoint_is_the_global_one() {
    let endpoint = Endpoint::global();
    assert_eq!(endpoint.region, "us-east-1");
    assert_eq!(endpoint.host, "s3.amazonaws.com");
}

#[test]
fn link_shows_the_access_key_and_not_the_secret() {
    let url = get("foo".into(), "bar/car".into(), &temporary(), &Endpoint::global());
    assert!(!url.contains("zoom") && url.contains("boom"));
    let url = put("foo".into(), "bar/car".into(), &temporary(), &Endpoint::global());
    assert!(!url.contains("zoom") && url.contains("boom"));
}

#[test]
fn link_scope_begins_with_the_key_and_ends_with_the_region() {
    for url in [
        get("foo".into(), "bar".into(), &temporary(), &Endpoint::global()),
        put("foo".into(), "bar".into(), &temporary(), &Endpoint::global()),
    ] {
        let scope = raw_value(&url, "X-Amz-Credential").unwrap();
        assert!(scope.starts_with("boom%2F"));
        assert!(scope.ends_with("%2Fus-east-1%2Fs3%2Faws4_request"));
        let date = &scope["boom%2F".len()..scope.len() - "%2Fus-east-1%2Fs3%2Faws4_request".len()];
        assert_eq!(date.len(), 8);
        assert!(date.chars().all(|c| c.is_ascii_digit()));
    }
}

#[test]
fn link_names_a_token_exactly_when_there_is_one() {
    let mut credentials = temporary();
    for operation in [Operation::Get, Operation::Put] {
        credentials.session_token = None;
        let url = build_link(operation, "foo".into(), "bar".into(), &credentials, &Endpoint::global());
        assert_eq!(raw_value(&url, "X-Amz-Security-Token"), None);
        credentials.session_token = Some("doom".into());
        let url = build_link(operation, "foo".into(), "bar".into(), &credentials, &Endpoint::global());
        assert!(raw_value(&url, "X-Amz-Security-Token").is_some());
    }
}

#[test]
fn link_points_at_the_endpoint_it_is_given() {
    let endpoint = Endpoint {
        region: "eu-west-1".into(),
        host: "s3-eu-west-1.amazonaws.com".into(),
    };
    for url in [
        get("foo".into(), "bar/car".into(), &temporary(), &endpoint),
        put("foo".into(), "bar/car".into(), &temporary(), &endpoint),
    ] {
        assert!(url.starts_with("https://s3-eu-west-1.amazonaws.com/foo/bar/car?"));
        let scope = raw_value(&url, "X-Amz-Credential").unwrap();
        assert!(scope.starts_with("boom%2F"));
        assert!(scope.ends_with("%2Feu-west-1%2Fs3%2Faws4_request"));
        assert_eq!(raw_value(&url, "X-Amz-Expires"), Some("3600".to_string()));
    }
}

#[test]
fn link_is_signed_without_reading_the_environment() {
    let first = Endpoint { region: "ap-south-1".into(), host: "s3-ap-south-1.amazonaws.com".into() };
    let (object, url) = link_for_path(Operation::Get, "foo".into(), "/a/b", &temporary(), &first);
    assert_eq!(object, "a/b");
    assert!(url.starts_with("https://s3-ap-south-1.amazonaws.com/foo/a/b?"));
    let (_, url) = link_for_path(Operation::Get, "foo".into(), "/a/b", &temporary(), &Endpoint::global());
    assert!(url.starts_with("https://s3.amazonaws.com/foo/a/b?"));
}
