use minknow_client::{Header, apply_auth_header};

fn header(name: &str, value: &str) -> Header {
    Header { name: name.to_string(), value: value.to_string() }
}

#[test]
fn no_token_leaves_headers_untouched() {
    let headers = vec![header("content-type", "application/grpc"), header("te", "trailers")];
    let out = apply_auth_header(headers, &None);
    assert_eq!(out.len(), 2);
    assert_eq!(out[0].name, "content-type");
    assert_eq!(out[0].value, "application/grpc");
    assert_eq!(out[1].name, "te");
    assert_eq!(out[1].value, "trailers");
    assert!(out.iter().all(|h| h.name != "protocol-auth"));
}

#[test]
fn token_appends_auth_header() {
    let headers = vec![header("content-type", "application/grpc")];
    let out = apply_auth_header(headers, &Some("session-token".to_string()));
    assert_eq!(out.len(), 2);
    assert_eq!(out[0].name, "content-type");
    assert_eq!(out[1].name, "protocol-auth");
    assert_eq!(out[1].value, "session-token");
}

#[test]
fn token_overwrites_existing_auth_header() {
    let headers = vec![
        header("protocol-auth", "stale-token"),
        header("content-type", "application/grpc"),
        header("protocol-auth", "staler-token"),
    ];
    let out = apply_auth_header(headers, &Some("fresh-token".to_string()));
    assert_eq!(out.len(), 2);
    assert_eq!(out[0].name, "content-type");
    assert_eq!(out[1].name, "protocol-auth");
    assert_eq!(out[1].value, "fresh-token");
    assert_eq!(
        out.iter().filter(|h| h.name == "protocol-auth").count(),
        1
    );
}

#[test]
fn empty_headers_with_token_carry_exactly_the_auth_header() {
    let out = apply_auth_header(Vec::new(), &Some("tok".to_string()));
    assert_eq!(out.len(), 1);
    assert_eq!(out[0].name, "protocol-auth");
    assert_eq!(out[0].value, "tok");
}
