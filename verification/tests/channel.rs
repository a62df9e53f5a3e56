use minknow_client::{
    ChannelError, Endpoint, FlowCellPosition, FlowCellPositionInfo, Header, MinKNOWChannel,
    RequestUri, RpcPorts, RpcRequest,
};
use openssl::asn1::{Asn1Integer, Asn1Time};
use openssl::bn::BigNum;
use openssl::hash::MessageDigest;
use openssl::pkey::PKey;
use openssl::rsa::Rsa;
use openssl::x509::{X509Builder, X509NameBuilder};

fn self_signed_cert_pem() -> Vec<u8> {
    let rsa = Rsa::generate(2048).unwrap();
    let key = PKey::from_rsa(rsa).unwrap();
    let mut name = X509NameBuilder::new().unwrap();
    name.append_entry_by_text("CN", "localhost").unwrap();
    let name = name.build();
    let mut builder = X509Builder::new().unwrap();
    builder.set_version(2).unwrap();
    let serial = Asn1Integer::from_bn(&BigNum::from_u32(1).unwrap()).unwrap();
    builder.set_serial_number(&serial).unwrap();
    builder.set_subject_name(&name).unwrap();
    builder.set_issuer_name(&name).unwrap();
    builder.set_pubkey(&key).unwrap();
    builder
        .set_not_before(&Asn1Time::days_from_now(0).unwrap())
        .unwrap();
    builder
        .set_not_after(&Asn1Time::days_from_now(7).unwrap())
        .unwrap();
    builder.sign(&key, MessageDigest::sha256()).unwrap();
    builder.build().to_pem().unwrap()
}

fn manager_endpoint() -> Endpoint {
    Endpoint::new("https".to_string(), "localhost".to_string(), 9502)
}

fn placeholder_request() -> RpcRequest {
    RpcRequest {
        uri: RequestUri {
            scheme: Some("http".to_string()),
            authority: Some("ignored:1".to_string()),
            path_and_query: Some(
                "/minknow_api.manager.ManagerService/DescribeHost".to_string(),
            ),
        },
        headers: vec![Header {
            name: "content-type".to_string(),
            value: "application/grpc".to_string(),
        }],
    }
}

#[test]
fn invalid_pem_fails_with_certificate_error() {
    let r = MinKNOWChannel::new(b"not a certificate".to_vec(), manager_endpoint());
    assert!(matches!(r, Err(ChannelError::CertificateError)));
}

#[test]
fn empty_pem_fails_with_certificate_error() {
    let r = MinKNOWChannel::new(Vec::new(), manager_endpoint());
    assert!(matches!(r, Err(ChannelError::CertificateError)));
}

#[test]
fn valid_cert_builds_channel_with_no_token() {
    let pem = self_signed_cert_pem();
    let channel = MinKNOWChannel::new(pem.clone(), manager_endpoint()).unwrap();
    assert_eq!(channel.current_token(), &None::<String>);
    assert_eq!(channel.certificate, pem);
    let endpoint = channel.base_endpoint();
    assert_eq!(endpoint.scheme, "https");
    assert_eq!(endpoint.host, "localhost");
    assert_eq!(endpoint.port, 9502);
}

#[test]
fn ready_is_immediate() {
    let channel = MinKNOWChannel::new(self_signed_cert_pem(), manager_endpoint()).unwrap();
    assert!(channel.ready());
}

#[test]
fn end_to_end_placeholder_uri_is_rewritten_to_base() {
    let channel = MinKNOWChannel::new(self_signed_cert_pem(), manager_endpoint()).unwrap();
    let outbound = channel.prepare_request(placeholder_request()).unwrap();
    assert_eq!(outbound.uri.scheme, "https");
    assert_eq!(outbound.uri.host, "localhost");
    assert_eq!(outbound.uri.port, 9502);
    assert_eq!(
        outbound.uri.path_and_query,
        "/minknow_api.manager.ManagerService/DescribeHost"
    );
    assert!(outbound.headers.iter().all(|h| h.name != "protocol-auth"));
}

#[test]
fn set_token_attaches_header_on_later_requests() {
    let mut channel = MinKNOWChannel::new(self_signed_cert_pem(), manager_endpoint()).unwrap();

    let before = channel.prepare_request(placeholder_request()).unwrap();
    assert!(before.headers.iter().all(|h| h.name != "protocol-auth"));

    channel.set_token("first-token".to_string());
    let with_first = channel.prepare_request(placeholder_request()).unwrap();
    let auth: Vec<&Header> = with_first
        .headers
        .iter()
        .filter(|h| h.name == "protocol-auth")
        .collect();
    assert_eq!(auth.len(), 1);
    assert_eq!(auth[0].value, "first-token");

    channel.set_token("second-token".to_string());
    let with_second = channel.prepare_request(placeholder_request()).unwrap();
    let auth: Vec<&Header> = with_second
        .headers
        .iter()
        .filter(|h| h.name == "protocol-auth")
        .collect();
    assert_eq!(auth.len(), 1);
    assert_eq!(auth[0].value, "second-token");
}

#[test]
fn prepare_without_path_fails_that_call_and_channel_stays_usable() {
    let channel = MinKNOWChannel::new(self_signed_cert_pem(), manager_endpoint()).unwrap();
    let bad = RpcRequest {
        uri: RequestUri { scheme: None, authority: None, path_and_query: None },
        headers: Vec::new(),
    };
    let r = channel.prepare_request(bad);
    assert!(matches!(r, Err(ChannelError::RequestRewriteError)));
    assert!(channel.prepare_request(placeholder_request()).is_ok());
}

#[test]
fn mutating_a_clone_does_not_change_the_original() {
    let mut original =
        MinKNOWChannel::new(self_signed_cert_pem(), manager_endpoint()).unwrap();
    original.set_token("original-token".to_string());

    let already_forwarded = original.prepare_request(placeholder_request()).unwrap();

    let mut clone = original.clone();
    clone.set_token("clone-token".to_string());

    let auth_value = |headers: &Vec<Header>| -> String {
        headers
            .iter()
            .find(|h| h.name == "protocol-auth")
            .map(|h| h.value.clone())
            .unwrap()
    };

    assert_eq!(auth_value(&already_forwarded.headers), "original-token");
    let from_original = original.prepare_request(placeholder_request()).unwrap();
    assert_eq!(auth_value(&from_original.headers), "original-token");
    let from_clone = clone.prepare_request(placeholder_request()).unwrap();
    assert_eq!(auth_value(&from_clone.headers), "clone-token");
}

#[test]
fn call_forwards_a_real_request() {
    let channel = MinKNOWChannel::new(self_signed_cert_pem(), manager_endpoint()).unwrap();
    let request = hyper::Request::builder()
        .uri("http://ignored:1/minknow_api.manager.ManagerService/DescribeHost")
        .body(tonic::body::empty_body())
        .unwrap();
    let r = channel.call(request);
    assert!(r.is_ok());
}

#[test]
fn call_without_a_path_fails_that_call_only() {
    let channel = MinKNOWChannel::new(self_signed_cert_pem(), manager_endpoint()).unwrap();
    let request = hyper::Request::builder()
        .uri("ignored:1")
        .body(tonic::body::empty_body())
        .unwrap();
    let r = channel.call(request);
    assert!(matches!(r, Err(ChannelError::RequestRewriteError)));

    let request = hyper::Request::builder()
        .uri("http://ignored:1/minknow_api.manager.ManagerService/DescribeHost")
        .body(tonic::body::empty_body())
        .unwrap();
    assert!(channel.call(request).is_ok());
}

#[test]
fn call_with_unusable_token_fails_that_call_only() {
    let mut channel = MinKNOWChannel::new(self_signed_cert_pem(), manager_endpoint()).unwrap();
    channel.set_token("bad\ntoken".to_string());
    let request = hyper::Request::builder()
        .uri("http://ignored:1/minknow_api.manager.ManagerService/DescribeHost")
        .body(tonic::body::empty_body())
        .unwrap();
    let r = channel.call(request);
    assert!(matches!(r, Err(ChannelError::RequestRewriteError)));

    channel.set_token("good-token".to_string());
    let request = hyper::Request::builder()
        .uri("http://ignored:1/minknow_api.manager.ManagerService/DescribeHost")
        .body(tonic::body::empty_body())
        .unwrap();
    assert!(channel.call(request).is_ok());
}

#[test]
fn derived_channel_targets_the_descriptor_endpoint() {
    let position = FlowCellPosition::new(
        "10.0.0.5".to_string(),
        Some("inherited-token".to_string()),
        FlowCellPositionInfo {
            name: "MN12345".to_string(),
            state: 1,
            rpc_ports: Some(RpcPorts { secure: 8001 }),
        },
    );
    let channel = position.channel(self_signed_cert_pem()).unwrap();
    let endpoint = channel.base_endpoint();
    assert_eq!(endpoint.scheme, "https");
    assert_eq!(endpoint.host, "10.0.0.5");
    assert_eq!(endpoint.port, 8001);
    assert_eq!(endpoint.authority(), "10.0.0.5:8001");
    assert_eq!(
        channel.current_token(),
        &Some("inherited-token".to_string())
    );
}

#[test]
fn derived_channel_without_token_has_none() {
    let position = FlowCellPosition::new(
        "10.0.0.5".to_string(),
        None,
        FlowCellPositionInfo {
            name: "MN12345".to_string(),
            state: 1,
            rpc_ports: Some(RpcPorts { secure: 8001 }),
        },
    );
    let channel = position.channel(self_signed_cert_pem()).unwrap();
    assert_eq!(channel.current_token(), &None::<String>);
}

#[test]
fn derivation_with_invalid_pem_fails_with_certificate_error() {
    let position = FlowCellPosition::new(
        "10.0.0.5".to_string(),
        None,
        FlowCellPositionInfo {
            name: "MN12345".to_string(),
            state: 1,
            rpc_ports: Some(RpcPorts { secure: 8001 }),
        },
    );
    let r = position.channel(b"garbage".to_vec());
    assert!(matches!(r, Err(ChannelError::CertificateError)));
}

#[test]
fn alpn_identifier_is_the_wire_format_h2() {
    assert_eq!(minknow_client::alpn_h2_wire(), vec![2u8, 104u8, 50u8]);
    assert_eq!(minknow_client::alpn_h2_wire(), tonic_openssl::ALPN_H2_WIRE.to_vec());
}
