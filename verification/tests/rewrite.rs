use minknow_client::{ChannelError, Endpoint, RequestUri, rewrite_uri};

fn base() -> Endpoint {
    Endpoint::new("https".to_string(), "localhost".to_string(), 9502)
}

#[test]
fn rewrite_targets_base_and_preserves_path() {
    let inbound = RequestUri {
        scheme: Some("http".to_string()),
        authority: Some("ignored:1".to_string()),
        path_and_query: Some("/minknow_api.manager.ManagerService/DescribeHost".to_string()),
    };
    let target = rewrite_uri(&base(), &inbound).unwrap();
    assert_eq!(target.scheme, "https");
    assert_eq!(target.host, "localhost");
    assert_eq!(target.port, 9502);
    assert_eq!(target.authority(), "localhost:9502");
    assert_eq!(
        target.path_and_query,
        "/minknow_api.manager.ManagerService/DescribeHost"
    );
}

#[test]
fn authorities_and_ports_render_in_decimal() {
    assert_eq!(base().authority(), "localhost:9502");
    assert_eq!(minknow_client::decimal_string(0), "0");
    assert_eq!(minknow_client::decimal_string(8001), "8001");
    assert_eq!(minknow_client::decimal_string(u32::MAX), "4294967295");
    assert_eq!(
        minknow_client::authority_string(&"10.0.0.5".to_string(), 8001),
        "10.0.0.5:8001"
    );
}

#[test]
fn rewrite_overrides_any_inbound_authority() {
    let inbound = RequestUri {
        scheme: Some("https".to_string()),
        authority: Some("other-host:4444".to_string()),
        path_and_query: Some("/path?query=1".to_string()),
    };
    let target = rewrite_uri(&base(), &inbound).unwrap();
    assert_eq!(target.host, "localhost");
    assert_eq!(target.port, 9502);
    assert_eq!(target.path_and_query, "/path?query=1");
}

#[test]
fn rewrite_without_path_fails_with_rewrite_error() {
    let inbound = RequestUri {
        scheme: Some("http".to_string()),
        authority: Some("ignored:1".to_string()),
        path_and_query: None,
    };
    let r = rewrite_uri(&base(), &inbound);
    assert_eq!(r.unwrap_err(), ChannelError::RequestRewriteError);
}
