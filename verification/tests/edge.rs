use http::{HeaderMap, HeaderValue};
use sui_proxy::config::{BackendConfig, Listener, PeerConfig, ProxyConfig, TlsConfig};
use sui_proxy::edge::{read_transaction_type, HealthCheckApp, TransactionType, LB};

fn peer(address: &str) -> PeerConfig {
    PeerConfig {
        address: address.to_string(),
        use_tls: true,
        sni: "sni".to_string(),
    }
}

fn lb() -> LB {
    LB::new(peer("read:443"), peer("execute:443"))
}

fn headers(values: &[&[u8]]) -> HeaderMap<HeaderValue> {
    let mut headers = HeaderMap::new();
    for value in values {
        headers.append(
            "sui-transaction-type",
            HeaderValue::from_bytes(value).unwrap(),
        );
    }
    headers
}

fn config(tls: Option<TlsConfig>) -> ProxyConfig {
    ProxyConfig {
        listen_address: "0.0.0.0:443".to_string(),
        metrics_address: None,
        backends: BackendConfig {
            read_nodes: vec![],
            execution_nodes: vec![],
        },
        chain_identifier: "4btiuiMPvEENsttpZC7CZ53DruC3MAgfznDbASZ7DR6S".to_string(),
        tls,
        local_override: false,
        custom_peer: peer("custom:443"),
        default_peer: peer("default:443"),
    }
}

#[test]
fn execution_goes_to_the_execution_peer() {
    let lb = lb();
    let chosen = lb.upstream_peer(&headers(&[b"execute"]));
    assert_eq!(chosen.address, "execute:443");
    assert!(chosen.use_tls);
    assert_eq!(chosen.sni, "sni");
}

#[test]
fn everything_else_goes_to_the_read_peer() {
    let lb = lb();
    for values in [
        &[][..],
        &[&b"read"[..]][..],
        &[&b"Execute"[..]][..],
        &[&b"execute "[..]][..],
        &[&b"execut"[..]][..],
        &[&b""[..]][..],
        &[&b"execut\xe9"[..]][..],
    ] {
        assert_eq!(lb.upstream_peer(&headers(values)).address, "read:443");
    }
}

#[test]
fn first_value_of_the_header_counts() {
    let lb = lb();
    assert_eq!(
        lb.upstream_peer(&headers(&[b"execute", b"read"])).address,
        "execute:443"
    );
    assert_eq!(
        lb.upstream_peer(&headers(&[b"read", b"execute"])).address,
        "read:443"
    );
}

#[test]
fn other_headers_do_not_count() {
    let mut other = HeaderMap::new();
    other.insert("transaction-type", HeaderValue::from_static("execute"));
    assert_eq!(lb().upstream_peer(&other).address, "read:443");
    assert_eq!(LB::request_type(&other), TransactionType::Absent);
}

#[test]
fn kinds_of_transaction() {
    assert_eq!(read_transaction_type(None), TransactionType::Absent);
    assert_eq!(
        read_transaction_type(Some(b"execute")),
        TransactionType::Execute
    );
    assert_eq!(
        read_transaction_type(Some(b"dry\trun ~")),
        TransactionType::Other
    );
    assert_eq!(
        read_transaction_type(Some(b"execute\x7f")),
        TransactionType::Unreadable
    );
    assert_eq!(
        read_transaction_type(Some(b"\x80")),
        TransactionType::Unreadable
    );
    assert_eq!(
        read_transaction_type(Some(b"a\nb")),
        TransactionType::Unreadable
    );
    assert_eq!(LB::request_type(&headers(&[b"\xff"])), TransactionType::Unreadable);
}

#[test]
fn reading_a_value_agrees_with_the_header_type() {
    for byte in 0..=255u8 {
        if let Ok(value) = HeaderValue::from_bytes(&[byte]) {
            assert_eq!(
                value.to_str().is_err(),
                read_transaction_type(Some(&[byte])) == TransactionType::Unreadable
            );
        }
    }
}

#[test]
fn health_check_says_up() {
    let response = HealthCheckApp.response();
    assert_eq!(response.status, http::StatusCode::OK.as_u16());
    assert_eq!(response.body, b"up".to_vec());
    assert_eq!(response.headers.len(), 2);
    assert_eq!(response.headers.keys_len(), 2);
    assert_eq!(response.headers[http::header::CONTENT_TYPE], "text/html");
    assert_eq!(response.headers[http::header::CONTENT_LENGTH], "2");
}

#[test]
fn proxy_listens_in_the_clear_without_tls() {
    match config(None).listener() {
        Listener::Tcp { address } => assert_eq!(address, "0.0.0.0:443"),
        Listener::Tls { .. } => panic!("no certificate was given"),
    }
}

#[test]
fn proxy_listens_with_tls_where_configured() {
    let tls = TlsConfig {
        cert_path: "keys/cert.crt".to_string(),
        key_path: "keys/key.pem".to_string(),
        sni: "fullnode.mainnet.sui.io".to_string(),
    };
    match config(Some(tls)).listener() {
        Listener::Tls {
            address,
            cert_path,
            key_path,
            sni,
        } => {
            assert_eq!(address, "0.0.0.0:443");
            assert_eq!(cert_path, "keys/cert.crt");
            assert_eq!(key_path, "keys/key.pem");
            assert_eq!(sni, "fullnode.mainnet.sui.io");
        }
        Listener::Tcp { .. } => panic!("a certificate was given"),
    }
}

#[test]
fn copy_of_a_configuration() {
    let mut given = config(Some(TlsConfig {
        cert_path: "cert".to_string(),
        key_path: "key".to_string(),
        sni: "sni".to_string(),
    }));
    given.metrics_address = Some("127.0.0.1:9184".to_string());
    given.backends.read_nodes = vec!["a".to_string(), "b".to_string()];
    let copy = given.clone();
    assert_eq!(copy.listen_address, given.listen_address);
    assert_eq!(copy.metrics_address, given.metrics_address);
    assert_eq!(copy.backends.read_nodes, given.backends.read_nodes);
    assert!(copy.backends.execution_nodes.is_empty());
    assert_eq!(copy.tls.unwrap().key_path, "key");
    assert_eq!(copy.custom_peer.address, "custom:443");
}

#[test]
fn balancer_is_made_of_the_configured_peers() {
    let lb = config(None).load_balancer();
    assert_eq!(
        lb.upstream_peer(&headers(&[b"execute"])).address,
        "custom:443"
    );
    assert_eq!(lb.upstream_peer(&headers(&[])).address, "default:443");
}
