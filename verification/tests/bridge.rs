use fastcrypto::encoding::{Base64, Encoding};
use std::time::Duration;
use sui_proxy::bridge::{BridgeValidator, BridgeValidatorProvider, FetchReply};
use sui_proxy::committee::{
    entry_for, extract_bridge, key_from_decoded, key_from_parsed, key_from_reply, metrics_request,
    request_from_url, try_metrics_request, BridgeCommittee, BridgeSummary, CommitteeMember, ReplyError, RequestError,
};
use sui_proxy::keys::Ed25519PublicKey;
use sui_proxy::rpc::bridge_request;
use sui_proxy::urls::{UrlParts, UrlSpans};

const FIRST_KEY: [u8; 32] = [
    215, 90, 152, 1, 130, 177, 10, 183, 213, 75, 254, 211, 201, 100, 7, 58, 14, 225, 114, 243, 218,
    166, 35, 37, 175, 2, 26, 104, 247, 7, 81, 26,
];
const SECOND_KEY: [u8; 32] = [
    61, 64, 23, 195, 232, 67, 137, 90, 146, 183, 10, 167, 77, 27, 126, 188, 156, 152, 44, 207, 46,
    196, 150, 140, 192, 205, 85, 241, 42, 244, 102, 12,
];

fn key(bytes: &[u8]) -> Ed25519PublicKey {
    Ed25519PublicKey::from_bytes(bytes).unwrap()
}

fn member(url: &[u8]) -> CommitteeMember {
    CommitteeMember {
        sui_address: "0x1".to_string(),
        http_rest_url: url.to_vec(),
    }
}

fn summary(urls: &[&[u8]]) -> BridgeSummary {
    BridgeSummary {
        committee: BridgeCommittee {
            members: urls.iter().map(|url| (vec![7], member(url))).collect(),
        },
    }
}

/// The body of a reply with the given key: a JSON string with the Base64 of it.
fn reply(key: &[u8]) -> Vec<u8> {
    serde_json::to_vec(&Base64::encode(key)).unwrap()
}

fn entry(name: &str, bytes: &[u8]) -> (Ed25519PublicKey, BridgeValidator) {
    (
        key(bytes),
        BridgeValidator {
            name: name.to_string(),
            public_key: key(bytes),
        },
    )
}

fn provider() -> BridgeValidatorProvider {
    BridgeValidatorProvider::new("http://rpc".to_string(), Duration::from_secs(30))
}

#[test]
fn depend_on_sui_sui_system_state_summary() {
    let depends_on = summary(&[b"http://127.0.0.1:10000"]);
    let peers = extract_bridge(&depends_on, &vec![Some(reply(&FIRST_KEY))]);
    assert_eq!(peers.len(), 1, "peers should have been a length of 1");
    assert_eq!(peers[0].0.as_bytes(), &FIRST_KEY);
}

#[test]
fn member_is_asked_under_its_host() {
    let request = metrics_request(&member(b"https://Bridge.Example.com:9191/api?x=1")).unwrap();
    assert_eq!(request.name, "bridge.example.com");
    assert_eq!(
        request.url,
        "https://bridge.example.com:9191/metrics_pub_key?x=1"
    );
}

#[test]
fn member_at_a_plain_host_is_asked_there() {
    for scheme in ["http", "https"] {
        let site = format!("{scheme}://my-bridge.example.com");
        let request = metrics_request(&member(site.as_bytes())).unwrap();
        assert_eq!(request.name, "my-bridge.example.com");
        assert_eq!(request.url, format!("{site}/metrics_pub_key"));
    }
}

fn spans(path: (usize, usize), query_end: usize, fragment_start: usize) -> UrlSpans {
    UrlSpans {
        opaque: false,
        path_start: path.0,
        path_end: path.1,
        query_end,
        fragment_start,
    }
}

#[test]
fn parts_of_a_url_are_measured() {
    assert_eq!(
        UrlSpans::measure("HTTP://A.b/cd?e#f"),
        Some(spans((10, 13), 15, 16))
    );
    assert_eq!(
        UrlSpans::measure("https://bridge.example.com"),
        Some(spans((26, 27), 27, 27))
    );
    assert_eq!(
        UrlSpans::measure("mailto:a@b#c"),
        Some(UrlSpans {
            opaque: true,
            ..spans((7, 10), 10, 11)
        })
    );
    assert_eq!(UrlSpans::measure("no url"), None);
}

#[test]
fn path_is_taken_up_to_four_gigabytes() {
    let limit = u32::MAX as usize;
    // What is behind the path may be of any length, unless a fragment is to be moved.
    assert!(spans((10, 11), 2 * limit, 2 * limit).take_path(16));
    assert!(spans((10, 11), 20, 21).take_path(16));
    assert!(spans((10, limit), limit, limit).take_path(16));
    assert!(!spans((10, limit + 1), limit + 1, limit + 1).take_path(16));
    assert!(spans((limit - 16, limit), limit, limit).take_path(16));
    assert!(!spans((limit - 15, limit), limit, limit).take_path(16));
    assert!(spans((10, 11), limit - 15, limit - 14).take_path(16));
    assert!(!spans((10, 11), limit - 14, limit - 13).take_path(16));
    let mut opaque = spans((limit - 18, limit), limit, limit);
    opaque.opaque = true;
    assert!(opaque.take_path(16));
    opaque.path_start += 1;
    assert!(!opaque.take_path(16));
}

#[test]
fn request_is_tried() {
    let request = try_metrics_request(&member(b"https://bridge.example.com"));
    let request = request.unwrap().unwrap();
    assert_eq!(request.name, "bridge.example.com");
    assert_eq!(request.url, "https://bridge.example.com/metrics_pub_key");
    for (url, error) in [
        (&b"\xff"[..], RequestError::InvalidUtf8),
        (&b"no url"[..], RequestError::UnparsableUrl),
        (&b"mailto:bridge@example.com"[..], RequestError::MissingHost),
    ] {
        let request = try_metrics_request(&member(url)).unwrap();
        assert_eq!(request.unwrap_err(), error);
    }
}

#[test]
fn member_without_path_is_asked_too() {
    let request = metrics_request(&member(b"http://10.0.0.1")).unwrap();
    assert_eq!(request.name, "10.0.0.1");
    assert_eq!(request.url, "http://10.0.0.1/metrics_pub_key");
}

#[test]
fn url_that_is_not_utf8_is_refused() {
    let request = metrics_request(&member(&[0x68, 0xff, 0xfe]));
    assert_eq!(request.unwrap_err(), RequestError::InvalidUtf8);
}

#[test]
fn url_that_does_not_parse_is_refused() {
    let request = metrics_request(&member(b"no url"));
    assert_eq!(request.unwrap_err(), RequestError::UnparsableUrl);
    let request = metrics_request(&member(b""));
    assert_eq!(request.unwrap_err(), RequestError::UnparsableUrl);
}

#[test]
fn url_without_host_is_refused() {
    let request = metrics_request(&member(b"mailto:bridge@example.com"));
    assert_eq!(request.unwrap_err(), RequestError::MissingHost);
}

#[test]
fn request_is_made_of_url_parts() {
    let request = request_from_url(Some(UrlParts {
        host: Some("h".to_string()),
        text: "http://h/p".to_string(),
    }))
    .unwrap();
    assert_eq!(request.name, "h");
    assert_eq!(request.url, "http://h/p");
    let request = request_from_url(Some(UrlParts {
        host: None,
        text: "data:x".to_string(),
    }));
    assert_eq!(request.unwrap_err(), RequestError::MissingHost);
    assert_eq!(
        request_from_url(None).unwrap_err(),
        RequestError::UnparsableUrl
    );
}

#[test]
fn reply_holds_a_key() {
    let raw = b"\"11qYAYKxCrfVS/7TyWQHOg7hcvPapiMlrwIaaPcHURo=\"";
    assert_eq!(key_from_reply(raw).unwrap().as_bytes(), &FIRST_KEY);
    let raw = b" \"PUAXw+hDiVqStwqnTRt+vJyYLM8uxJaMwM1V8Sr0Zg\\u0077=\" ";
    assert_eq!(key_from_reply(raw).unwrap().as_bytes(), &SECOND_KEY);
}

#[test]
fn reply_that_is_no_json_string_is_refused() {
    assert_eq!(key_from_reply(b"").unwrap_err(), ReplyError::NotAString);
    assert_eq!(key_from_reply(b"7").unwrap_err(), ReplyError::NotAString);
    assert_eq!(
        key_from_reply(b"11qYAYKxCrfVS/7TyWQHOg7hcvPapiMlrwIaaPcHURo=").unwrap_err(),
        ReplyError::NotAString
    );
    assert_eq!(key_from_parsed(None).unwrap_err(), ReplyError::NotAString);
}

#[test]
fn reply_that_is_no_base64_is_refused() {
    assert_eq!(
        key_from_reply(b"\"not base64\"").unwrap_err(),
        ReplyError::NotBase64
    );
    assert_eq!(key_from_decoded(None).unwrap_err(), ReplyError::NotBase64);
}

#[test]
fn reply_that_is_no_key_is_refused() {
    // Too short, empty, too long, and a point that is not on the curve.
    assert_eq!(
        key_from_reply(&reply(&[1, 2, 3])).unwrap_err(),
        ReplyError::NotAKey
    );
    assert_eq!(
        key_from_reply(b"\"\"").unwrap_err(),
        ReplyError::NotAKey
    );
    assert_eq!(
        key_from_reply(&reply(&[0; 33])).unwrap_err(),
        ReplyError::NotAKey
    );
    let mut off_the_curve = [0; 32];
    off_the_curve[0] = 2;
    assert_eq!(
        key_from_reply(&reply(&off_the_curve)).unwrap_err(),
        ReplyError::NotAKey
    );
    assert!(Ed25519PublicKey::from_bytes(&off_the_curve).is_none());
}

#[test]
fn member_has_an_entry_under_its_key() {
    let raw = reply(&SECOND_KEY);
    let (listed, validator) = entry_for(&member(b"http://a.b"), Some(&raw)).unwrap();
    assert_eq!(listed.as_bytes(), &SECOND_KEY);
    assert_eq!(validator.public_key.as_bytes(), &SECOND_KEY);
    assert_eq!(validator.name, "a.b");
    assert!(entry_for(&member(b"http://a.b"), None).is_none());
    assert!(entry_for(&member(b"nowhere"), Some(&raw)).is_none());
}

#[test]
fn members_keep_their_order_and_failures_are_passed_over() {
    let committee = summary(&[
        b"http://one",
        b"not a url",
        b"http://three",
        b"http://four",
        b"http://five",
        b"http://six",
    ]);
    let replies = vec![
        Some(reply(&SECOND_KEY)),
        Some(reply(&FIRST_KEY)),
        None,
        Some(b"\"??\"".to_vec()),
        Some(reply(&FIRST_KEY)),
    ];
    let entries = extract_bridge(&committee, &replies);
    assert_eq!(
        entries,
        vec![entry("one", &SECOND_KEY), entry("five", &FIRST_KEY)]
    );
}

#[test]
fn no_committee_no_entries() {
    assert!(extract_bridge(&summary(&[]), &vec![Some(reply(&FIRST_KEY))]).is_empty());
    assert!(extract_bridge(&summary(&[b"http://one"]), &vec![]).is_empty());
}

#[test]
fn nobody_is_allowed_at_first() {
    let provider = provider();
    assert!(!provider.allowed(&key(&FIRST_KEY)));
    assert!(provider.get(&key(&FIRST_KEY)).is_none());
    assert_eq!(provider.rpc_url(), "http://rpc");
    assert_eq!(provider.rpc_poll_interval(), Duration::from_secs(30));
}

#[test]
fn successful_poll_takes_the_place_of_the_list() {
    let mut provider = provider();
    let report = provider.poll_peer_list(Ok(vec![entry("a", &FIRST_KEY)]));
    assert_eq!(report.update.subject, "update_bridge_peer_count");
    assert_eq!(report.update.state, "success");
    assert_eq!(report.update.amount, 1);
    assert_eq!(
        report.message,
        "1 sui bridge peers managed to make it on the allow list"
    );
    assert!(provider.allowed(&key(&FIRST_KEY)));
    assert_eq!(provider.get(&key(&FIRST_KEY)).unwrap().name, "a");

    let report = provider.poll_peer_list(Ok(vec![entry("b", &SECOND_KEY)]));
    assert_eq!(report.update.amount, 1);
    assert!(!provider.allowed(&key(&FIRST_KEY)));
    assert!(provider.allowed(&key(&SECOND_KEY)));

    let report = provider.poll_peer_list(Ok(vec![]));
    assert_eq!(report.update.amount, 0);
    assert_eq!(
        report.message,
        "0 sui bridge peers managed to make it on the allow list"
    );
    assert!(!provider.allowed(&key(&SECOND_KEY)));
}

#[test]
fn last_entry_of_a_key_stays() {
    let mut provider = provider();
    let report = provider.poll_peer_list(Ok(vec![
        entry("a", &FIRST_KEY),
        entry("b", &SECOND_KEY),
        entry("c", &FIRST_KEY),
    ]));
    assert_eq!(report.update.amount, 2);
    assert_eq!(provider.get(&key(&FIRST_KEY)).unwrap().name, "c");
    assert_eq!(provider.get(&key(&SECOND_KEY)).unwrap().name, "b");
    assert_eq!(
        provider.get(&key(&SECOND_KEY)).unwrap().public_key,
        key(&SECOND_KEY)
    );
}

#[test]
fn failed_poll_keeps_the_list() {
    let mut provider = provider();
    provider.poll_peer_list(Ok(vec![entry("a", &FIRST_KEY)]));
    let report = provider.poll_peer_list(Err("unable to perform json rpc".to_string()));
    assert_eq!(report.update.subject, "update_bridge_peer_count");
    assert_eq!(report.update.state, "failed");
    assert_eq!(report.update.amount, 1);
    assert_eq!(
        report.message,
        "unable to refresh sui bridge peer list: unable to perform json rpc"
    );
    assert_eq!(provider.get(&key(&FIRST_KEY)).unwrap().name, "a");
}

#[test]
fn bridge_is_asked_for_by_json_rpc() {
    let request = bridge_request();
    assert_eq!(request.method, "suix_getLatestBridge");
    assert_eq!(request.content_type, "application/json");
    let body: serde_json::Value = serde_json::from_str(&request.body).unwrap();
    let members = body.as_object().unwrap();
    assert_eq!(members.len(), 3);
    assert_eq!(members["jsonrpc"], "2.0");
    assert_eq!(members["method"], "suix_getLatestBridge");
    assert_eq!(members["id"], 1);
}

#[test]
fn reply_to_the_rpc_is_counted() {
    let report = BridgeValidatorProvider::get_validators(FetchReply::SendFailed);
    assert_eq!(report.update.subject, "suix_getLatestBridge");
    assert_eq!(report.update.state, "failed_get");
    assert_eq!(report.update.amount, 1);
    assert_eq!(report.result.unwrap_err(), "unable to perform json rpc");

    let report = BridgeValidatorProvider::get_validators(FetchReply::ExtractFailed);
    assert_eq!(report.update.state, "failed_body_extract");
    assert_eq!(
        report.result.unwrap_err(),
        "unable to extract body bytes from json rpc"
    );

    let report = BridgeValidatorProvider::get_validators(FetchReply::Undecodable {
        error: "EOF".to_string(),
        raw: "b\"{\"".to_string(),
    });
    assert_eq!(report.update.state, "failed_json_decode");
    assert_eq!(
        report.result.unwrap_err(),
        "unable to decode json: EOF response from json rpc: b\"{\""
    );

    let report = BridgeValidatorProvider::get_validators(FetchReply::Decoded {
        summary: summary(&[b"http://one"]),
    });
    assert_eq!(report.update.state, "success");
    let decoded = report.result.unwrap();
    assert_eq!(decoded.committee.members.len(), 1);
    assert_eq!(
        decoded.committee.members[0].1.http_rest_url,
        b"http://one".to_vec()
    );
}
