use cargo_registry_readme::handshake::convert_key;
use cargo_registry_readme::registry::Registry;
use cargo_registry_readme::upgrade::{
    decide, find_header, handle_upgrade, HeaderLine, SwitchResponse, UpgradeDecision,
    UpgradeOutcome,
};

fn line(field: &str, value: &str) -> HeaderLine {
    HeaderLine::new(field, value)
}

fn pairs(headers: &[HeaderLine]) -> Vec<(String, String)> {
    headers.iter().map(|h| (h.field.clone(), h.value.clone())).collect()
}

fn expected_switch(token: &str) -> Vec<(String, String)> {
    vec![
        ("Upgrade".to_string(), "websocket".to_string()),
        ("Connection".to_string(), "Upgrade".to_string()),
        ("Sec-WebSocket-Protocol".to_string(), "hot_reload".to_string()),
        ("Sec-WebSocket-Accept".to_string(), token.to_string()),
    ]
}

#[test]
fn header_line_keeps_name_and_value() {
    let header = line("Upgrade", "websocket");
    assert_eq!(header.field, "Upgrade");
    assert_eq!(header.value, "websocket");
}

#[test]
fn find_header_takes_the_first_match() {
    let headers = vec![
        line("Host", "localhost"),
        line("sec-websocket-key", "first"),
        line("Sec-WebSocket-Key", "second"),
    ];
    assert_eq!(find_header(&headers, "Sec-WebSocket-Key"), Some("first".to_string()));
    assert_eq!(find_header(&headers, "HOST"), Some("localhost".to_string()));
    assert_eq!(find_header(&headers, "Origin"), None);
    assert_eq!(find_header(&Vec::new(), "Host"), None);
}

#[test]
fn request_without_nonce_is_rejected() {
    let headers = vec![line("Upgrade", "websocket"), line("Connection", "Upgrade")];
    match decide(&headers) {
        UpgradeDecision::Reject { status } => assert_eq!(status, 400),
        UpgradeDecision::Switch { .. } => panic!("a request without nonce must be rejected"),
    }
}

#[test]
fn request_with_nonce_switches_protocols() {
    let headers = vec![
        line("Upgrade", "websocket"),
        line("Sec-WebSocket-Key", "dGhlIHNhbXBsZSBub25jZQ=="),
    ];
    match decide(&headers) {
        UpgradeDecision::Switch { response } => {
            assert_eq!(response.status, 101);
            assert_eq!(pairs(&response.headers), expected_switch("s3pPLMBiTxaQ9kYGzzhZRbK+xOo="));
        }
        UpgradeDecision::Reject { .. } => panic!("a request with nonce must be accepted"),
    }
}

#[test]
fn nonce_alone_is_enough() {
    let headers = vec![line("SEC-WEBSOCKET-KEY", "x3JJHMbDL1EzLkh9GBhXDw==")];
    match decide(&headers) {
        UpgradeDecision::Switch { response } => {
            assert_eq!(pairs(&response.headers)[3].1, "HSmrc0sMlYUkAGmm5OPpG2HaGWk=");
        }
        UpgradeDecision::Reject { .. } => panic!("a request with nonce must be accepted"),
    }
}

#[test]
fn rejected_upgrade_leaves_registry_unchanged() {
    let mut registry: Registry<Vec<u8>> = Registry::new();
    registry.store(vec![7]);
    let mut called = false;
    let outcome = handle_upgrade(&vec![line("Upgrade", "websocket")], &mut registry, |_| {
        called = true;
        vec![8]
    });
    assert!(matches!(outcome, UpgradeOutcome::Rejected { status: 400 }));
    assert!(!called);
    assert_eq!(registry.store(Vec::new()), Some(vec![7]));
}

#[test]
fn rejected_upgrade_leaves_empty_registry_empty() {
    let mut registry: Registry<Vec<u8>> = Registry::new();
    let outcome = handle_upgrade(&Vec::new(), &mut registry, |_| vec![8]);
    assert!(matches!(outcome, UpgradeOutcome::Rejected { status: 400 }));
    assert!(!registry.is_connected());
}

#[test]
fn accepted_upgrade_installs_the_connection() {
    let mut registry: Registry<Vec<u8>> = Registry::new();
    let headers = vec![line("Sec-WebSocket-Key", "dGhlIHNhbXBsZSBub25jZQ==")];
    let mut seen: Vec<(String, String)> = Vec::new();
    let mut seen_status = 0;
    let outcome = handle_upgrade(&headers, &mut registry, |response: SwitchResponse| {
        seen_status = response.status;
        seen = pairs(&response.headers);
        vec![1]
    });
    match outcome {
        UpgradeOutcome::Installed { replaced } => assert_eq!(replaced, None),
        UpgradeOutcome::Rejected { .. } => panic!("a request with nonce must be accepted"),
    }
    assert_eq!(seen_status, 101);
    assert_eq!(seen, expected_switch(&convert_key("dGhlIHNhbXBsZSBub25jZQ==")));
    assert_eq!(registry.notify(&[]).map(|d| d.connection.clone()), Some(vec![1]));
}

#[test]
fn second_upgrade_replaces_the_first() {
    let mut registry: Registry<Vec<u8>> = Registry::new();
    let headers = vec![line("Sec-WebSocket-Key", "abc")];
    handle_upgrade(&headers, &mut registry, |_| vec![1]);
    let outcome = handle_upgrade(&headers, &mut registry, |_| vec![2]);
    match outcome {
        UpgradeOutcome::Installed { replaced } => assert_eq!(replaced, Some(vec![1])),
        UpgradeOutcome::Rejected { .. } => panic!("a request with nonce must be accepted"),
    }
    assert_eq!(registry.notify(&[]).map(|d| d.connection.clone()), Some(vec![2]));
}
