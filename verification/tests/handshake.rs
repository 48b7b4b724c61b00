use cargo_registry_readme::handshake::{challenge, convert_key};

#[test]
fn published_vector_matches() {
    assert_eq!(convert_key("dGhlIHNhbXBsZSBub25jZQ=="), "s3pPLMBiTxaQ9kYGzzhZRbK+xOo=");
}

#[test]
fn second_known_vector_matches() {
    assert_eq!(convert_key("x3JJHMbDL1EzLkh9GBhXDw=="), "HSmrc0sMlYUkAGmm5OPpG2HaGWk=");
}

#[test]
fn empty_nonce_has_a_token() {
    assert_eq!(convert_key(""), "Kfh9QIsMVZcl6xEPYxPHzW8SZ8w=");
}

#[test]
fn nonce_is_hashed_by_its_utf8_bytes() {
    assert_eq!(convert_key("héllo"), "WhtJt7sdkngNHd9p7NMvO7TkuOk=");
}

#[test]
fn token_depends_on_the_nonce_alone() {
    let first = convert_key("dGhlIHNhbXBsZSBub25jZQ==");
    let second = convert_key("dGhlIHNhbXBsZSBub25jZQ==");
    assert_eq!(first, second);
    assert_ne!(first, convert_key("dGhlIHNhbXBsZSBub25jZQ=!"));
}

#[test]
fn token_has_twenty_eight_characters() {
    for nonce in ["", "a", "dGhlIHNhbXBsZSBub25jZQ==", "a much longer nonce than any client sends"] {
        assert_eq!(convert_key(nonce).chars().count(), 28);
    }
}

#[test]
fn challenge_is_nonce_then_identifier() {
    assert_eq!(challenge("abc"), b"abc258EAFA5-E914-47DA-95CA-C5AB0DC85B11".to_vec());
    assert_eq!(challenge(""), b"258EAFA5-E914-47DA-95CA-C5AB0DC85B11".to_vec());
}
