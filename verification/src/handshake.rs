//! The accept token that answers a client's upgrade nonce.

use rustc_serialize::base64::{Config, Newline, Standard, ToBase64};
use vstd::prelude::*;
use vstd::string::*;

verus! {

/// The 160-bit SHA-1 digest of a message, as its twenty bytes in order.
pub uninterp spec fn sha1_of(message: Seq<u8>) -> Seq<u8>;

/// The character that stands for a six-bit value in the standard base64
/// alphabet: capitals, small letters, digits, `+` and `/`.
pub open spec fn sextet(value: int) -> char
    recommends
        0 <= value < 64,
{
    if value < 26 {
        (0x41 + value) as char
    } else if value < 52 {
        (0x61 + (value - 26)) as char
    } else if value < 62 {
        (0x30 + (value - 52)) as char
    } else if value == 62 {
        '+'
    } else {
        '/'
    }
}

/// The base64 text of a byte string: standard alphabet, padded with `=`,
/// on one line. Every three bytes give four characters of six bits each; one
/// or two bytes left over give two or three characters and the padding.
pub open spec fn base64_of(bytes: Seq<u8>) -> Seq<char>
    decreases bytes.len(),
{
    if bytes.len() == 0 {
        Seq::empty()
    } else if bytes.len() == 1 {
        let a = bytes[0] as int;
        seq![sextet(a / 4), sextet(a % 4 * 16), '=', '=']
    } else if bytes.len() == 2 {
        let a = bytes[0] as int;
        let b = bytes[1] as int;
        seq![sextet(a / 4), sextet(a % 4 * 16 + b / 16), sextet(b % 16 * 4), '=']
    } else {
        let a = bytes[0] as int;
        let b = bytes[1] as int;
        let c = bytes[2] as int;
        seq![
            sextet(a / 4),
            sextet(a % 4 * 16 + b / 16),
            sextet(b % 16 * 4 + c / 64),
            sextet(c % 64),
        ] + base64_of(bytes.subrange(3, bytes.len() as int))
    }
}

/// The fixed identifier that the upgrade protocol appends to every nonce.
pub open spec fn magic() -> Seq<u8> {
    "258EAFA5-E914-47DA-95CA-C5AB0DC85B11".spec_bytes()
}

/// The bytes that are hashed for a nonce: the nonce, then the identifier.
pub open spec fn challenge_of(nonce: Seq<char>) -> Seq<u8> {
    vstd::utf8::encode_utf8(nonce) + magic()
}

/// The accept token of a nonce.
pub open spec fn accept_token(nonce: Seq<char>) -> Seq<char> {
    base64_of(sha1_of(challenge_of(nonce)))
}

/// Calls `sha1::Sha1::new`, `update` and `digest`, and takes the digest's
/// `bytes()`. Trusted: the result is the SHA-1 digest of `message`, which
/// has twenty bytes.
#[verifier::external_body]
fn sha1_digest(message: &[u8]) -> (digest: Vec<u8>)
    ensures
        digest@ == sha1_of(message@),
        digest@.len() == 20,
{
    let mut hasher = sha1::Sha1::new();
    hasher.update(message);
    hasher.digest().bytes().to_vec()
}

/// Calls `rustc_serialize::base64::ToBase64::to_base64` on a byte slice with
/// the standard alphabet, padding and no line wrapping. Trusted: the result
/// is that encoding of the bytes.
#[verifier::external_body]
fn base64_standard(bytes: &[u8]) -> (text: String)
    ensures
        text@ == base64_of(bytes@),
{
    bytes.to_base64(Config { char_set: Standard, pad: true, line_length: None, newline: Newline::LF })
}

/// Builds the message that is hashed for a nonce.
pub fn challenge(nonce: &str) -> (message: Vec<u8>)
    ensures
        message@ == challenge_of(nonce@),
{
    let mut message = nonce.as_bytes_vec();
    let mut suffix = "258EAFA5-E914-47DA-95CA-C5AB0DC85B11".as_bytes_vec();
    message.append(&mut suffix);
    message
}

/// Turns a `Sec-WebSocket-Key` into the `Sec-WebSocket-Accept` value.
///
/// Total over every input: the token depends on the nonce alone and always
/// has 28 characters.
pub fn convert_key(input: &str) -> (token: String)
    ensures
        token@ == accept_token(input@),
        token@.len() == 28,
{
    let message = challenge(input);
    let digest = sha1_digest(message.as_slice());
    proof {
        lemma_base64_length(digest@);
    }
    base64_standard(digest.as_slice())
}

/// The base64 text has four characters for every started group of three
/// bytes.
pub proof fn lemma_base64_length(bytes: Seq<u8>)
    ensures
        base64_of(bytes).len() == (bytes.len() + 2) / 3 * 4,
    decreases bytes.len(),
{
    if bytes.len() >= 3 {
        lemma_base64_length(bytes.subrange(3, bytes.len() as int));
    }
}

} // verus!
