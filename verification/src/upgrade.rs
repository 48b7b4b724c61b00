//! The upgrade handler: from a request's headers to a rejection or to a
//! switched connection in the registry.

use crate::handshake::{accept_token, convert_key};
use crate::registry::Registry;
use crate::text::{alike_text, eq_ignore_ascii_case};
use vstd::prelude::*;

verus! {

/// One header of a request or a response.
pub struct HeaderLine {
    pub field: String,
    pub value: String,
}

impl HeaderLine {
    /// The field's name and the value, as text.
    pub open spec fn view(&self) -> (Seq<char>, Seq<char>) {
        (self.field@, self.value@)
    }

    /// Builds a header from a name and a value.
    pub fn new(field: &str, value: &str) -> (line: Self)
        ensures
            line@ == (field@, value@),
    {
        HeaderLine { field: field.to_owned(), value: value.to_owned() }
    }
}

/// The value of the first header named `name`, where names are compared
/// without regard to the case of ASCII letters.
pub open spec fn header_value(headers: Seq<HeaderLine>, name: Seq<char>) -> Option<Seq<char>>
    decreases headers.len(),
{
    if headers.len() == 0 {
        None
    } else if alike_text(headers[0].field@, name) {
        Some(headers[0].value@)
    } else {
        header_value(headers.drop_first(), name)
    }
}

/// The nonce that a request carries, if any.
pub open spec fn nonce_of(headers: Seq<HeaderLine>) -> Option<Seq<char>> {
    header_value(headers, "Sec-WebSocket-Key"@)
}

/// The headers of the answer that switches protocols, for an accept token.
pub open spec fn switch_headers(token: Seq<char>) -> Seq<(Seq<char>, Seq<char>)> {
    seq![
        ("Upgrade"@, "websocket"@),
        ("Connection"@, "Upgrade"@),
        ("Sec-WebSocket-Protocol"@, "hot_reload"@),
        ("Sec-WebSocket-Accept"@, token),
    ]
}

/// The answer that switches protocols.
pub struct SwitchResponse {
    pub status: u16,
    pub headers: Vec<HeaderLine>,
}

impl SwitchResponse {
    /// Says that this is the answer owed to `nonce`: status 101 and the four
    /// headers, the last with the nonce's accept token.
    pub open spec fn answers(&self, nonce: Seq<char>) -> bool {
        &&& self.status == 101
        &&& self.headers@.len() == 4
        &&& forall|i: int|
            0 <= i < 4 ==> (#[trigger] self.headers@[i])@ == switch_headers(accept_token(nonce))[i]
    }
}

/// What the handler decides on a request.
pub enum UpgradeDecision {
    /// No nonce: answer with this client-error status and upgrade nothing.
    Reject { status: u16 },
    /// Answer with this response and take the transport over.
    Switch { response: SwitchResponse },
}

/// What became of an upgrade request.
pub enum UpgradeOutcome<C> {
    /// The request was refused with this status; the registry is as before.
    Rejected { status: u16 },
    /// The new connection is in the registry; the one it replaced, if any,
    /// is handed back.
    Installed { replaced: Option<C> },
}

/// Finds the value of the first header named `name`.
pub fn find_header(headers: &Vec<HeaderLine>, name: &str) -> (found: Option<String>)
    ensures
        match header_value(headers@, name@) {
            None => found is None,
            Some(value) => found is Some && found.unwrap()@ == value,
        },
{
    let mut i: usize = 0;
    assert(headers@.subrange(0, headers@.len() as int) =~= headers@);
    while i < headers.len()
        invariant
            i <= headers@.len(),
            header_value(headers@, name@) == header_value(
                headers@.subrange(i as int, headers@.len() as int),
                name@,
            ),
        decreases headers@.len() - i,
    {
        let ghost rest = headers@.subrange(i as int, headers@.len() as int);
        assert(rest[0] == headers@[i as int]);
        assert(rest.drop_first() =~= headers@.subrange(i + 1, headers@.len() as int));
        if eq_ignore_ascii_case(headers[i].field.as_str(), name) {
            return Some(headers[i].value.clone());
        }
        i = i + 1;
    }
    None
}

/// Decides on an upgrade request from its headers.
///
/// Without a `Sec-WebSocket-Key` header the request is rejected with status
/// 400. With one, the answer is status 101 with the upgrade, connection,
/// sub-protocol and accept headers.
pub fn decide(headers: &Vec<HeaderLine>) -> (decision: UpgradeDecision)
    ensures
        match nonce_of(headers@) {
            None => decision == (UpgradeDecision::Reject { status: 400 }),
            Some(nonce) => decision is Switch && decision->response.answers(nonce),
        },
{
    match find_header(headers, "Sec-WebSocket-Key") {
        None => UpgradeDecision::Reject { status: 400 },
        Some(key) => {
            let token = convert_key(key.as_str());
            let mut lines: Vec<HeaderLine> = Vec::new();
            lines.push(HeaderLine::new("Upgrade", "websocket"));
            lines.push(HeaderLine::new("Connection", "Upgrade"));
            lines.push(HeaderLine::new("Sec-WebSocket-Protocol", "hot_reload"));
            lines.push(HeaderLine::new("Sec-WebSocket-Accept", token.as_str()));
            UpgradeDecision::Switch { response: SwitchResponse { status: 101, headers: lines } }
        },
    }
}

/// Handles one upgrade request.
///
/// `upgrade` sends the switching answer and turns the request's transport
/// into a raw duplex connection; it is called at most once, and only when the
/// request carries a nonce. The connection it returns is installed in the
/// registry. A request without a nonce leaves the registry as it was.
pub fn handle_upgrade<C, F: FnOnce(SwitchResponse) -> C>(
    headers: &Vec<HeaderLine>,
    registry: &mut Registry<C>,
    upgrade: F,
) -> (outcome: UpgradeOutcome<C>)
    requires
        forall|response: SwitchResponse|
            nonce_of(headers@) is Some && #[trigger] response.answers(nonce_of(headers@).unwrap())
                ==> upgrade.requires((response,)),
    ensures
        match nonce_of(headers@) {
            None => outcome == (UpgradeOutcome::<C>::Rejected { status: 400 })
                && final(registry)@ == old(registry)@,
            Some(nonce) => outcome == (UpgradeOutcome::Installed { replaced: old(registry)@ })
                && final(registry)@ is Some
                && exists|response: SwitchResponse| #[trigger]
                    response.answers(nonce) && upgrade.ensures(
                        (response,),
                        final(registry)@.unwrap(),
                    ),
        },
{
    match decide(headers) {
        UpgradeDecision::Reject { status } => UpgradeOutcome::Rejected { status },
        UpgradeDecision::Switch { response } => {
            let ghost sent = response;
            let connection = upgrade(response);
            assert(sent.answers(nonce_of(headers@).unwrap()) && upgrade.ensures((sent,), connection));
            let replaced = registry.store(connection);
            UpgradeOutcome::Installed { replaced }
        },
    }
}

} // verus!
