//! The closed sets of requests that components send one another. Each
//! variant carries its payload and the responder for its result.
use vstd::prelude::*;

use crate::responder::Responder;
use crate::rest::{ascii, decimal, push_decimal, push_str};
use crate::storage::StoredValue;

verus! {

/// Values that render as an ASCII diagnostic text.
pub trait Describe {
    spec fn text(&self) -> Seq<u8>;

    /// Appends the text to `out`.
    fn describe_into(&self, out: &mut Vec<u8>)
        ensures
            final(out)@ == old(out)@ + self.text(),
            forall|i: int| 0 <= i < self.text().len() ==> #[trigger] self.text()[i] < 128,
    ;
}

impl Describe for u64 {
    open spec fn text(&self) -> Seq<u8> {
        decimal(*self as nat)
    }

    fn describe_into(&self, out: &mut Vec<u8>) {
        proof {
            lemma_decimal_ascii(*self as nat);
        }
        push_decimal(out, *self);
    }
}

impl Describe for StoredValue {
    /// A stored value is shown by its identifier.
    open spec fn text(&self) -> Seq<u8> {
        decimal(self.id as nat)
    }

    fn describe_into(&self, out: &mut Vec<u8>) {
        proof {
            lemma_decimal_ascii(self.id as nat);
        }
        push_decimal(out, self.id);
    }
}

/// Requests to the networking component.
#[derive(Debug)]
pub enum NetworkRequest<I, P> {
    /// Send a message on the network to a specific peer.
    SendMessage { dest: I, payload: P, responder: Responder },
    /// Send a message on the network to all peers.
    BroadcastMessage { payload: P, responder: Responder },
}

impl<I, P> NetworkRequest<I, P> {
    pub open spec fn payload_of(&self) -> P {
        match self {
            NetworkRequest::SendMessage { payload, .. } => *payload,
            NetworkRequest::BroadcastMessage { payload, .. } => *payload,
        }
    }

    pub open spec fn ticket_of(&self) -> usize {
        match self {
            NetworkRequest::SendMessage { responder, .. } => responder.ticket(),
            NetworkRequest::BroadcastMessage { responder, .. } => responder.ticket(),
        }
    }

    /// Re-wraps the payload with `wrap_payload`, keeping the destination and
    /// the responder.
    pub fn map_payload<F, P2>(self, wrap_payload: F) -> (r: NetworkRequest<I, P2>) where
        F: FnOnce(P) -> P2,

        requires
            wrap_payload.requires((self.payload_of(),)),
        ensures
            wrap_payload.ensures((self.payload_of(),), r.payload_of()),
            r.ticket_of() == self.ticket_of(),
            r is SendMessage <==> self is SendMessage,
            self is SendMessage ==> r->SendMessage_dest == self->SendMessage_dest,
    {
        match self {
            NetworkRequest::SendMessage { dest, payload, responder } => NetworkRequest::SendMessage {
                dest,
                payload: wrap_payload(payload),
                responder,
            },
            NetworkRequest::BroadcastMessage { payload, responder } => {
                NetworkRequest::BroadcastMessage { payload: wrap_payload(payload), responder }
            },
        }
    }
}

impl<I: Describe, P: Describe> NetworkRequest<I, P> {
    /// Text of the diagnostic line: `send to <dest>: <payload>` or
    /// `broadcast: <payload>`.
    pub open spec fn description(&self) -> Seq<u8> {
        match self {
            NetworkRequest::SendMessage { dest, payload, .. } => ascii("send to "@) + dest.text()
                + ascii(": "@) + payload.text(),
            NetworkRequest::BroadcastMessage { payload, .. } => ascii("broadcast: "@)
                + payload.text(),
        }
    }

    /// The diagnostic line for tracing and metrics.
    pub fn describe(&self) -> (r: String)
        ensures
            r@ == ascii_chars(self.description()),
    {
        proof {
            reveal_strlit("send to ");
            reveal_strlit(": ");
            reveal_strlit("broadcast: ");
        }
        let mut b: Vec<u8> = Vec::new();
        match self {
            NetworkRequest::SendMessage { dest, payload, .. } => {
                push_str(&mut b, "send to ");
                let ghost b1 = b@;
                dest.describe_into(&mut b);
                let ghost b2 = b@;
                push_str(&mut b, ": ");
                let ghost b3 = b@;
                payload.describe_into(&mut b);
                proof {
                    assert(b@ == b1 + dest.text() + ascii(": "@) + payload.text());
                    assert forall|i: int| 0 <= i < b@.len() implies b@[i] < 128 by {
                        if i < b1.len() {
                        } else if i < b2.len() {
                            assert(b@[i] == dest.text()[i - b1.len()]);
                        } else if i < b3.len() {
                        } else {
                            assert(b@[i] == payload.text()[i - b3.len()]);
                        }
                    }
                }
            },
            NetworkRequest::BroadcastMessage { payload, .. } => {
                push_str(&mut b, "broadcast: ");
                let ghost b1 = b@;
                payload.describe_into(&mut b);
                proof {
                    assert forall|i: int| 0 <= i < b@.len() implies b@[i] < 128 by {
                        if i >= b1.len() {
                            assert(b@[i] == payload.text()[i - b1.len()]);
                        }
                    }
                }
            },
        }
        string_from_ascii(b)
    }
}

/// Requests to the storage component. Blocks and deploys are both stored
/// values, addressed by their identifiers.
#[derive(Debug)]
pub enum StorageRequest {
    /// Store given block.
    PutBlock { block: StoredValue, responder: Responder },
    /// Retrieve block with given hash.
    GetBlock { block_hash: u64, responder: Responder },
    /// Retrieve block header with given hash.
    GetBlockHeader { block_hash: u64, responder: Responder },
    /// Store given deploy.
    PutDeploy { deploy: StoredValue, responder: Responder },
    /// Retrieve deploy with given hash.
    GetDeploy { deploy_hash: u64, responder: Responder },
    /// Retrieve deploy header with given hash.
    GetDeployHeader { deploy_hash: u64, responder: Responder },
}

/// Characters of ASCII bytes, one per byte.
pub open spec fn ascii_chars(b: Seq<u8>) -> Seq<char> {
    b.map_values(|x: u8| x as char)
}

/// Relies on `String::from_utf8`: bytes below 128 are valid UTF-8, and each
/// one is the character of that code.
#[verifier::external_body]
fn string_from_ascii(b: Vec<u8>) -> (r: String)
    requires
        forall|i: int| 0 <= i < b@.len() ==> b@[i] < 128,
    ensures
        r@ == ascii_chars(b@),
{
    String::from_utf8(b).unwrap_or_default()
}

proof fn lemma_decimal_ascii(n: nat)
    ensures
        forall|i: int| 0 <= i < decimal(n).len() ==> 48 <= #[trigger] decimal(n)[i] < 58,
    decreases n,
{
    if n >= 10 {
        lemma_decimal_ascii(n / 10);
        let d = (48 + n % 10) as u8;
        assert(48 <= d < 58);
        assert(decimal(n) == decimal(n / 10).push(d));
        assert forall|i: int| 0 <= i < decimal(n).len() implies 48 <= #[trigger] decimal(n)[i] < 58 by {
            if i < decimal(n / 10).len() {
                assert(decimal(n)[i] == decimal(n / 10)[i]);
            }
        }
    } else {
        assert(decimal(n) == seq![(48 + n) as u8]);
    }
}

impl StorageRequest {
    /// Text of the diagnostic line: `put <id>` for a put of the value with
    /// that identifier, `get <id>` for a lookup.
    pub open spec fn description(&self) -> Seq<u8> {
        match self {
            StorageRequest::PutBlock { block, .. } => ascii("put "@) + decimal(block.id as nat),
            StorageRequest::PutDeploy { deploy, .. } => ascii("put "@) + decimal(deploy.id as nat),
            StorageRequest::GetBlock { block_hash, .. } => ascii("get "@) + decimal(*block_hash as nat),
            StorageRequest::GetBlockHeader { block_hash, .. } => ascii("get "@) + decimal(
                *block_hash as nat,
            ),
            StorageRequest::GetDeploy { deploy_hash, .. } => ascii("get "@) + decimal(
                *deploy_hash as nat,
            ),
            StorageRequest::GetDeployHeader { deploy_hash, .. } => ascii("get "@) + decimal(
                *deploy_hash as nat,
            ),
        }
    }

    /// The diagnostic line for tracing and metrics.
    pub fn describe(&self) -> (r: String)
        ensures
            r@ == ascii_chars(self.description()),
    {
        proof {
            reveal_strlit("put ");
            reveal_strlit("get ");
        }
        let mut b: Vec<u8> = Vec::new();
        let id = match self {
            StorageRequest::PutBlock { block, .. } => {
                push_str(&mut b, "put ");
                block.id
            },
            StorageRequest::PutDeploy { deploy, .. } => {
                push_str(&mut b, "put ");
                deploy.id
            },
            StorageRequest::GetBlock { block_hash, .. } => {
                push_str(&mut b, "get ");
                *block_hash
            },
            StorageRequest::GetBlockHeader { block_hash, .. } => {
                push_str(&mut b, "get ");
                *block_hash
            },
            StorageRequest::GetDeploy { deploy_hash, .. } => {
                push_str(&mut b, "get ");
                *deploy_hash
            },
            StorageRequest::GetDeployHeader { deploy_hash, .. } => {
                push_str(&mut b, "get ");
                *deploy_hash
            },
        };
        let ghost prefix = b@;
        push_decimal(&mut b, id);
        proof {
            lemma_decimal_ascii(id as nat);
            assert(b@ == prefix + decimal(id as nat));
            assert forall|i: int| 0 <= i < b@.len() implies b@[i] < 128 by {
                if i >= 4 {
                    assert(b@[i] == decimal(id as nat)[i - 4]);
                }
            }
        }
        string_from_ascii(b)
    }
}

/// Requests from the REST server to the rest of the node.
#[derive(Debug)]
pub enum RestRequest {
    /// The node's status.
    GetStatus { responder: Responder },
    /// The metrics text, if metrics are available.
    GetMetrics { responder: Responder },
    /// The OpenRPC schema, as JSON text.
    GetRpcSchema { responder: Responder },
    /// The chainspec file.
    GetChainspec { responder: Responder },
}

} // verus!
