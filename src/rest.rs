//! What the REST endpoints answer, as status codes and bodies.
use vstd::prelude::*;

verus! {

/// HTTP 200.
pub const STATUS_OK: u16 = 200;

/// HTTP 500.
pub const STATUS_INTERNAL_SERVER_ERROR: u16 = 500;

/// The status URL path.
pub const STATUS_API_PATH: &'static str = "status";

/// The metrics URL path.
pub const METRICS_API_PATH: &'static str = "metrics";

/// The OpenRPC schema URL path.
pub const JSON_RPC_SCHEMA_API_PATH: &'static str = "rpc-schema";

/// The chainspec file URL path.
pub const CHAINSPEC_PATH: &'static str = "chainspec";

/// How a reply body is to be labelled.
#[derive(Clone, Copy, Debug, PartialEq, Eq, Structural)]
pub enum BodyKind {
    Json,
    Text,
    Binary,
}

/// An HTTP reply: status code, body kind and body bytes.
#[derive(Debug, PartialEq, Eq)]
pub struct HttpReply {
    pub status: u16,
    pub kind: BodyKind,
    pub body: Vec<u8>,
}

/// A protocol version.
#[derive(Clone, Copy, Debug, PartialEq, Eq, Structural)]
pub struct ProtocolVersion {
    pub major: u32,
    pub minor: u32,
    pub patch: u32,
}

/// What the node reports about itself on the status endpoint.
#[derive(Clone, Copy, Debug, PartialEq, Eq, Structural)]
pub struct StatusFeed {
    pub peer_count: u64,
    pub last_added_block_height: Option<u64>,
}

/// Decimal digits of `n` in ASCII, without leading zeros.
pub open spec fn decimal(n: nat) -> Seq<u8>
    decreases n,
{
    if n < 10 {
        seq![(48 + n) as u8]
    } else {
        decimal(n / 10).push((48 + n % 10) as u8)
    }
}

pub(crate) fn push_decimal(out: &mut Vec<u8>, n: u64)
    ensures
        final(out)@ == old(out)@ + decimal(n as nat),
    decreases n,
{
    if n >= 10 {
        push_decimal(out, n / 10);
    }
    out.push(48 + (n % 10) as u8);
    assert(final(out)@ =~= old(out)@ + decimal(n as nat));
}

pub(crate) fn push_str(out: &mut Vec<u8>, s: &str)
    requires
        s.is_ascii(),
    ensures
        final(out)@ == old(out)@ + s@.map_values(|c: char| c as u8),
{
    let b = s.as_bytes();
    let mut i: usize = 0;
    while i < b.len()
        invariant
            i <= b@.len(),
            b@ == s@.map_values(|c: char| c as u8),
            out@ == old(out)@ + b@.subrange(0, i as int),
        decreases b@.len() - i,
    {
        out.push(b[i]);
        i = i + 1;
        assert(out@ =~= old(out)@ + b@.subrange(0, i as int));
    }
    assert(b@.subrange(0, b@.len() as int) =~= b@);
}

pub open spec fn ascii(s: Seq<char>) -> Seq<u8> {
    s.map_values(|c: char| c as u8)
}

/// `M.m.p` in ASCII.
pub open spec fn version_text(v: ProtocolVersion) -> Seq<u8> {
    decimal(v.major as nat) + seq![46u8] + decimal(v.minor as nat) + seq![46u8] + decimal(
        v.patch as nat,
    )
}

/// The JSON body of the status endpoint.
pub open spec fn status_json(feed: StatusFeed, api_version: ProtocolVersion) -> Seq<u8> {
    ascii("{\"api_version\":\""@) + version_text(api_version) + ascii("\",\"peer_count\":"@)
        + decimal(feed.peer_count as nat) + ascii(",\"last_added_block_height\":"@) + match feed.last_added_block_height {
        Some(h) => decimal(h as nat),
        None => ascii("null"@),
    } + ascii("}"@)
}

/// The status endpoint: 200 with a JSON body that holds the protocol
/// version, the peer count and the height of the last added block.
pub fn status_reply(feed: StatusFeed, api_version: ProtocolVersion) -> (r: HttpReply)
    ensures
        r.status == STATUS_OK,
        r.kind == BodyKind::Json,
        r.body@ == status_json(feed, api_version),
{
    proof {
        reveal_strlit("{\"api_version\":\"");
        reveal_strlit(".");
        reveal_strlit("\",\"peer_count\":");
        reveal_strlit(",\"last_added_block_height\":");
        reveal_strlit("null");
        reveal_strlit("}");
    }
    let mut body: Vec<u8> = Vec::new();
    push_str(&mut body, "{\"api_version\":\"");
    push_decimal(&mut body, api_version.major as u64);
    push_str(&mut body, ".");
    push_decimal(&mut body, api_version.minor as u64);
    push_str(&mut body, ".");
    push_decimal(&mut body, api_version.patch as u64);
    push_str(&mut body, "\",\"peer_count\":");
    push_decimal(&mut body, feed.peer_count);
    push_str(&mut body, ",\"last_added_block_height\":");
    match feed.last_added_block_height {
        Some(h) => push_decimal(&mut body, h),
        None => push_str(&mut body, "null"),
    }
    push_str(&mut body, "}");
    assert(ascii("."@) =~= seq![46u8]);
    assert(body@ =~= status_json(feed, api_version));
    HttpReply { status: STATUS_OK, kind: BodyKind::Json, body }
}

/// The body sent when no metrics are available.
pub open spec fn metrics_unavailable() -> Seq<u8> {
    ascii("metrics not available"@)
}

/// The metrics endpoint: the metrics text with 200, or 500 with the body
/// `metrics not available` when there is none.
pub fn metrics_reply(maybe_metrics: Option<Vec<u8>>) -> (r: HttpReply)
    ensures
        match maybe_metrics {
            Some(m) => r.status == STATUS_OK && r.kind == BodyKind::Text && r.body@ == m@,
            None => r.status == STATUS_INTERNAL_SERVER_ERROR && r.kind == BodyKind::Text
                && r.body@ == metrics_unavailable(),
        },
{
    match maybe_metrics {
        Some(metrics) => HttpReply { status: STATUS_OK, kind: BodyKind::Text, body: metrics },
        None => {
            proof {
                reveal_strlit("metrics not available");
            }
            let mut body: Vec<u8> = Vec::new();
            push_str(&mut body, "metrics not available");
            HttpReply { status: STATUS_INTERNAL_SERVER_ERROR, kind: BodyKind::Text, body }
        },
    }
}

/// The schema endpoint: 200 with the schema's JSON text.
pub fn rpc_schema_reply(schema_json: Vec<u8>) -> (r: HttpReply)
    ensures
        r.status == STATUS_OK,
        r.kind == BodyKind::Json,
        r.body@ == schema_json@,
{
    HttpReply { status: STATUS_OK, kind: BodyKind::Json, body: schema_json }
}

/// The chainspec endpoint: 200 with the file's bytes.
pub fn chainspec_reply(bytes: Vec<u8>) -> (r: HttpReply)
    ensures
        r.status == STATUS_OK,
        r.kind == BodyKind::Binary,
        r.body@ == bytes@,
{
    HttpReply { status: STATUS_OK, kind: BodyKind::Binary, body: bytes }
}

} // verus!
