//! Bootstrap boundary: the one-shot lookup, before a session exists, of the
//! gateway's connection URL and session-start limits. The HTTP call lives
//! with the caller; this module parses the response body — exactly, over
//! the named fields the JSON boundary extracts — and builds the URLs
//! involved.

use vstd::prelude::*;
use crate::jsonval::{
    extract_gateway_fields, gateway_url_of, gateway_shards_of, gateway_total_of,
    gateway_remaining_of, gateway_reset_after_of,
};

verus! {

/// How many sessions may still be started, as the bootstrap endpoint
/// reports it.
pub struct SessionStartLimit {
    pub total: u32,
    pub remaining: u32,
    pub reset_after_ms: u32,
}

/// What the bootstrap lookup returns: the gateway URL, the recommended
/// shard count, and the session-start limits.
pub struct GatewayResponse {
    pub url: String,
    pub shards: u32,
    pub session_start_limit: SessionStartLimit,
}

/// Assembles a bootstrap response from the plain values the JSON boundary
/// extracted: every field must be present and the counters must fit their
/// width.
pub fn build_gateway_response(
    url: Option<String>,
    shards: Option<u64>,
    total: Option<u64>,
    remaining: Option<u64>,
    reset_after: Option<u64>,
) -> (r: Option<GatewayResponse>)
    ensures
        r is Some <==> {
            &&& url is Some
            &&& shards matches Some(s) && s <= u32::MAX
            &&& total matches Some(t) && t <= u32::MAX
            &&& remaining matches Some(m) && m <= u32::MAX
            &&& reset_after matches Some(a) && a <= u32::MAX
        },
        r matches Some(g) ==> {
            &&& Some(g.url) == url
            &&& Some(g.shards as u64) == shards
            &&& Some(g.session_start_limit.total as u64) == total
            &&& Some(g.session_start_limit.remaining as u64) == remaining
            &&& Some(g.session_start_limit.reset_after_ms as u64) == reset_after
        },
{
    let url = match url {
        Some(u) => u,
        None => {
            return None;
        }
    };
    let shards = match shards {
        Some(s) if s <= 0xffff_ffff => s as u32,
        _ => {
            return None;
        }
    };
    let total = match total {
        Some(t) if t <= 0xffff_ffff => t as u32,
        _ => {
            return None;
        }
    };
    let remaining = match remaining {
        Some(m) if m <= 0xffff_ffff => m as u32,
        _ => {
            return None;
        }
    };
    let reset_after_ms = match reset_after {
        Some(a) if a <= 0xffff_ffff => a as u32,
        _ => {
            return None;
        }
    };
    Some(
        GatewayResponse {
            url,
            shards,
            session_start_limit: SessionStartLimit { total, remaining, reset_after_ms },
        },
    )
}

/// The bootstrap response parsed from a response body: a JSON object with
/// `url`, `shards` and a `session_start_limit` object. The contract fixes
/// the result for every body: `Some` exactly when every named field is
/// present and fits, and then each field of the result equals its named
/// counterpart in the text.
pub fn parse_gateway_response(body: &str) -> (r: Option<GatewayResponse>)
    ensures
        r is Some <==> {
            &&& gateway_url_of(body@) is Some
            &&& gateway_shards_of(body@) matches Some(s) && s <= u32::MAX
            &&& gateway_total_of(body@) matches Some(t) && t <= u32::MAX
            &&& gateway_remaining_of(body@) matches Some(m) && m <= u32::MAX
            &&& gateway_reset_after_of(body@) matches Some(a) && a <= u32::MAX
        },
        r matches Some(g) ==> {
            &&& Some(g.url@) == gateway_url_of(body@)
            &&& Some(g.shards as u64) == gateway_shards_of(body@)
            &&& Some(g.session_start_limit.total as u64) == gateway_total_of(body@)
            &&& Some(g.session_start_limit.remaining as u64) == gateway_remaining_of(body@)
            &&& Some(g.session_start_limit.reset_after_ms as u64) == gateway_reset_after_of(body@)
        },
{
    let fields = extract_gateway_fields(body);
    build_gateway_response(fields.url, fields.shards, fields.total, fields.remaining, fields.reset_after)
}

/// The endpoint that resolves the gateway URL for a bot.
pub fn gateway_bot_endpoint() -> (r: String)
    ensures
        r@ == "https://discordapp.com/api/gateway/bot"@,
{
    String::from_str("https://discordapp.com/api/gateway/bot")
}

/// The gateway URL with the protocol version and payload encoding
/// negotiated in the query string.
pub fn with_gateway_query(url: &str) -> (r: String)
    ensures
        r@ == url@ + "?v=6&encoding=json"@,
{
    let mut s = String::from_str(url);
    s.append("?v=6&encoding=json");
    s
}

} // verus!
