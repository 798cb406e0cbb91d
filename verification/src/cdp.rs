//! Whether a port serves the Chrome DevTools Protocol.

use vstd::prelude::*;

use crate::json::{doc_get, json_get, parse_json_bytes, serde_json_from_slice, JsonDoc};
use crate::text::{decimal, u64_to_decimal};

verus! {

/// The address whose `/json/version` reply shows a DevTools endpoint on `port`.
pub open spec fn cdp_version_url_spec(port: u16) -> Seq<char> {
    "http://127.0.0.1:"@ + decimal(port as nat) + "/json/version"@
}

/// The version endpoint of a DevTools server on `port` of this machine.
pub fn cdp_version_url(port: u16) -> (r: String)
    ensures
        r@ == cdp_version_url_spec(port),
{
    let mut r = String::from_str("http://127.0.0.1:");
    let digits = u64_to_decimal(port as u64);
    r.append(digits.as_str());
    r.append("/json/version");
    r
}

/// A version reply of a DevTools server: a JSON object with a
/// `webSocketDebuggerUrl` or `Browser` member.
pub open spec fn is_cdp_version_doc(doc: Option<JsonDoc>) -> bool {
    match doc {
        Some(d) => doc_get(d, "webSocketDebuggerUrl"@) is Some || doc_get(d, "Browser"@) is Some,
        None => false,
    }
}

/// The status of a reply that the check accepts: 200 (OK).
pub open spec fn is_ok_status(status: u16) -> bool {
    status == 200
}

/// Whether a parsed reply body (`None` when it is not JSON) is a DevTools
/// version reply.
pub fn is_cdp_version_reply(doc: &Option<JsonDoc>) -> (r: bool)
    ensures
        r == is_cdp_version_doc(*doc),
        *doc matches Some(d) ==> r == (doc_get(d, "webSocketDebuggerUrl"@) is Some || doc_get(d, "Browser"@) is Some),
        *doc is None ==> !r,
{
    match doc {
        Some(d) => json_get(d, "webSocketDebuggerUrl").is_some() || json_get(d, "Browser").is_some(),
        None => false,
    }
}

/// Judges the reply to a request for the version endpoint: the port serves
/// DevTools when the status is 200 and the body is a JSON object with a
/// `webSocketDebuggerUrl` or `Browser` member.
pub fn cdp_reply_accepted(status: u16, body: &[u8]) -> (r: bool)
    ensures
        r == (is_ok_status(status) && is_cdp_version_doc(serde_json_from_slice(body@))),
        status != 200 ==> !r,
        serde_json_from_slice(body@) is None ==> !r,
        status == 200 ==> (serde_json_from_slice(body@) matches Some(d) ==> r == (doc_get(d, "webSocketDebuggerUrl"@) is Some
            || doc_get(d, "Browser"@) is Some)),
{
    if status != 200 {
        return false;
    }
    let doc = parse_json_bytes(body);
    is_cdp_version_reply(&doc)
}

/// The check reads a reply only through its `webSocketDebuggerUrl` and
/// `Browser` members: it accepts a reply exactly when one of them is
/// present, so two replies that agree on those members are judged alike,
/// whatever other members (`User-Agent`, `Protocol-Version`, ...) they hold.
pub proof fn lemma_reply_check_reads_two_members(d1: JsonDoc, d2: JsonDoc)
    ensures
        is_cdp_version_doc(Some(d1)) == (doc_get(d1, "webSocketDebuggerUrl"@) is Some || doc_get(d1, "Browser"@) is Some),
        (doc_get(d1, "webSocketDebuggerUrl"@) is Some) == (doc_get(d2, "webSocketDebuggerUrl"@) is Some)
            && (doc_get(d1, "Browser"@) is Some) == (doc_get(d2, "Browser"@) is Some)
            ==> is_cdp_version_doc(Some(d1)) == is_cdp_version_doc(Some(d2)),
        !is_cdp_version_doc(None),
{
}

} // verus!
