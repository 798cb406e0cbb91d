//! What `app attach` makes of its target argument, and how it looks for the
//! DevTools port of an application that it found by name.

use vstd::prelude::*;

use crate::error::AppError;
use crate::text::{
    after_first, before_first, decimal, lemma_parse_u16_of_decimal, parse_u16, parse_u16_spec,
    seq_starts_with, str_after_first, str_before_first, str_starts_with, u64_to_decimal,
};

verus! {

/// How `app attach` goes on with its target.
#[derive(Clone, Debug, PartialEq, Eq)]
pub enum AttachTarget {
    /// Connect to this endpoint: a port number or a WebSocket URL.
    Endpoint(String),
    /// The target is taken as the name of an installed application.
    AppName,
}

/// The text of an HTTP URL where `app attach` reads the port: after the
/// scheme's `://`, between the first and the second `:`, up to the first `/`.
pub open spec fn http_port_text(target: Seq<char>) -> Option<Seq<char>> {
    match after_first(target, "://"@) {
        Some(rest) => match after_first(before_first(rest, "://"@), ":"@) {
            Some(after_colon) => Some(before_first(before_first(after_colon, ":"@), "/"@)),
            None => None,
        },
        None => None,
    }
}

/// The port that `app attach` reads from an HTTP URL, if any.
pub open spec fn http_port(target: Seq<char>) -> Option<u16> {
    match http_port_text(target) {
        Some(t) => parse_u16_spec(t),
        None => None,
    }
}

/// A WebSocket URL.
pub open spec fn is_ws_url(target: Seq<char>) -> bool {
    seq_starts_with(target, "ws://"@) || seq_starts_with(target, "wss://"@)
}

/// An HTTP URL.
pub open spec fn is_http_url(target: Seq<char>) -> bool {
    seq_starts_with(target, "http://"@) || seq_starts_with(target, "https://"@)
}

/// Message of an HTTP URL that holds no port.
pub open spec fn no_http_port_message(target: Seq<char>) -> Seq<char> {
    "Cannot extract port from HTTP URL: "@ + target
        + ". Use port number (e.g., 9222) or WebSocket URL instead."@
}

/// Decides what `app attach` does with `target`: a port number or a
/// WebSocket URL is connected to as given; an HTTP URL is connected to by
/// its port; anything else is taken as an application name.
pub fn classify_attach_target(target: &str) -> (r: Result<AttachTarget, AppError>)
    ensures
        parse_u16_spec(target@) is Some ==> (r matches Ok(AttachTarget::Endpoint(e)) && e@ == target@),
        parse_u16_spec(target@) is None && is_ws_url(target@) ==> (r matches Ok(AttachTarget::Endpoint(e)) && e@ == target@),
        parse_u16_spec(target@) is None && !is_ws_url(target@) && is_http_url(target@) ==> match http_port(target@) {
            Some(port) => r matches Ok(AttachTarget::Endpoint(e)) && e@ == decimal(port as nat),
            None => r matches Err(AppError::ConfigError(m)) && m@ == no_http_port_message(target@),
        },
        parse_u16_spec(target@) is None && !is_ws_url(target@) && !is_http_url(target@) ==> r == Ok::<AttachTarget, AppError>(AttachTarget::AppName),
{
    if parse_u16(target).is_some() {
        return Ok(AttachTarget::Endpoint(String::from_str(target)));
    }
    if str_starts_with(target, "ws://") || str_starts_with(target, "wss://") {
        return Ok(AttachTarget::Endpoint(String::from_str(target)));
    }
    if str_starts_with(target, "http://") || str_starts_with(target, "https://") {
        return match http_port_of(target) {
            Some(port) => Ok(AttachTarget::Endpoint(u64_to_decimal(port as u64))),
            None => {
                let mut m = String::from_str("Cannot extract port from HTTP URL: ");
                m.append(target);
                m.append(". Use port number (e.g., 9222) or WebSocket URL instead.");
                Err(AppError::ConfigError(m))
            },
        };
    }
    Ok(AttachTarget::AppName)
}

/// Reads the port of an HTTP URL the way `app attach` does.
pub fn http_port_of(target: &str) -> (r: Option<u16>)
    ensures
        r == http_port(target@),
{
    let rest = match str_after_first(target, "://") {
        Some(rest) => rest,
        None => return None,
    };
    let host = str_before_first(rest, "://");
    let after_colon = match str_after_first(host, ":") {
        Some(a) => a,
        None => return None,
    };
    let port_text = str_before_first(str_before_first(after_colon, ":"), "/");
    parse_u16(port_text)
}

/// The endpoint that `app attach` connects to for an HTTP URL is a port
/// number, which reads back as the port of the URL.
pub proof fn lemma_http_endpoint_reads_back(target: Seq<char>)
    requires
        http_port(target) is Some,
    ensures
        parse_u16_spec(decimal(http_port(target)->0 as nat)) == http_port(target),
{
    lemma_parse_u16_of_decimal(http_port(target)->0);
}

/// First port that `app attach` probes for an application found by name.
pub const FIRST_SCAN_PORT: u16 = 9222;

/// Last port that `app attach` probes for an application found by name.
pub const LAST_SCAN_PORT: u16 = 9225;

/// A step of the search for the DevTools port of an application.
#[derive(Clone, Copy, Debug, PartialEq, Eq, Structural)]
pub enum ScanStep {
    /// Ask whether a DevTools endpoint answers on this port.
    Probe(u16),
    /// The port answers: connect to it.
    Connect(u16),
    /// No candidate port answered.
    GiveUp,
}

/// The step after probing `port`.
pub open spec fn scan_next_spec(port: u16, responding: bool) -> ScanStep {
    if responding {
        ScanStep::Connect(port)
    } else if port < LAST_SCAN_PORT {
        ScanStep::Probe((port + 1) as u16)
    } else {
        ScanStep::GiveUp
    }
}

/// The search begins with the first candidate port.
pub fn scan_begin() -> (r: ScanStep)
    ensures
        r == ScanStep::Probe(FIRST_SCAN_PORT),
{
    ScanStep::Probe(FIRST_SCAN_PORT)
}

/// Decides what follows the probe of `port`: connect when it answered,
/// else probe the next candidate, else give up.
pub fn scan_next(port: u16, responding: bool) -> (r: ScanStep)
    requires
        FIRST_SCAN_PORT <= port <= LAST_SCAN_PORT,
    ensures
        r == scan_next_spec(port, responding),
{
    if responding {
        ScanStep::Connect(port)
    } else if port < LAST_SCAN_PORT {
        ScanStep::Probe(port + 1)
    } else {
        ScanStep::GiveUp
    }
}

/// Where the search ends after at most `fuel` probes, when port `p`
/// answers exactly if `responds(p)`.
pub open spec fn run_scan(step: ScanStep, responds: spec_fn(u16) -> bool, fuel: nat) -> ScanStep
    decreases fuel,
{
    match step {
        ScanStep::Probe(p) => if fuel == 0 {
            step
        } else {
            run_scan(scan_next_spec(p, responds(p)), responds, (fuel - 1) as nat)
        },
        _ => step,
    }
}

/// The search probes the candidate ports in increasing order and connects
/// to the first one that answers; it gives up exactly when none answers.
/// Four probes always suffice.
pub proof fn lemma_scan_finds_first_responding(responds: spec_fn(u16) -> bool)
    ensures
        run_scan(ScanStep::Probe(FIRST_SCAN_PORT), responds, 4) matches ScanStep::Connect(p) ==> {
            &&& FIRST_SCAN_PORT <= p <= LAST_SCAN_PORT
            &&& responds(p)
            &&& forall|q: u16| FIRST_SCAN_PORT <= q < p ==> !#[trigger] responds(q)
        },
        run_scan(ScanStep::Probe(FIRST_SCAN_PORT), responds, 4) is GiveUp <==> forall|q: u16|
            FIRST_SCAN_PORT <= q <= LAST_SCAN_PORT ==> !#[trigger] responds(q),
        !(run_scan(ScanStep::Probe(FIRST_SCAN_PORT), responds, 4) is Probe),
{
    reveal_with_fuel(run_scan, 5);
}

/// Message when no candidate port of the application answered.
pub open spec fn no_cdp_port_message(app_name: Seq<char>) -> Seq<char> {
    "App '"@ + app_name
        + "' found but no active CDP port detected (tried 9222-9225).\nPlease launch the app with --remote-debugging-port=<PORT> and use:\n  actionbook app attach <PORT>"@
}

/// The error when no candidate port of the application `app_name` answered.
pub fn no_cdp_port_error(app_name: &str) -> (r: AppError)
    ensures
        r matches AppError::ConfigError(m) && m@ == no_cdp_port_message(app_name@),
{
    let mut m = String::from_str("App '");
    m.append(app_name);
    m.append("' found but no active CDP port detected (tried 9222-9225).\nPlease launch the app with --remote-debugging-port=<PORT> and use:\n  actionbook app attach <PORT>");
    AppError::ConfigError(m)
}

} // verus!
