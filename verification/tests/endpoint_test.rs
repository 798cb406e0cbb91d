//! Tests of what `app attach` makes of its target, and of the port scan.

use actionbook::endpoint::{
    classify_attach_target, http_port_of, no_cdp_port_error, scan_begin, scan_next, AttachTarget,
    ScanStep,
};
use actionbook::error::AppError;
use actionbook::text::{parse_u16, u64_to_decimal};

fn endpoint(s: &str) -> Result<AttachTarget, AppError> {
    Ok(AttachTarget::Endpoint(s.to_string()))
}

#[test]
fn parse_u16_follows_std() {
    for s in ["9222", "+9222", "0", "00009222", "65535", "65536", "", "+", "-1", "-0", "92 22", " 9222", "９", "1e3", "99999999999999999999"] {
        assert_eq!(parse_u16(s), s.parse::<u16>().ok(), "input {:?}", s);
    }
}

#[test]
fn decimal_follows_to_string() {
    for n in [0u64, 7, 10, 99, 100, 9222, 65535, 1234567890, u64::MAX] {
        assert_eq!(u64_to_decimal(n), n.to_string());
    }
}

#[test]
fn port_targets_pass_unchanged() {
    assert_eq!(classify_attach_target("9222"), endpoint("9222"));
    assert_eq!(classify_attach_target("+9222"), endpoint("+9222"));
    assert_eq!(classify_attach_target("09222"), endpoint("09222"));
}

#[test]
fn websocket_targets_pass_unchanged() {
    assert_eq!(
        classify_attach_target("ws://127.0.0.1:9222/devtools/browser/abc"),
        endpoint("ws://127.0.0.1:9222/devtools/browser/abc")
    );
    assert_eq!(classify_attach_target("wss://host/x"), endpoint("wss://host/x"));
}

#[test]
fn http_targets_give_their_port() {
    assert_eq!(classify_attach_target("http://localhost:9222"), endpoint("9222"));
    assert_eq!(classify_attach_target("https://127.0.0.1:9229/json/version"), endpoint("9229"));
    assert_eq!(classify_attach_target("http://127.0.0.1:+09223/"), endpoint("9223"));
    assert_eq!(http_port_of("http://a:1:2"), Some(1));
    assert_eq!(http_port_of("http://a:1/x://b:2"), Some(1));
    assert_eq!(http_port_of("http://a/x://b:2"), None);
}

#[test]
fn http_targets_without_port_are_refused() {
    let msg = |t: &str| {
        Err(AppError::ConfigError(format!(
            "Cannot extract port from HTTP URL: {}. Use port number (e.g., 9222) or WebSocket URL instead.",
            t
        )))
    };
    assert_eq!(classify_attach_target("http://localhost"), msg("http://localhost"));
    assert_eq!(classify_attach_target("https://user:pw@host:9222/"), msg("https://user:pw@host:9222/"));
    assert_eq!(classify_attach_target("http://localhost:99999"), msg("http://localhost:99999"));
}

#[test]
fn other_targets_are_app_names() {
    assert_eq!(classify_attach_target("Visual Studio Code"), Ok(AttachTarget::AppName));
    assert_eq!(classify_attach_target("slack"), Ok(AttachTarget::AppName));
    assert_eq!(classify_attach_target("HTTP://x:1"), Ok(AttachTarget::AppName));
    assert_eq!(classify_attach_target(""), Ok(AttachTarget::AppName));
}

#[test]
fn scan_probes_ports_in_order() {
    let mut step = scan_begin();
    let mut probed = Vec::new();
    while let ScanStep::Probe(p) = step {
        probed.push(p);
        step = scan_next(p, p == 9224);
    }
    assert_eq!(probed, vec![9222, 9223, 9224]);
    assert_eq!(step, ScanStep::Connect(9224));
}

#[test]
fn scan_gives_up_after_last_port() {
    let mut step = scan_begin();
    let mut probed = Vec::new();
    while let ScanStep::Probe(p) = step {
        probed.push(p);
        step = scan_next(p, false);
    }
    assert_eq!(probed, vec![9222, 9223, 9224, 9225]);
    assert_eq!(step, ScanStep::GiveUp);
    assert_eq!(scan_next(9222, true), ScanStep::Connect(9222));
}

#[test]
fn no_port_error_message() {
    assert_eq!(
        no_cdp_port_error("Slack"),
        AppError::ConfigError(
            "App 'Slack' found but no active CDP port detected (tried 9222-9225).\nPlease launch the app with --remote-debugging-port=<PORT> and use:\n  actionbook app attach <PORT>"
                .to_string()
        )
    );
}
