//! Tests of session paths, restart decisions and DevTools replies.

use actionbook::cdp::{cdp_reply_accepted, cdp_version_url, is_cdp_version_reply};
use actionbook::error::AppError;
use actionbook::json::{json_get, parse_json_text, JsonDoc, JsonField};
use actionbook::session::{join_path, plan_from_doc, plan_restart, session_file, sessions_dir, RestartPlan};

#[test]
fn session_paths_follow_path_join() {
    assert_eq!(sessions_dir(Some("/home/u")), "/home/u/.actionbook/sessions");
    assert_eq!(sessions_dir(Some("/home/u/")), "/home/u/.actionbook/sessions");
    assert_eq!(sessions_dir(None), "./.actionbook/sessions");
    assert_eq!(session_file(Some("/root"), "default"), "/root/.actionbook/sessions/default.json");
    for (base, p) in [("/a", "b"), ("/a/", "b"), ("", "b"), ("/a", "/b"), ("a", "b/c")] {
        let expected = std::path::Path::new(base).join(p);
        assert_eq!(join_path(base, p), expected.to_str().unwrap());
    }
}

#[test]
fn restart_without_session_file() {
    assert_eq!(plan_restart(None), Err(AppError::BrowserNotRunning));
}

#[test]
fn restart_with_broken_session_file() {
    let err = serde_json::from_str::<serde_json::Value>("{not json").unwrap_err();
    assert_eq!(
        plan_restart(Some("{not json")),
        Err(AppError::ConfigError(format!("Failed to parse session state: {}", err)))
    );
}

#[test]
fn restart_of_custom_app() {
    let text = r#"{"profile_name":"p","cdp_port":9222,"cdp_url":"ws://x","custom_app_path":"/Applications/TestApp.app/Contents/MacOS/TestApp"}"#;
    assert_eq!(
        plan_restart(Some(text)),
        Ok(RestartPlan::CustomApp {
            app_path: "/Applications/TestApp.app/Contents/MacOS/TestApp".to_string(),
            cdp_port: Some(9222),
        })
    );
    // The port is cut to 16 bits, as `as u16` does
    assert_eq!(
        plan_restart(Some(r#"{"custom_app_path":"/x","cdp_port":70000}"#)),
        Ok(RestartPlan::CustomApp { app_path: "/x".to_string(), cdp_port: Some(4464) })
    );
    assert_eq!(
        plan_restart(Some(r#"{"custom_app_path":"/x","cdp_port":"9222"}"#)),
        Ok(RestartPlan::CustomApp { app_path: "/x".to_string(), cdp_port: None })
    );
    assert_eq!(
        plan_restart(Some(r#"{"custom_app_path":"/x","cdp_port":-1}"#)),
        Ok(RestartPlan::CustomApp { app_path: "/x".to_string(), cdp_port: None })
    );
}

#[test]
fn restart_of_browser_session() {
    assert_eq!(plan_restart(Some(r#"{"cdp_port":9222}"#)), Ok(RestartPlan::Browser));
    assert_eq!(plan_restart(Some(r#"{"custom_app_path":null}"#)), Ok(RestartPlan::Browser));
    assert_eq!(plan_restart(Some(r#"{"custom_app_path":42}"#)), Ok(RestartPlan::Browser));
    assert_eq!(plan_restart(Some("[1,2]")), Ok(RestartPlan::Browser));
}

#[test]
fn json_model_keeps_what_is_read() {
    let doc = parse_json_text(r#"{"a":"x","b":7,"c":1.5,"d":[1]}"#).unwrap();
    assert_eq!(json_get(&doc, "a"), Some(&JsonField::Str("x".to_string())));
    assert_eq!(json_get(&doc, "b"), Some(&JsonField::UInt(7)));
    assert_eq!(json_get(&doc, "c"), Some(&JsonField::Other));
    assert_eq!(json_get(&doc, "d"), Some(&JsonField::Other));
    assert_eq!(json_get(&doc, "e"), None);
    assert_eq!(parse_json_text("3").unwrap(), JsonDoc::NotObject);
}

#[test]
fn devtools_reply_judgement() {
    let version = br#"{"Browser":"Chrome/120.0","Protocol-Version":"1.3","webSocketDebuggerUrl":"ws://127.0.0.1:9222/devtools/browser/1"}"#;
    assert!(cdp_reply_accepted(200, version));
    assert!(!cdp_reply_accepted(201, version));
    assert!(!cdp_reply_accepted(299, version));
    assert!(!cdp_reply_accepted(200, br#"{"Protocol-Version":"1.3"}"#));
    assert!(cdp_reply_accepted(200, br#"{"Browser":null}"#));
    assert!(cdp_reply_accepted(200, br#"{"webSocketDebuggerUrl":1}"#));
    assert!(!cdp_reply_accepted(404, version));
    assert!(!cdp_reply_accepted(300, version));
    assert!(!cdp_reply_accepted(200, br#"{"other":1}"#));
    assert!(!cdp_reply_accepted(200, br#"["Browser"]"#));
    assert!(!cdp_reply_accepted(200, b"<html>"));
    assert!(!cdp_reply_accepted(200, b"{\"Browser\":\"\xff\"}"));
}

#[test]
fn devtools_version_url() {
    assert_eq!(cdp_version_url(9222), "http://127.0.0.1:9222/json/version");
    assert_eq!(cdp_version_url(0), "http://127.0.0.1:0/json/version");
}

#[test]
fn test_cdp_port_validation() {
    // CDP port validation requires checking:
    //   - HTTP status is 200
    //   - Response is valid JSON
    //   - JSON contains CDP-specific fields
    let port = 65535;
    assert_eq!(cdp_version_url(port), "http://127.0.0.1:65535/json/version");
    assert!(!cdp_reply_accepted(500, br#"{"Browser":"x"}"#));
    assert!(!cdp_reply_accepted(200, b"not json"));
    assert!(!cdp_reply_accepted(200, br#"{"Browserx":"x"}"#));
    assert!(cdp_reply_accepted(200, br#"{"Browser":"x"}"#));
}

#[test]
fn plan_from_parsed_session_state() {
    let doc = parse_json_text(r#"{"custom_app_path":"/opt/App","cdp_port":9333}"#).unwrap();
    assert_eq!(
        plan_from_doc(&doc),
        RestartPlan::CustomApp { app_path: "/opt/App".to_string(), cdp_port: Some(9333) }
    );
    assert_eq!(plan_from_doc(&JsonDoc::NotObject), RestartPlan::Browser);
}

#[test]
fn version_reply_members() {
    let doc = |t: &str| Some(parse_json_text(t).unwrap());
    assert!(is_cdp_version_reply(&doc(r#"{"webSocketDebuggerUrl":"ws://x"}"#)));
    assert!(is_cdp_version_reply(&doc(r#"{"Browser":"Chrome"}"#)));
    assert!(!is_cdp_version_reply(&doc(r#"{"Protocol-Version":"1.3"}"#)));
    assert!(!is_cdp_version_reply(&None));
}
