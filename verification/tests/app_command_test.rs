//! Tests of the `app` command's decision logic.

use actionbook::apps::{find_app_for_attach, find_app_for_launch, launch_path, ElectronApp};
use actionbook::command::{launch_port, text_to_enter, TextAction};
use actionbook::error::AppError;
use actionbook::session::sessions_dir;
use actionbook::text::{lowercase, str_contains};

fn app(name: &str, path: &str) -> ElectronApp {
    ElectronApp {
        name: name.to_string(),
        path: path.to_string(),
        path_is_utf8: true,
        version: None,
    }
}

#[test]
fn test_app_name_matching() {
    // Case-insensitive app name matching
    let apps = vec![
        app("Visual Studio Code", "/Applications/Visual Studio Code.app/Contents/MacOS/Electron"),
        app("Slack", "/Applications/Slack.app/Contents/MacOS/Slack"),
    ];

    let app_name = &apps[0].name;

    // Should match lowercase
    let lowercase_name = lowercase(app_name);
    assert!(
        str_contains(&lowercase(app_name), &lowercase_name),
        "Should match lowercase"
    );
    assert_eq!(find_app_for_launch(&apps, &lowercase_name), Ok(0));

    // Should match first word
    if let Some(first_word) = app_name.split_whitespace().next() {
        assert!(
            str_contains(&lowercase(app_name), &lowercase(first_word)),
            "Should match first word"
        );
        assert_eq!(find_app_for_launch(&apps, first_word), Ok(0));
        assert_eq!(find_app_for_attach(&apps, first_word), Ok(0));
    }
}

#[test]
fn test_session_path_consistency() {
    // The session directory is ~/.actionbook/sessions
    let home = dirs::home_dir().map(|p| p.to_string_lossy().into_owned());
    let expected_sessions_dir = sessions_dir(home.as_deref());
    assert!(expected_sessions_dir.contains(".actionbook/sessions"));
}

#[test]
fn test_type_fill_text_validation() {
    // text is required unless --ref is provided
    assert_eq!(
        text_to_enter(TextAction::Type, None, None),
        Err(AppError::InvalidArgument(
            "Text is required. Use --ref <ID> to type into a snapshot reference, or provide text directly."
                .to_string()
        ))
    );
    assert_eq!(
        text_to_enter(TextAction::Fill, None, None),
        Err(AppError::InvalidArgument(
            "Text is required. Use --ref <ID> to fill a snapshot reference, or provide text directly."
                .to_string()
        ))
    );
    // With a reference, the text may be left out
    assert_eq!(text_to_enter(TextAction::Type, None, Some("e12")), Ok(String::new()));
    // An empty text is a text (None != Some(""))
    assert_eq!(text_to_enter(TextAction::Fill, Some(""), None), Ok(String::new()));
    assert_eq!(text_to_enter(TextAction::Fill, Some("hello"), Some("e3")), Ok("hello".to_string()));
}

#[test]
fn launch_matches_path_and_ignores_case() {
    let apps = vec![
        app("Code", "/usr/share/code/code"),
        app("Discord", "/opt/Discord/Discord"),
    ];
    assert_eq!(find_app_for_launch(&apps, "DISCORD"), Ok(1));
    assert_eq!(find_app_for_launch(&apps, "share/code"), Ok(0));
    assert_eq!(find_app_for_launch(&apps, "opt/"), Ok(1));
    assert_eq!(find_app_for_launch(&apps, ""), Ok(0));
    assert_eq!(
        find_app_for_launch(&apps, "Notion"),
        Err(AppError::ConfigError(
            "Application 'Notion' not found. Run 'actionbook app list' to see available apps."
                .to_string()
        ))
    );
}

#[test]
fn launch_skips_paths_that_are_not_utf8() {
    let mut a = app("Tool", "/opt/weird/bin");
    a.path_is_utf8 = false;
    let apps = vec![a, app("Other", "/opt/weird/other")];
    assert_eq!(find_app_for_launch(&apps, "weird"), Ok(1));
    assert_eq!(
        launch_path(&apps[0]),
        Err(AppError::ConfigError("Invalid app path".to_string()))
    );
    assert_eq!(launch_path(&apps[1]), Ok("/opt/weird/other".to_string()));
}

#[test]
fn attach_matches_names_only() {
    let apps = vec![app("Slack", "/opt/notion/slack")];
    assert_eq!(find_app_for_attach(&apps, "SLA"), Ok(0));
    assert_eq!(
        find_app_for_attach(&apps, "notion"),
        Err(AppError::ConfigError(
            "Could not find app 'notion'. Use port number or WebSocket URL instead.".to_string()
        ))
    );
}

#[test]
fn launch_port_from_cdp_option() {
    assert_eq!(launch_port(Some("9223")), Some(9223));
    assert_eq!(launch_port(Some("ws://127.0.0.1:9222/devtools")), None);
    assert_eq!(launch_port(Some("70000")), None);
    assert_eq!(launch_port(None), None);
}

#[test]
fn ascii_uppercase_query_selects_same_app() {
    let apps = vec![app("Slack", "/opt/slack"), app("Visual Studio Code", "/opt/code")];
    assert_eq!(find_app_for_launch(&apps, "VISUAL STUDIO"), Ok(1));
    assert_eq!(find_app_for_launch(&apps, "visual studio"), Ok(1));
    assert_eq!(find_app_for_attach(&apps, "SLACK"), Ok(0));
    assert_eq!(lowercase("Hello, World! 42"), "hello, world! 42");
}
