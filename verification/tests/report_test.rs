//! Tests of the report of `app list`.

use actionbook::apps::ElectronApp;
use actionbook::report::{list_report, Segment, Style};

fn seg(text: &str, style: Style) -> Segment {
    Segment { text: text.to_string(), style }
}

#[test]
fn empty_list_report() {
    assert_eq!(
        list_report(&vec![]),
        vec![
            vec![seg("No Electron applications detected.", Style::Yellow)],
            vec![seg("\nTo control an app, it must be launched with:", Style::Plain)],
            vec![seg("  --remote-debugging-port=9222", Style::Plain)],
        ]
    );
}

#[test]
fn list_report_of_two_apps() {
    let apps = vec![
        ElectronApp {
            name: "Slack".to_string(),
            path: "/Applications/Slack.app".to_string(),
            path_is_utf8: true,
            version: Some("4.36.140".to_string()),
        },
        ElectronApp {
            name: "Discord".to_string(),
            path: "/opt/Discord".to_string(),
            path_is_utf8: true,
            version: None,
        },
    ];
    assert_eq!(
        list_report(&apps),
        vec![
            vec![seg("Detected Electron applications:", Style::BrightGreen)],
            vec![],
            vec![seg("1. ", Style::Plain), seg("Slack", Style::BrightCyan)],
            vec![seg("   Path: ", Style::Plain), seg("/Applications/Slack.app", Style::Dimmed)],
            vec![seg("   Version: ", Style::Plain), seg("4.36.140", Style::Dimmed)],
            vec![],
            vec![seg("2. ", Style::Plain), seg("Discord", Style::BrightCyan)],
            vec![seg("   Path: ", Style::Plain), seg("/opt/Discord", Style::Dimmed)],
            vec![],
            vec![seg("To launch an app:", Style::BrightWhite)],
            vec![seg("  actionbook app launch \"App Name\"", Style::Plain)],
            vec![],
            vec![seg("To attach to a running app:", Style::BrightWhite)],
            vec![seg("  actionbook app attach <port>", Style::Plain)],
        ]
    );
}
