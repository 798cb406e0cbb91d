//! Where a profile's session state lies, and what `app restart` does with it.

use vstd::prelude::*;

use crate::error::AppError;
use crate::json::{doc_get, json_get, parse_json_text, serde_json_from_str, JsonDoc, JsonField};
use crate::text::{occurs_at, seq_contains};

verus! {

/// `Path::join` on Unix: an absolute `p` replaces `base`; otherwise `p` is
/// appended, after a `/` unless `base` is empty or already ends with one.
pub open spec fn path_join(base: Seq<char>, p: Seq<char>) -> Seq<char> {
    if p.len() > 0 && p[0] == '/' {
        p
    } else if base.len() > 0 && base.last() != '/' {
        base + seq!['/'] + p
    } else {
        base + p
    }
}

/// Joins two paths as `Path::join` does on Unix.
pub fn join_path(base: &str, p: &str) -> (r: String)
    ensures
        r@ == path_join(base@, p@),
{
    let pn = p.unicode_len();
    if pn > 0 && p.get_char(0) == '/' {
        return String::from_str(p);
    }
    let bn = base.unicode_len();
    let mut r = String::from_str(base);
    if bn > 0 && base.get_char(bn - 1) != '/' {
        r.append("/");
        proof {
            reveal_strlit("/");
        }
    }
    r.append(p);
    r
}

/// The home directory that session paths start from: the user's home, or
/// `.` when it is unknown.
pub open spec fn home_or_dot(home: Option<Seq<char>>) -> Seq<char> {
    match home {
        Some(h) => h,
        None => "."@,
    }
}

/// The directory of the session files: `<home>/.actionbook/sessions`.
pub open spec fn sessions_dir_spec(home: Option<Seq<char>>) -> Seq<char> {
    path_join(path_join(home_or_dot(home), ".actionbook"@), "sessions"@)
}

/// The session file of a profile: `<home>/.actionbook/sessions/<profile>.json`.
pub open spec fn session_file_spec(home: Option<Seq<char>>, profile: Seq<char>) -> Seq<char> {
    path_join(sessions_dir_spec(home), profile + ".json"@)
}

/// The view of an optional string.
pub open spec fn opt_view(s: Option<&str>) -> Option<Seq<char>> {
    match s {
        Some(x) => Some(x@),
        None => None,
    }
}

/// The directory that holds the session files, under `home` (or `.`).
pub fn sessions_dir(home: Option<&str>) -> (r: String)
    ensures
        r@ == sessions_dir_spec(opt_view(home)),
{
    let base = match home {
        Some(h) => h,
        None => ".",
    };
    let dir = join_path(base, ".actionbook");
    join_path(dir.as_str(), "sessions")
}

/// The file that holds the session state of `profile`.
pub fn session_file(home: Option<&str>, profile: &str) -> (r: String)
    ensures
        r@ == session_file_spec(opt_view(home), profile@),
{
    let dir = sessions_dir(home);
    let mut name = String::from_str(profile);
    name.append(".json");
    join_path(dir.as_str(), name.as_str())
}

/// Whatever the home directory, the session files lie in a
/// `.actionbook/sessions` directory; the file of a profile whose name is not
/// an absolute path is `<profile>.json` in it.
pub proof fn lemma_session_paths(home: Option<Seq<char>>, profile: Seq<char>)
    ensures
        seq_contains(sessions_dir_spec(home), ".actionbook/sessions"@),
        !(profile.len() > 0 && profile[0] == '/') ==> session_file_spec(home, profile)
            == sessions_dir_spec(home) + seq!['/'] + profile + ".json"@,
{
    reveal_strlit(".actionbook");
    reveal_strlit("sessions");
    reveal_strlit(".actionbook/sessions");
    reveal_strlit(".json");
    let h = home_or_dot(home);
    let y = if h.len() > 0 && h.last() != '/' { h + seq!['/'] } else { h };
    let d1 = path_join(h, ".actionbook"@);
    assert(d1 =~= y + ".actionbook"@);
    assert(d1.last() == 'k');
    let d2 = sessions_dir_spec(home);
    assert(d2 =~= y + ".actionbook/sessions"@);
    assert(d2.subrange(y.len() as int, (y.len() + ".actionbook/sessions"@.len()) as int) =~= ".actionbook/sessions"@);
    assert(occurs_at(d2, ".actionbook/sessions"@, y.len() as int));
    assert(d2.last() == 's');
    if !(profile.len() > 0 && profile[0] == '/') {
        let n = profile + ".json"@;
        if profile.len() == 0 {
            assert(n[0] == '.');
        } else {
            assert(n[0] == profile[0]);
        }
        assert(session_file_spec(home, profile) =~= d2 + seq!['/'] + profile + ".json"@);
    }
}

/// How `app restart` restarts the session of the profile.
#[derive(Clone, Debug, PartialEq, Eq)]
pub enum RestartPlan {
    /// The session runs a custom application: close it, then launch this
    /// executable again, on the port of the old session when it had one.
    CustomApp { app_path: String, cdp_port: Option<u16> },
    /// The session is an ordinary browser session: restart the browser.
    Browser,
}

/// The custom application path that a session state records, if any: its
/// `custom_app_path` member, when that is a string.
pub open spec fn recorded_app_path(doc: JsonDoc) -> Option<Seq<char>> {
    match doc_get(doc, "custom_app_path"@) {
        Some(JsonField::Str(s)) => Some(s@),
        _ => None,
    }
}

/// The DevTools port that a session state records: its `cdp_port` member,
/// when that is a non-negative integer, cut to 16 bits as `as u16` does.
pub open spec fn recorded_cdp_port(doc: JsonDoc) -> Option<u16> {
    match doc_get(doc, "cdp_port"@) {
        Some(JsonField::UInt(n)) => Some((n % 65536) as u16),
        _ => None,
    }
}

/// Message of a session state that is not valid JSON.
pub open spec fn bad_session_message(err: Seq<char>) -> Seq<char> {
    "Failed to parse session state: "@ + err
}

/// Decides how `app restart` proceeds, from the text of the profile's
/// session file (`None` when it could not be read).
pub fn plan_restart(session_text: Option<&str>) -> (r: Result<RestartPlan, AppError>)
    ensures
        session_text is None ==> r == Err::<RestartPlan, AppError>(AppError::BrowserNotRunning),
        session_text matches Some(t) ==> match serde_json_from_str(t@) {
            Err(e) => r matches Err(AppError::ConfigError(m)) && m@ == bad_session_message(e),
            Ok(doc) => match recorded_app_path(doc) {
                Some(p) => r matches Ok(RestartPlan::CustomApp { app_path, cdp_port })
                    && app_path@ == p && cdp_port == recorded_cdp_port(doc),
                None => r == Ok::<RestartPlan, AppError>(RestartPlan::Browser),
            },
        },
        session_text matches Some(t) ==> (serde_json_from_str(t@) matches Ok(doc)
            ==> (doc_get(doc, "custom_app_path"@) matches Some(JsonField::Str(s))
            ==> (r matches Ok(RestartPlan::CustomApp { app_path, .. }) && app_path@ == s@))),
{
    let text = match session_text {
        Some(t) => t,
        None => return Err(AppError::BrowserNotRunning),
    };
    let doc = match parse_json_text(text) {
        Ok(d) => d,
        Err(e) => {
            let mut m = String::from_str("Failed to parse session state: ");
            m.append(e.as_str());
            return Err(AppError::ConfigError(m));
        },
    };
    Ok(plan_from_doc(&doc))
}

/// The restart that a parsed session state calls for: the recorded custom
/// application with its recorded port, or else a browser restart.
pub fn plan_from_doc(doc: &JsonDoc) -> (r: RestartPlan)
    ensures
        match recorded_app_path(*doc) {
            Some(p) => r matches RestartPlan::CustomApp { app_path, cdp_port }
                && app_path@ == p && cdp_port == recorded_cdp_port(*doc),
            None => r == RestartPlan::Browser,
        },
        doc_get(*doc, "custom_app_path"@) matches Some(JsonField::Str(s)) ==> (r matches RestartPlan::CustomApp { app_path, cdp_port }
            && app_path@ == s@
            && cdp_port == (match doc_get(*doc, "cdp_port"@) {
                Some(JsonField::UInt(n)) => Some((n % 65536) as u16),
                _ => None::<u16>,
            })),
        !(doc_get(*doc, "custom_app_path"@) matches Some(JsonField::Str(_))) ==> r == RestartPlan::Browser,
{
    proof {
        lemma_recorded_session(*doc);
    }
    let app_path = match json_get(doc, "custom_app_path") {
        Some(JsonField::Str(s)) => s.clone(),
        _ => return RestartPlan::Browser,
    };
    let cdp_port = match json_get(doc, "cdp_port") {
        Some(JsonField::UInt(n)) => Some((*n % 65536) as u16),
        _ => None,
    };
    RestartPlan::CustomApp { app_path, cdp_port }
}

/// What a session state records: the custom application path is exactly
/// the string in its `custom_app_path` member (nothing when that member is
/// missing or not a string), and the port is its `cdp_port` member's
/// non-negative integer modulo 65536.
pub proof fn lemma_recorded_session(doc: JsonDoc)
    ensures
        doc_get(doc, "custom_app_path"@) matches Some(JsonField::Str(s)) ==> recorded_app_path(doc) == Some(s@),
        !(doc_get(doc, "custom_app_path"@) matches Some(JsonField::Str(_))) ==> recorded_app_path(doc) is None,
        doc_get(doc, "cdp_port"@) matches Some(JsonField::UInt(n)) ==> recorded_cdp_port(doc) == Some((n % 65536) as u16),
        !(doc_get(doc, "cdp_port"@) matches Some(JsonField::UInt(_))) ==> recorded_cdp_port(doc) is None,
{
}

} // verus!
