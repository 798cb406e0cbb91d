//! Installed Electron applications and how a name given on the command
//! line selects one of them.

use vstd::prelude::*;

use crate::error::AppError;
use crate::text::{
    ascii_lower, ascii_upper, is_ascii_seq, lemma_ascii_lowercase_substring, lemma_contains_self,
    lowercase, seq_contains, str_contains, str_lowercase,
};

verus! {

/// An Electron application found on this machine.
#[derive(Clone, Debug, PartialEq, Eq)]
pub struct ElectronApp {
    /// Display name of the application.
    pub name: String,
    /// Path of the executable, as `Path::display` shows it.
    pub path: String,
    /// Whether the path is valid UTF-8 (then `Path::to_str` gives `path`).
    pub path_is_utf8: bool,
    /// Version of the application, when known.
    pub version: Option<String>,
}

/// Index of the first application at or after `from` that satisfies `p`.
pub open spec fn first_index(apps: Seq<ElectronApp>, p: spec_fn(ElectronApp) -> bool, from: int) -> Option<int>
    decreases apps.len() - from,
{
    if from < 0 || from >= apps.len() {
        None
    } else if p(apps[from]) {
        Some(from)
    } else {
        first_index(apps, p, from + 1)
    }
}

/// `first_index` is the least satisfying index, and `None` when none satisfies `p`.
pub proof fn lemma_first_index(apps: Seq<ElectronApp>, p: spec_fn(ElectronApp) -> bool, from: int)
    requires
        0 <= from,
    ensures
        first_index(apps, p, from) matches Some(i) ==> {
            &&& from <= i < apps.len()
            &&& p(apps[i])
            &&& forall|j: int| from <= j < i ==> !p(#[trigger] apps[j])
        },
        first_index(apps, p, from) is None ==> forall|j: int| from <= j < apps.len() ==> !p(#[trigger] apps[j]),
    decreases apps.len() - from,
{
    if from < apps.len() && !p(apps[from]) {
        lemma_first_index(apps, p, from + 1);
    }
}

/// Launch selects an application whose lowercased name, or lowercased UTF-8
/// path, contains the lowercased query.
pub open spec fn launch_matches(query: Seq<char>) -> spec_fn(ElectronApp) -> bool {
    |a: ElectronApp|
        seq_contains(str_lowercase(a.name@), str_lowercase(query)) || (a.path_is_utf8
            && seq_contains(str_lowercase(a.path@), str_lowercase(query)))
}

/// Attach selects an application whose lowercased name contains the lowercased query.
pub open spec fn attach_matches(query: Seq<char>) -> spec_fn(ElectronApp) -> bool {
    |a: ElectronApp| seq_contains(str_lowercase(a.name@), str_lowercase(query))
}

/// Message of a launch whose query matches no application.
pub open spec fn launch_not_found_message(query: Seq<char>) -> Seq<char> {
    "Application '"@ + query + "' not found. Run 'actionbook app list' to see available apps."@
}

/// Message of an attach whose target names no application.
pub open spec fn attach_not_found_message(target: Seq<char>) -> Seq<char> {
    "Could not find app '"@ + target + "'. Use port number or WebSocket URL instead."@
}

/// Selects the application to launch: the first one whose name or path
/// contains `app_name`, ignoring case.
pub fn find_app_for_launch(apps: &Vec<ElectronApp>, app_name: &str) -> (r: Result<usize, AppError>)
    ensures
        first_index(apps@, launch_matches(app_name@), 0) matches Some(i) ==> r == Ok::<usize, AppError>(i as usize),
        first_index(apps@, launch_matches(app_name@), 0) is None ==> (r matches Err(AppError::ConfigError(m)) && m@ == launch_not_found_message(app_name@)),
        r matches Ok(i) ==> {
            &&& i < apps@.len()
            &&& (seq_contains(str_lowercase(apps@[i as int].name@), str_lowercase(app_name@))
                || (apps@[i as int].path_is_utf8 && seq_contains(str_lowercase(apps@[i as int].path@), str_lowercase(app_name@))))
            &&& forall|j: int| #![trigger apps@[j]] 0 <= j < i ==> !(seq_contains(str_lowercase(apps@[j].name@), str_lowercase(app_name@))
                || (apps@[j].path_is_utf8 && seq_contains(str_lowercase(apps@[j].path@), str_lowercase(app_name@))))
        },
        r is Err ==> forall|j: int| #![trigger apps@[j]] 0 <= j < apps@.len() ==> !(seq_contains(str_lowercase(apps@[j].name@), str_lowercase(app_name@))
            || (apps@[j].path_is_utf8 && seq_contains(str_lowercase(apps@[j].path@), str_lowercase(app_name@)))),
{
    proof {
        lemma_launch_selection(apps@, app_name@);
    }
    let query = lowercase(app_name);
    let mut i: usize = 0;
    while i < apps.len()
        invariant
            i <= apps@.len(),
            query@ == str_lowercase(app_name@),
            first_index(apps@, launch_matches(app_name@), 0) == first_index(apps@, launch_matches(app_name@), i as int),
        decreases apps@.len() - i,
    {
        let app = &apps[i];
        let name_lower = lowercase(app.name.as_str());
        let mut hit = str_contains(name_lower.as_str(), query.as_str());
        if !hit && app.path_is_utf8 {
            let path_lower = lowercase(app.path.as_str());
            hit = str_contains(path_lower.as_str(), query.as_str());
        }
        if hit {
            proof {
                assert(launch_matches(app_name@)(apps@[i as int]));
                assert(first_index(apps@, launch_matches(app_name@), 0) == Some(i as int));
                lemma_launch_selection(apps@, app_name@);
            }
            return Ok(i);
        }
        i = i + 1;
    }
    let mut m = String::from_str("Application '");
    m.append(app_name);
    m.append("' not found. Run 'actionbook app list' to see available apps.");
    Err(AppError::ConfigError(m))
}

/// Selects the application to attach to: the first one whose name contains
/// `target`, ignoring case.
pub fn find_app_for_attach(apps: &Vec<ElectronApp>, target: &str) -> (r: Result<usize, AppError>)
    ensures
        first_index(apps@, attach_matches(target@), 0) matches Some(i) ==> r == Ok::<usize, AppError>(i as usize),
        first_index(apps@, attach_matches(target@), 0) is None ==> (r matches Err(AppError::ConfigError(m)) && m@ == attach_not_found_message(target@)),
        r matches Ok(i) ==> {
            &&& i < apps@.len()
            &&& seq_contains(str_lowercase(apps@[i as int].name@), str_lowercase(target@))
            &&& forall|j: int| 0 <= j < i ==> !#[trigger] seq_contains(str_lowercase(apps@[j].name@), str_lowercase(target@))
        },
        r is Err ==> forall|j: int| 0 <= j < apps@.len() ==> !#[trigger] seq_contains(str_lowercase(apps@[j].name@), str_lowercase(target@)),
{
    proof {
        lemma_attach_selection(apps@, target@);
    }
    let query = lowercase(target);
    let mut i: usize = 0;
    while i < apps.len()
        invariant
            i <= apps@.len(),
            query@ == str_lowercase(target@),
            first_index(apps@, attach_matches(target@), 0) == first_index(apps@, attach_matches(target@), i as int),
        decreases apps@.len() - i,
    {
        let name_lower = lowercase(apps[i].name.as_str());
        if str_contains(name_lower.as_str(), query.as_str()) {
            proof {
                lemma_attach_selection(apps@, target@);
            }
            return Ok(i);
        }
        i = i + 1;
    }
    let mut m = String::from_str("Could not find app '");
    m.append(target);
    m.append("'. Use port number or WebSocket URL instead.");
    Err(AppError::ConfigError(m))
}

/// The path to launch an application with; an error when the path is not UTF-8.
pub fn launch_path(app: &ElectronApp) -> (r: Result<String, AppError>)
    ensures
        app.path_is_utf8 ==> (r matches Ok(p) && p@ == app.path@),
        !app.path_is_utf8 ==> (r matches Err(AppError::ConfigError(m)) && m@ == "Invalid app path"@),
{
    if app.path_is_utf8 {
        Ok(app.path.clone())
    } else {
        Err(AppError::ConfigError(String::from_str("Invalid app path")))
    }
}


/// Selection ignores case: two queries with the same lowercase form select
/// the same application, for launch and for attach.
pub proof fn lemma_selection_ignores_case(apps: Seq<ElectronApp>, q1: Seq<char>, q2: Seq<char>)
    requires
        str_lowercase(q1) == str_lowercase(q2),
    ensures
        first_index(apps, launch_matches(q1), 0) == first_index(apps, launch_matches(q2), 0),
        first_index(apps, attach_matches(q1), 0) == first_index(apps, attach_matches(q2), 0),
{
    assert(launch_matches(q1) =~= launch_matches(q2));
    assert(attach_matches(q1) =~= attach_matches(q2));
}

/// The name of an installed application always selects an application, for
/// launch and for attach: that one or one listed before it.
pub proof fn lemma_own_name_selects(apps: Seq<ElectronApp>, k: int)
    requires
        0 <= k < apps.len(),
    ensures
        first_index(apps, launch_matches(apps[k].name@), 0) matches Some(i) && i <= k,
        first_index(apps, attach_matches(apps[k].name@), 0) matches Some(i) && i <= k,
{
    let q = apps[k].name@;
    lemma_contains_self(str_lowercase(q));
    assert(launch_matches(q)(apps[k]));
    assert(attach_matches(q)(apps[k]));
    lemma_first_index(apps, launch_matches(q), 0);
    lemma_first_index(apps, attach_matches(q), 0);
}

/// An ASCII query and its ASCII uppercase form select the same application,
/// for launch and for attach (given what `to_lowercase` does on ASCII text,
/// as `lowercase` states it).
pub proof fn lemma_ascii_uppercase_selects_same(apps: Seq<ElectronApp>, q: Seq<char>)
    requires
        is_ascii_seq(q),
        str_lowercase(q) == q.map_values(|c: char| ascii_lower(c)),
        str_lowercase(q.map_values(|c: char| ascii_upper(c))) == q.map_values(|c: char| ascii_upper(c)).map_values(|c: char| ascii_lower(c)),
    ensures
        first_index(apps, launch_matches(q.map_values(|c: char| ascii_upper(c))), 0) == first_index(apps, launch_matches(q), 0),
        first_index(apps, attach_matches(q.map_values(|c: char| ascii_upper(c))), 0) == first_index(apps, attach_matches(q), 0),
{
    let up = q.map_values(|c: char| ascii_upper(c));
    assert(up.map_values(|c: char| ascii_lower(c)) =~= q.map_values(|c: char| ascii_lower(c)));
    lemma_selection_ignores_case(apps, up, q);
}

/// A part of an installed application's ASCII name, such as its first word,
/// selects that application or one listed before it, for launch and for
/// attach (given what `to_lowercase` does on ASCII text, as `lowercase`
/// states it).
pub proof fn lemma_ascii_name_part_selects(apps: Seq<ElectronApp>, k: int, w: Seq<char>)
    requires
        0 <= k < apps.len(),
        is_ascii_seq(apps[k].name@),
        seq_contains(apps[k].name@, w),
        str_lowercase(apps[k].name@) == apps[k].name@.map_values(|c: char| ascii_lower(c)),
        str_lowercase(w) == w.map_values(|c: char| ascii_lower(c)),
    ensures
        first_index(apps, launch_matches(w), 0) matches Some(i) && i <= k,
        first_index(apps, attach_matches(w), 0) matches Some(i) && i <= k,
{
    lemma_ascii_lowercase_substring(apps[k].name@, w);
    assert(launch_matches(w)(apps[k]));
    assert(attach_matches(w)(apps[k]));
    lemma_first_index(apps, launch_matches(w), 0);
    lemma_first_index(apps, attach_matches(w), 0);
}

/// What launch selects: an application whose lowercased name, or lowercased
/// UTF-8 path, contains the lowercased query, with no earlier application
/// doing so; nothing only when no application does.
pub proof fn lemma_launch_selection(apps: Seq<ElectronApp>, q: Seq<char>)
    ensures
        first_index(apps, launch_matches(q), 0) matches Some(i) ==> {
            &&& 0 <= i < apps.len()
            &&& (seq_contains(str_lowercase(apps[i].name@), str_lowercase(q))
                || (apps[i].path_is_utf8 && seq_contains(str_lowercase(apps[i].path@), str_lowercase(q))))
            &&& forall|j: int| #![trigger apps[j]] 0 <= j < i ==> !(seq_contains(str_lowercase(apps[j].name@), str_lowercase(q))
                || (apps[j].path_is_utf8 && seq_contains(str_lowercase(apps[j].path@), str_lowercase(q))))
        },
        first_index(apps, launch_matches(q), 0) is None ==> forall|j: int| #![trigger apps[j]] 0 <= j < apps.len() ==> !(seq_contains(str_lowercase(apps[j].name@), str_lowercase(q))
            || (apps[j].path_is_utf8 && seq_contains(str_lowercase(apps[j].path@), str_lowercase(q)))),
{
    lemma_first_index(apps, launch_matches(q), 0);
    if let Some(i) = first_index(apps, launch_matches(q), 0) {
        assert(launch_matches(q)(apps[i]));
        assert forall|j: int| #![trigger apps[j]] 0 <= j < i implies !(seq_contains(str_lowercase(apps[j].name@), str_lowercase(q))
            || (apps[j].path_is_utf8 && seq_contains(str_lowercase(apps[j].path@), str_lowercase(q)))) by {
            assert(!launch_matches(q)(apps[j]));
        }
    } else {
        assert forall|j: int| #![trigger apps[j]] 0 <= j < apps.len() implies !(seq_contains(str_lowercase(apps[j].name@), str_lowercase(q))
            || (apps[j].path_is_utf8 && seq_contains(str_lowercase(apps[j].path@), str_lowercase(q)))) by {
            assert(!launch_matches(q)(apps[j]));
        }
    }
}

/// What attach selects: an application whose lowercased name contains the
/// lowercased target, with no earlier application's name doing so; nothing
/// only when no application's name does.
pub proof fn lemma_attach_selection(apps: Seq<ElectronApp>, q: Seq<char>)
    ensures
        first_index(apps, attach_matches(q), 0) matches Some(i) ==> {
            &&& 0 <= i < apps.len()
            &&& seq_contains(str_lowercase(apps[i].name@), str_lowercase(q))
            &&& forall|j: int| 0 <= j < i ==> !#[trigger] seq_contains(str_lowercase(apps[j].name@), str_lowercase(q))
        },
        first_index(apps, attach_matches(q), 0) is None ==> forall|j: int| 0 <= j < apps.len() ==> !#[trigger] seq_contains(str_lowercase(apps[j].name@), str_lowercase(q)),
{
    lemma_first_index(apps, attach_matches(q), 0);
    if let Some(i) = first_index(apps, attach_matches(q), 0) {
        assert(attach_matches(q)(apps[i]));
        assert forall|j: int| 0 <= j < i implies !#[trigger] seq_contains(str_lowercase(apps[j].name@), str_lowercase(q)) by {
            assert(!attach_matches(q)(apps[j]));
        }
    } else {
        assert forall|j: int| 0 <= j < apps.len() implies !#[trigger] seq_contains(str_lowercase(apps[j].name@), str_lowercase(q)) by {
            assert(!attach_matches(q)(apps[j]));
        }
    }
}

/// A part of an installed application's ASCII path, such as its bundle
/// name, selects that application or one listed before it for launch,
/// whatever the case of its letters (given what `to_lowercase` does on ASCII
/// text, as `lowercase` states it).
pub proof fn lemma_ascii_path_part_selects(apps: Seq<ElectronApp>, k: int, w: Seq<char>)
    requires
        0 <= k < apps.len(),
        apps[k].path_is_utf8,
        is_ascii_seq(apps[k].path@),
        is_ascii_seq(w),
        seq_contains(apps[k].path@.map_values(|c: char| ascii_lower(c)), w.map_values(|c: char| ascii_lower(c))),
        str_lowercase(apps[k].path@) == apps[k].path@.map_values(|c: char| ascii_lower(c)),
        str_lowercase(w) == w.map_values(|c: char| ascii_lower(c)),
    ensures
        first_index(apps, launch_matches(w), 0) matches Some(i) && i <= k,
{
    lemma_launch_selection(apps, w);
    assert(seq_contains(str_lowercase(apps[k].path@), str_lowercase(w)));
    let name_hit = seq_contains(str_lowercase(apps[k].name@), str_lowercase(w));
    assert(name_hit || (apps[k].path_is_utf8 && seq_contains(str_lowercase(apps[k].path@), str_lowercase(w))));
}

} // verus!
