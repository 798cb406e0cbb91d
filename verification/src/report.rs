//! What `app list` shows: the lines of its report, with their styles.

use vstd::prelude::*;

use crate::apps::ElectronApp;
use crate::text::{decimal, u64_to_decimal};

verus! {

/// How a piece of text is shown on a terminal.
#[derive(Clone, Copy, Debug, PartialEq, Eq, Structural)]
pub enum Style {
    Plain,
    Yellow,
    BrightGreen,
    BrightCyan,
    BrightWhite,
    Dimmed,
}

/// A piece of a line, shown in one style.
#[derive(Clone, Debug, PartialEq, Eq)]
pub struct Segment {
    pub text: String,
    pub style: Style,
}

/// A line as text pieces with their styles.
pub open spec fn line_view(line: Seq<Segment>) -> Seq<(Seq<char>, Style)> {
    line.map_values(|s: Segment| (s.text@, s.style))
}

/// A report as lines of text pieces with their styles.
pub open spec fn report_view(report: Seq<Vec<Segment>>) -> Seq<Seq<(Seq<char>, Style)>> {
    report.map_values(|l: Vec<Segment>| line_view(l@))
}

/// A line of one piece.
pub open spec fn one(text: Seq<char>, style: Style) -> Seq<(Seq<char>, Style)> {
    seq![(text, style)]
}

/// The lines that describe the application listed at `idx` (counting from 0):
/// its number and name, its path, its version when known, then a blank line.
pub open spec fn entry_lines(idx: nat, app: ElectronApp) -> Seq<Seq<(Seq<char>, Style)>> {
    let head = seq![(decimal(idx + 1) + ". "@, Style::Plain), (app.name@, Style::BrightCyan)];
    let path = seq![("   Path: "@, Style::Plain), (app.path@, Style::Dimmed)];
    let lines = match app.version {
        Some(v) => seq![head, path, seq![("   Version: "@, Style::Plain), (v@, Style::Dimmed)]],
        None => seq![head, path],
    };
    lines.push(Seq::empty())
}

/// The lines of the first `n` applications.
pub open spec fn entries_lines(apps: Seq<ElectronApp>, n: nat) -> Seq<Seq<(Seq<char>, Style)>>
    decreases n,
{
    if n == 0 {
        Seq::empty()
    } else {
        entries_lines(apps, (n - 1) as nat) + entry_lines((n - 1) as nat, apps[n - 1])
    }
}

/// The report shown when no application was found.
pub open spec fn empty_report() -> Seq<Seq<(Seq<char>, Style)>> {
    seq![
        one("No Electron applications detected."@, Style::Yellow),
        one("\nTo control an app, it must be launched with:"@, Style::Plain),
        one("  --remote-debugging-port=9222"@, Style::Plain),
    ]
}

/// The first lines of the report of a non-empty list.
pub open spec fn report_header() -> Seq<Seq<(Seq<char>, Style)>> {
    seq![one("Detected Electron applications:"@, Style::BrightGreen), Seq::empty()]
}

/// The last lines of the report of a non-empty list: how to go on.
pub open spec fn report_footer() -> Seq<Seq<(Seq<char>, Style)>> {
    seq![
        one("To launch an app:"@, Style::BrightWhite),
        one("  actionbook app launch \"App Name\""@, Style::Plain),
        Seq::empty(),
        one("To attach to a running app:"@, Style::BrightWhite),
        one("  actionbook app attach <port>"@, Style::Plain),
    ]
}

/// The whole report of `app list`.
pub open spec fn list_report_spec(apps: Seq<ElectronApp>) -> Seq<Seq<(Seq<char>, Style)>> {
    if apps.len() == 0 {
        empty_report()
    } else {
        report_header() + entries_lines(apps, apps.len()) + report_footer()
    }
}

fn segment(text: &str, style: Style) -> (r: Segment)
    ensures
        r.text@ == text@,
        r.style == style,
{
    Segment { text: String::from_str(text), style }
}

fn line_of(text: &str, style: Style) -> (r: Vec<Segment>)
    ensures
        line_view(r@) == one(text@, style),
{
    let mut l: Vec<Segment> = Vec::new();
    l.push(segment(text, style));
    assert(line_view(l@) =~= one(text@, style));
    l
}

fn blank_line() -> (r: Vec<Segment>)
    ensures
        line_view(r@) == Seq::<(Seq<char>, Style)>::empty(),
{
    let l: Vec<Segment> = Vec::new();
    assert(line_view(l@) =~= Seq::<(Seq<char>, Style)>::empty());
    l
}

fn two_pieces(a: Segment, b: Segment) -> (r: Vec<Segment>)
    ensures
        line_view(r@) == seq![(a.text@, a.style), (b.text@, b.style)],
{
    let ghost ga = (a.text@, a.style);
    let ghost gb = (b.text@, b.style);
    let mut l: Vec<Segment> = Vec::new();
    l.push(a);
    l.push(b);
    assert(line_view(l@) =~= seq![ga, gb]);
    l
}

/// Appends `line` to `report`.
fn push_line(report: &mut Vec<Vec<Segment>>, line: Vec<Segment>)
    ensures
        report_view(final(report)@) == report_view(old(report)@).push(line_view(line@)),
{
    let ghost lv = line_view(line@);
    report.push(line);
    assert(report_view(report@) =~= report_view(old(report)@).push(lv));
}

/// Appends the lines that describe the application listed at `idx`.
fn push_entry(report: &mut Vec<Vec<Segment>>, idx: usize, app: &ElectronApp)
    requires
        idx < u64::MAX,
    ensures
        report_view(final(report)@) == report_view(old(report)@) + entry_lines(idx as nat, *app),
{
    let ghost start = report_view(report@);
    let mut number = u64_to_decimal(idx as u64 + 1);
    number.append(". ");
    let head = two_pieces(Segment { text: number, style: Style::Plain }, segment(app.name.as_str(), Style::BrightCyan));
    push_line(report, head);
    let path = two_pieces(segment("   Path: ", Style::Plain), segment(app.path.as_str(), Style::Dimmed));
    push_line(report, path);
    match &app.version {
        Some(v) => {
            let ver = two_pieces(segment("   Version: ", Style::Plain), segment(v.as_str(), Style::Dimmed));
            push_line(report, ver);
        },
        None => {},
    }
    push_line(report, blank_line());
    assert(report_view(report@) =~= start + entry_lines(idx as nat, *app));
}

/// How many lines describe an application: number and name, path, version
/// when known, and a blank line.
pub open spec fn entry_line_count(app: ElectronApp) -> nat {
    if app.version is Some {
        4
    } else {
        3
    }
}

/// How many lines describe the first `k` applications.
pub open spec fn lines_before(apps: Seq<ElectronApp>, k: nat) -> nat
    decreases k,
{
    if k == 0 {
        0
    } else {
        lines_before(apps, (k - 1) as nat) + entry_line_count(apps[k - 1])
    }
}

/// `lines`, from index `at` on, describe `app` as the `idx`-th (from 0)
/// application: `<idx+1>. <name>`, its path, its version when known, and a
/// blank line.
pub open spec fn listed_at(lines: Seq<Seq<(Seq<char>, Style)>>, at: int, idx: nat, app: ElectronApp) -> bool {
    &&& 0 <= at
    &&& at + entry_line_count(app) <= lines.len()
    &&& lines[at] == seq![(decimal(idx + 1) + ". "@, Style::Plain), (app.name@, Style::BrightCyan)]
    &&& lines[at + 1] == seq![("   Path: "@, Style::Plain), (app.path@, Style::Dimmed)]
    &&& (app.version matches Some(v) ==> lines[at + 2] == seq![("   Version: "@, Style::Plain), (v@, Style::Dimmed)])
    &&& lines[at + entry_line_count(app) - 1] == Seq::<(Seq<char>, Style)>::empty()
}

/// The lines of the first `n` applications are `lines_before(apps, n)` many,
/// and those of the `k`-th begin after the lines of the ones before it.
pub proof fn lemma_entries_layout(apps: Seq<ElectronApp>, n: nat)
    requires
        n <= apps.len(),
    ensures
        entries_lines(apps, n).len() == lines_before(apps, n),
        forall|k: int| #![trigger apps[k]] 0 <= k < n ==> listed_at(entries_lines(apps, n), lines_before(apps, k as nat) as int, k as nat, apps[k]),
    decreases n,
{
    if n > 0 {
        let m = (n - 1) as nat;
        lemma_entries_layout(apps, m);
        let prev = entries_lines(apps, m);
        let last = entry_lines(m, apps[m as int]);
        assert(entries_lines(apps, n) == prev + last);
        assert(last.len() == entry_line_count(apps[m as int]));
        assert forall|k: int| #![trigger apps[k]] 0 <= k < n implies listed_at(entries_lines(apps, n), lines_before(apps, k as nat) as int, k as nat, apps[k]) by {
            if k < m {
                lemma_lines_before_monotone(apps, (k + 1) as nat, m);
                assert(listed_at(prev, lines_before(apps, k as nat) as int, k as nat, apps[k]));
            } else {
                assert(k == m);
            }
        }
    }
}

/// Later applications begin no earlier.
pub proof fn lemma_lines_before_monotone(apps: Seq<ElectronApp>, a: nat, b: nat)
    requires
        a <= b,
    ensures
        lines_before(apps, a) <= lines_before(apps, b),
    decreases b,
{
    if a < b {
        lemma_lines_before_monotone(apps, a, (b - 1) as nat);
    }
}

/// The report of `app list` lists every application, in order: the
/// header, then for the `k`-th application its number `k+1`, name, path,
/// version when known and a blank line, then the footer, and nothing else;
/// with no application it is the hint how to launch one.
pub proof fn lemma_list_report_layout(apps: Seq<ElectronApp>)
    ensures
        apps.len() == 0 ==> list_report_spec(apps) == empty_report(),
        apps.len() > 0 ==> {
            let lines = list_report_spec(apps);
            &&& lines.len() == 7 + lines_before(apps, apps.len() as nat)
            &&& lines.subrange(0, 2) == report_header()
            &&& lines.subrange(lines.len() - 5, lines.len() as int) == report_footer()
            &&& forall|k: int| #![trigger apps[k]] 0 <= k < apps.len() ==> listed_at(lines, 2 + lines_before(apps, k as nat) as int, k as nat, apps[k])
        },
{
    if apps.len() > 0 {
        let n = apps.len() as nat;
        lemma_entries_layout(apps, n);
        let body = entries_lines(apps, n);
        let lines = list_report_spec(apps);
        assert(lines == report_header() + body + report_footer());
        assert(lines.subrange(0, 2) =~= report_header());
        assert(lines.subrange(lines.len() - 5, lines.len() as int) =~= report_footer());
        assert forall|k: int| #![trigger apps[k]] 0 <= k < apps.len() implies listed_at(lines, 2 + lines_before(apps, k as nat) as int, k as nat, apps[k]) by {
            assert(listed_at(body, lines_before(apps, k as nat) as int, k as nat, apps[k]));
            let at = lines_before(apps, k as nat) as int;
            let c = entry_line_count(apps[k]) as int;
            assert(lines[2 + at] == body[at]);
            assert(lines[2 + at + 1] == body[at + 1]);
            assert(lines[2 + at + c - 1] == body[at + c - 1]);
            if apps[k].version is Some {
                assert(lines[2 + at + 2] == body[at + 2]);
            }
        }
    }
}

/// The report that `app list` prints for the applications found, line by line.
pub fn list_report(apps: &Vec<ElectronApp>) -> (r: Vec<Vec<Segment>>)
    ensures
        report_view(r@) == list_report_spec(apps@),
        apps@.len() == 0 ==> report_view(r@) == empty_report(),
        apps@.len() > 0 ==> {
            &&& report_view(r@).len() == 7 + lines_before(apps@, apps@.len() as nat)
            &&& report_view(r@).subrange(0, 2) == report_header()
            &&& report_view(r@).subrange(report_view(r@).len() - 5, report_view(r@).len() as int) == report_footer()
            &&& forall|k: int| #![trigger apps@[k]] 0 <= k < apps@.len() ==> listed_at(report_view(r@), 2 + lines_before(apps@, k as nat) as int, k as nat, apps@[k])
        },
{
    let mut report: Vec<Vec<Segment>> = Vec::new();
    if apps.len() == 0 {
        push_line(&mut report, line_of("No Electron applications detected.", Style::Yellow));
        push_line(&mut report, line_of("\nTo control an app, it must be launched with:", Style::Plain));
        push_line(&mut report, line_of("  --remote-debugging-port=9222", Style::Plain));
        assert(report_view(report@) =~= empty_report());
        proof {
            lemma_list_report_layout(apps@);
        }
        return report;
    }
    push_line(&mut report, line_of("Detected Electron applications:", Style::BrightGreen));
    push_line(&mut report, blank_line());
    assert(report_view(report@) =~= report_header() + entries_lines(apps@, 0));
    let mut i: usize = 0;
    while i < apps.len()
        invariant
            i <= apps@.len(),
            report_view(report@) == report_header() + entries_lines(apps@, i as nat),
        decreases apps@.len() - i,
    {
        push_entry(&mut report, i, &apps[i]);
        assert(report_header() + entries_lines(apps@, (i + 1) as nat) =~= report_header()
            + entries_lines(apps@, i as nat) + entry_lines(i as nat, apps@[i as int]));
        i = i + 1;
    }
    let ghost body = report_view(report@);
    push_line(&mut report, line_of("To launch an app:", Style::BrightWhite));
    push_line(&mut report, line_of("  actionbook app launch \"App Name\"", Style::Plain));
    push_line(&mut report, blank_line());
    push_line(&mut report, line_of("To attach to a running app:", Style::BrightWhite));
    push_line(&mut report, line_of("  actionbook app attach <port>", Style::Plain));
    assert(report_view(report@) =~= body + report_footer());
    proof {
        lemma_list_report_layout(apps@);
    }
    report
}

} // verus!
