//! Self-update requests, the update offer, and how the server exits.

use vstd::prelude::*;
use crate::pages::{update_menu, update_menu_html};
use crate::text::{is_prefix, split_char, split_on, starts_with, str_equal};

verus! {

/// A space, a tab or a carriage return.
pub open spec fn is_blank(c: char) -> bool {
    c == ' ' || c == '\t' || c == '\r'
}

/// `s` without its leading blanks.
pub open spec fn trim_front(s: Seq<char>) -> Seq<char>
    decreases s.len(),
{
    if s.len() > 0 && is_blank(s[0]) {
        trim_front(s.subrange(1, s.len() as int))
    } else {
        s
    }
}

/// `s` without its trailing blanks.
pub open spec fn trim_back(s: Seq<char>) -> Seq<char>
    decreases s.len(),
{
    if s.len() > 0 && is_blank(s.last()) {
        trim_back(s.drop_last())
    } else {
        s
    }
}

/// The version a manifest line declares: the line, without its surrounding
/// blanks, is `version = "` followed by the version and a closing `"`.
pub open spec fn line_version(line: Seq<char>) -> Option<Seq<char>> {
    let t = trim_back(trim_front(line));
    let p = "version = \""@;
    if is_prefix(p, t) && t.len() > p.len() && t.last() == '"' {
        Some(t.subrange(p.len() as int, t.len() - 1))
    } else {
        None
    }
}

/// The version declared by the first line, from `from` on, that declares one.
pub open spec fn first_line_version(lines: Seq<Seq<char>>, from: int) -> Option<Seq<char>>
    decreases lines.len() - from,
{
    if from < 0 || from >= lines.len() {
        None
    } else {
        match line_version(lines[from]) {
            Some(v) => Some(v),
            None => first_line_version(lines, from + 1),
        }
    }
}

/// The version that a published manifest declares: that of its first line which
/// declares one.
pub open spec fn manifest_version(manifest: Seq<char>) -> Option<Seq<char>> {
    first_line_version(split_on(manifest, '\n'), 0)
}

/// The version declared by one manifest line, if it declares one.
fn version_of_line(line: &str) -> (r: Option<String>)
    ensures
        crate::ocr::opt_view(r) == line_version(line@),
{
    let n = line.unicode_len();
    let mut a: usize = 0;
    assert(line@.subrange(0, n as int) =~= line@);
    while a < n && (line.get_char(a) == ' ' || line.get_char(a) == '\t' || line.get_char(a) == '\r')
        invariant
            n == line@.len(),
            a <= n,
            trim_front(line@.subrange(a as int, n as int)) == trim_front(line@),
        decreases n - a,
    {
        assert(line@.subrange(a as int, n as int).subrange(1, n - a) =~= line@.subrange(
            a + 1,
            n as int,
        ));
        a = a + 1;
    }
    assert(trim_front(line@.subrange(a as int, n as int)) == line@.subrange(a as int, n as int));
    let ghost front = line@.subrange(a as int, n as int);
    let mut b: usize = n;
    while b > a && (line.get_char(b - 1) == ' ' || line.get_char(b - 1) == '\t' || line.get_char(b - 1)
        == '\r')
        invariant
            n == line@.len(),
            a <= b <= n,
            front == line@.subrange(a as int, n as int),
            trim_back(line@.subrange(a as int, b as int)) == trim_back(front),
        decreases b - a,
    {
        assert(line@.subrange(a as int, b as int).drop_last() =~= line@.subrange(
            a as int,
            b - 1,
        ));
        b = b - 1;
    }
    let t = line.substring_char(a, b);
    assert(trim_back(t@) == t@);
    assert(t@ == trim_back(trim_front(line@)));
    proof {
        reveal_strlit("version = \"");
    }
    let m = t.unicode_len();
    if starts_with(t, "version = \"") && m > 11 && t.get_char(m - 1) == '"' {
        Some(t.substring_char(11, m - 1).to_owned())
    } else {
        None
    }
}

/// The version that a published manifest declares, as its first line of the
/// form `version = "…"` gives it.
pub fn published_version(manifest: &str) -> (r: Option<String>)
    ensures
        crate::ocr::opt_view(r) == manifest_version(manifest@),
{
    let lines = split_char(manifest, '\n');
    let ghost l = lines@.map_values(|p: String| p@);
    let n = lines.len();
    let mut i: usize = 0;
    while i < n
        invariant
            n == lines.len(),
            l == lines@.map_values(|p: String| p@),
            l == split_on(manifest@, '\n'),
            i <= n,
            first_line_version(l, 0) == first_line_version(l, i as int),
        decreases n - i,
    {
        assert(l[i as int] == lines@[i as int]@);
        let v = version_of_line(lines[i].as_str());
        if v.is_some() {
            return v;
        }
        i = i + 1;
    }
    None
}

/// The running version is out of date when the published one differs from it.
pub fn is_out_of_date(local_version: &str, published: &str) -> (r: bool)
    ensures
        r == (published@ != local_version@),
{
    !str_equal(published, local_version)
}

/// What checking the published version found.
#[derive(Clone, Copy, Debug, PartialEq, Eq, Structural)]
pub enum UpdateCheck {
    /// The published version could not be fetched.
    Unreachable,
    UpToDate,
    Available,
}

/// How an update request is answered.
#[derive(Clone, Copy, Debug, PartialEq, Eq, Structural)]
pub enum UpdateReply {
    /// 200 "Starting update...": the update signal is sent.
    Starting,
    /// 409 "Update already sent!".
    AlreadySent,
    /// 405 "Already up to date!".
    UpToDate,
    /// 503 "Failed to make request to …".
    Unreachable,
}

/// Answers an update request; the update signal, while it has not been sent, is
/// sent when an update is available.
pub fn request_update(check: UpdateCheck, signal_unsent: &mut bool) -> (r: UpdateReply)
    ensures
        r == (match check {
            UpdateCheck::Unreachable => UpdateReply::Unreachable,
            UpdateCheck::UpToDate => UpdateReply::UpToDate,
            UpdateCheck::Available => if *old(signal_unsent) {
                UpdateReply::Starting
            } else {
                UpdateReply::AlreadySent
            },
        }),
        *final(signal_unsent) == (*old(signal_unsent) && check != UpdateCheck::Available),
{
    match check {
        UpdateCheck::Unreachable => UpdateReply::Unreachable,
        UpdateCheck::UpToDate => UpdateReply::UpToDate,
        UpdateCheck::Available => if *signal_unsent {
            *signal_unsent = false;
            UpdateReply::Starting
        } else {
            UpdateReply::AlreadySent
        },
    }
}

/// The update signal is sent at most once: after an update has started, a
/// further request, whatever the check finds, starts nothing.
pub proof fn lemma_update_starts_once(first: UpdateCheck, second: UpdateCheck, signal_unsent: bool)
    requires
        first == UpdateCheck::Available,
    ensures
        ({
            let after = signal_unsent && first != UpdateCheck::Available;
            let second_reply = match second {
                UpdateCheck::Unreachable => UpdateReply::Unreachable,
                UpdateCheck::UpToDate => UpdateReply::UpToDate,
                UpdateCheck::Available => if after {
                    UpdateReply::Starting
                } else {
                    UpdateReply::AlreadySent
                },
            };
            second_reply != UpdateReply::Starting
        }),
{
}

/// The text of an answer to an update request; `url` is the address of the
/// published version.
pub fn update_reply_text(r: UpdateReply, url: &str) -> (t: String)
    ensures
        t@ == (match r {
            UpdateReply::Starting => "Starting update..."@,
            UpdateReply::AlreadySent => "Update already sent!"@,
            UpdateReply::UpToDate => "Already up to date!"@,
            UpdateReply::Unreachable => "Failed to make request to "@ + url@,
        }),
{
    match r {
        UpdateReply::Starting => "Starting update...".to_owned(),
        UpdateReply::AlreadySent => "Update already sent!".to_owned(),
        UpdateReply::UpToDate => "Already up to date!".to_owned(),
        UpdateReply::Unreachable => {
            let mut t = "Failed to make request to ".to_owned();
            t.append(url);
            t
        },
    }
}

/// The update box of the settings page: an offer from the running version to the
/// published one when the running one is out of date, a notice otherwise.
pub fn update_menu_for(out_of_date: bool, local_version: &str, remote_version: &str) -> (r: String)
    ensures
        out_of_date ==> r@ == update_menu(local_version@, remote_version@),
        !out_of_date ==> r@ == "<div class=\"settings-box\"><div class=\"settings-title\"><h2>Update</h2><div class=\"subtext-settings\"><h6>Froggi is up to date!</h6></div></div></div>"@,
{
    if out_of_date {
        update_menu_html(local_version, remote_version)
    } else {
        "<div class=\"settings-box\"><div class=\"settings-title\"><h2>Update</h2><div class=\"subtext-settings\"><h6>Froggi is up to date!</h6></div></div></div>".to_owned()
    }
}

/// Why the server stopped serving.
#[derive(Clone, Copy, Debug, PartialEq, Eq, Structural)]
pub enum StopCause {
    /// Ctrl+C.
    Interrupt,
    /// SIGTERM.
    Terminate,
    /// A restart was requested from the settings page.
    Restart,
    /// A shutdown was requested from the settings page.
    Shutdown,
    /// An update was started.
    Update,
}

/// The process exit code a stop asks for: 10 to restart, 0 to shut down, 11 to
/// update; none for a signal, after which the server returns normally.
pub fn exit_code_for(cause: StopCause) -> (r: Option<i32>)
    ensures
        r == (match cause {
            StopCause::Restart => Some(10i32),
            StopCause::Shutdown => Some(0i32),
            StopCause::Update => Some(11i32),
            _ => None,
        }),
{
    match cause {
        StopCause::Restart => Some(10),
        StopCause::Shutdown => Some(0),
        StopCause::Update => Some(11),
        _ => None,
    }
}

/// The last log line: a restart ends it with a blank line.
pub fn farewell_line(code: Option<i32>) -> (r: &'static str)
    ensures
        r@ == (if code == Some(10i32) {
            "Shut down gracefully\n"@
        } else {
            "Shut down gracefully"@
        }),
{
    match code {
        Some(10) => "Shut down gracefully\n",
        _ => "Shut down gracefully",
    }
}

} // verus!
