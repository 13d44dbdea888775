//! The UI process launcher's decision logic: which executable candidates to
//! try and in what order, how environment toggles are read, what arguments
//! the UI is spawned with, and how a liveness query's output is classified.
//!
//! The caller probes the filesystem, the search path and the process table;
//! the ordering and classification decisions are verified here.

use vstd::prelude::*;

use crate::messages::path_join_spec;
use crate::text::{chars_of, join_with, seq_views, str_eq, string_of, trim_str, trimmed};

verus! {

/// The loopback port the development UI server listens on.
pub const DEV_SERVER_PORT: u16 = 5176;

/// Milliseconds between two ticks of the poll wait loop.
pub const POLL_STEP_MS: u64 = 200;

/// Milliseconds between two probes while waiting for the development server.
pub const DEV_SERVER_STEP_MS: u64 = 150;

/// True when the needle occurs in the haystack starting at position `i`.
pub open spec fn contains_at(hay: Seq<char>, needle: Seq<char>, i: int) -> bool {
    0 <= i && i + needle.len() <= hay.len() && hay.subrange(i, i + needle.len()) == needle
}

/// True when the needle occurs somewhere in the haystack.
pub open spec fn contains_seq(hay: Seq<char>, needle: Seq<char>) -> bool {
    exists|i: int| contains_at(hay, needle, i)
}

/// Substring search.
pub fn contains_str(hay: &str, needle: &str) -> (r: bool)
    ensures
        r == contains_seq(hay@, needle@),
{
    let hv = chars_of(hay);
    let nv = chars_of(needle);
    let hlen = hv.len();
    let nlen = nv.len();
    if nlen > hlen {
        proof {
            assert(forall|i: int| !contains_at(hay@, needle@, i));
        }
        return false;
    }
    let mut i: usize = 0;
    while i <= hlen - nlen
        invariant
            hv@ == hay@,
            nv@ == needle@,
            hlen == hv@.len(),
            nlen == nv@.len(),
            nlen <= hlen,
            i <= hlen - nlen + 1,
            forall|p: int| 0 <= p < i ==> !contains_at(hay@, needle@, p),
        decreases hlen - nlen - i + 1,
    {
        let mut j: usize = 0;
        while j < nlen && hv[i + j] == nv[j]
            invariant
                hv@ == hay@,
                nv@ == needle@,
                hlen == hv@.len(),
                nlen == nv@.len(),
                i + nlen <= hlen,
                j <= nlen,
                forall|q: int| 0 <= q < j ==> hay@[i + q] == needle@[q],
            decreases nlen - j,
        {
            j += 1;
        }
        if j == nlen {
            proof {
                assert(hay@.subrange(i as int, i + nlen) =~= needle@);
                assert(contains_at(hay@, needle@, i as int));
            }
            return true;
        }
        i += 1;
    }
    proof {
        assert forall|p: int| !contains_at(hay@, needle@, p) by {
            if 0 <= p && p + needle@.len() <= hay@.len() {
                assert(p < i);
            }
        }
    }
    false
}

/// A character folded to ASCII lower case.
pub open spec fn lower_char(c: char) -> char {
    if 'A' <= c && c <= 'Z' {
        (((c as u8) + 0x20) as char)
    } else {
        c
    }
}

/// A sequence folded to ASCII lower case.
pub open spec fn lower_seq(s: Seq<char>) -> Seq<char> {
    s.map_values(|c: char| lower_char(c))
}

/// Folds a string to ASCII lower case.
pub fn to_ascii_lower(s: &str) -> (r: String)
    ensures
        r@ == lower_seq(s@),
{
    let v = chars_of(s);
    let n = v.len();
    let mut out: Vec<char> = Vec::new();
    let mut i: usize = 0;
    while i < n
        invariant
            n == v@.len(),
            v@ == s@,
            i <= n,
            out@.len() == i,
            forall|j: int| 0 <= j < i ==> out@[j] == lower_char(s@[j]),
        decreases n - i,
    {
        let c = v[i];
        if 'A' <= c && c <= 'Z' {
            out.push(((c as u8) + 0x20) as char);
        } else {
            out.push(c);
        }
        i += 1;
    }
    proof {
        assert(out@ =~= lower_seq(s@));
    }
    string_of(&out)
}

/// How a process-table listing is read: the process is taken as running
/// when the listing mentions the process id and none of the markers that
/// the process table prints when it found nothing.
pub open spec fn listing_shows_running(output: Seq<char>, pid_str: Seq<char>) -> bool {
    let lower = lower_seq(output);
    let found_nothing = contains_seq(lower, "no tasks"@) || contains_seq(lower, "info"@)
        || contains_seq(output, "\u{4fe1}\u{606f}"@) || contains_seq(
        output,
        "\u{6ca1}\u{6709}"@,
    ) || contains_seq(output, "\u{65e0}"@) || contains_seq(output, "\u{672a}"@) || contains_seq(
        output,
        "\u{627e}\u{4e0d}\u{5230}"@,
    );
    !found_nothing && contains_seq(output, pid_str)
}

/// Classifies the output of a process-table query for the given process id.
pub fn tasklist_indicates_running(output: &str, pid_str: &str) -> (r: bool)
    ensures
        r == listing_shows_running(output@, pid_str@),
{
    let lower = to_ascii_lower(output);
    let found_nothing = contains_str(lower.as_str(), "no tasks") || contains_str(
        lower.as_str(),
        "info",
    ) || contains_str(output, "\u{4fe1}\u{606f}") || contains_str(output, "\u{6ca1}\u{6709}")
        || contains_str(output, "\u{65e0}") || contains_str(output, "\u{672a}") || contains_str(
        output,
        "\u{627e}\u{4e0d}\u{5230}",
    );
    !found_nothing && contains_str(output, pid_str)
}

/// Whether a development build of the UI is explicitly requested: the mode
/// value says `debug` or `dev`, or no mode is set and this is a debug build.
pub open spec fn debug_requested(mode: Option<Seq<char>>, debug_build: bool) -> bool {
    let m = match mode {
        Some(v) => v,
        None => Seq::<char>::empty(),
    };
    m == "debug"@ || m == "dev"@ || (m.len() == 0 && debug_build)
}

/// Decides whether the development UI is preferred.
pub fn explicit_debug(mode: &Option<String>, debug_build: bool) -> (r: bool)
    ensures
        r == debug_requested(
            match mode {
                Some(v) => Some(v@),
                None => None,
            },
            debug_build,
        ),
{
    match mode {
        Some(v) => {
            str_eq(v.as_str(), "debug") || str_eq(v.as_str(), "dev") || (v.as_str().is_empty()
                && debug_build)
        },
        None => {
            proof {
                reveal_strlit("debug");
                reveal_strlit("dev");
                assert("debug"@.len() == 5);
                assert("dev"@.len() == 3);
                assert(debug_build == debug_requested(None, debug_build));
            }
            debug_build
        },
    }
}

/// Whether starting the development server automatically is enabled: it is
/// unless the toggle, trimmed, says `0`, `false` or `off` in any case.
pub open spec fn auto_dev_allowed(value: Option<Seq<char>>) -> bool {
    let raw = match value {
        Some(v) => v,
        None => "1"@,
    };
    let t = trimmed(raw);
    !(t == "0"@ || lower_seq(t) == "false"@ || lower_seq(t) == "off"@)
}

/// Decides whether the development server may be started automatically.
pub fn auto_dev_enabled(value: &Option<String>) -> (r: bool)
    ensures
        r == auto_dev_allowed(
            match value {
                Some(v) => Some(v@),
                None => None,
            },
        ),
{
    let t = match value {
        Some(v) => trim_str(v.as_str()),
        None => trim_str("1"),
    };
    let lower = to_ascii_lower(t.as_str());
    !(str_eq(t.as_str(), "0") || str_eq(lower.as_str(), "false") || str_eq(lower.as_str(), "off"))
}

/// The wait bound for the development server to start listening: the
/// configured value, or eight seconds.
pub fn dev_wait_budget(env_ms: Option<u64>) -> (r: u64)
    ensures
        r == match env_ms {
            Some(v) => v,
            None => 8000u64,
        },
{
    match env_ms {
        Some(v) => v,
        None => 8000,
    }
}

/// The names the UI executable may carry.
pub fn ui_candidate_names() -> (r: Vec<String>)
    ensures
        seq_views(r@) =~= seq!["sanshu-ui"@, "\u{7b49}\u{4e00}\u{4e0b}"@],
{
    let mut names: Vec<String> = Vec::new();
    names.push(String::from_str("sanshu-ui"));
    names.push(String::from_str("\u{7b49}\u{4e00}\u{4e0b}"));
    names
}

/// The arguments a UI process is spawned with: the request file to read and
/// the response file to write.
pub fn spawn_args(request_file: &str, response_file: &str) -> (r: Vec<String>)
    ensures
        seq_views(r@) =~= seq![
            "--mcp-request"@,
            request_file@,
            "--response-file"@,
            response_file@,
        ],
{
    let mut args: Vec<String> = Vec::new();
    args.push(String::from_str("--mcp-request"));
    args.push(String::from_str(request_file));
    args.push(String::from_str("--response-file"));
    args.push(String::from_str(response_file));
    args
}

/// Every candidate name joined under one directory, in order.
pub open spec fn joined_under(dir: Seq<char>, names: Seq<Seq<char>>) -> Seq<Seq<char>> {
    names.map_values(|n: Seq<char>| path_join_spec(dir, n))
}

fn push_joined(out: &mut Vec<String>, dir: &str, names: &Vec<String>)
    ensures
        seq_views(final(out)@) == seq_views(old(out)@) + joined_under(dir@, seq_views(names@)),
{
    let n = names.len();
    let mut i: usize = 0;
    while i < n
        invariant
            n == names@.len(),
            i <= n,
            seq_views(out@) == seq_views(old(out)@) + joined_under(dir@, seq_views(names@)).take(
                i as int,
            ),
        decreases n - i,
    {
        let ghost pre = seq_views(out@);
        let joined = crate::messages::path_join(dir, names[i].as_str());
        out.push(joined);
        proof {
            assert(seq_views(out@) =~= pre.push(path_join_spec(dir@, names@[i as int]@)));
            assert(joined_under(dir@, seq_views(names@)).take(i + 1) =~= joined_under(
                dir@,
                seq_views(names@),
            ).take(i as int).push(path_join_spec(dir@, names@[i as int]@)));
        }
        i += 1;
    }
    proof {
        assert(joined_under(dir@, seq_views(names@)).take(n as int) =~= joined_under(
            dir@,
            seq_views(names@),
        ));
        assert(seq_views(out@) =~= seq_views(old(out)@) + joined_under(dir@, seq_views(names@)));
    }
}

/// The ordered list of UI executable candidates, first match winning: an
/// explicit override first; the development build directories when a debug
/// UI is preferred; the release build directories; the directory of the
/// running executable; finally the bare names, to be resolved through the
/// system's search path.
pub open spec fn candidate_list(
    override_path: Option<Seq<char>>,
    prefer_debug: bool,
    repo_dir: Seq<char>,
    exe_target_dir: Option<Seq<char>>,
    exe_dir: Option<Seq<char>>,
    names: Seq<Seq<char>>,
) -> Seq<Seq<char>> {
    (match override_path {
        Some(p) => seq![p],
        None => Seq::<Seq<char>>::empty(),
    }) + (if prefer_debug {
        joined_under(path_join_spec(path_join_spec(repo_dir, "target"@), "debug"@), names) + (
        match exe_target_dir {
            Some(t) => joined_under(path_join_spec(t, "debug"@), names),
            None => Seq::<Seq<char>>::empty(),
        })
    } else {
        Seq::<Seq<char>>::empty()
    }) + joined_under(path_join_spec(path_join_spec(repo_dir, "target"@), "release"@), names) + (
    match exe_target_dir {
        Some(t) => joined_under(path_join_spec(t, "release"@), names),
        None => Seq::<Seq<char>>::empty(),
    }) + (match exe_dir {
        Some(d) => joined_under(d, names),
        None => Seq::<Seq<char>>::empty(),
    }) + names
}

/// Builds the ordered candidate list the caller probes.
pub fn build_candidate_list(
    override_path: &Option<String>,
    prefer_debug: bool,
    repo_dir: &str,
    exe_target_dir: &Option<String>,
    exe_dir: &Option<String>,
    names: &Vec<String>,
) -> (r: Vec<String>)
    ensures
        seq_views(r@) == candidate_list(
            match override_path {
                Some(p) => Some(p@),
                None => None,
            },
            prefer_debug,
            repo_dir@,
            match exe_target_dir {
                Some(t) => Some(t@),
                None => None,
            },
            match exe_dir {
                Some(d) => Some(d@),
                None => None,
            },
            seq_views(names@),
        ),
{
    let mut out: Vec<String> = Vec::new();
    match override_path {
        Some(p) => {
            out.push(p.clone());
        },
        None => {},
    }
    let repo_target = crate::messages::path_join(repo_dir, "target");
    if prefer_debug {
        let repo_debug = crate::messages::path_join(repo_target.as_str(), "debug");
        push_joined(&mut out, repo_debug.as_str(), names);
        match exe_target_dir {
            Some(t) => {
                let exe_debug = crate::messages::path_join(t.as_str(), "debug");
                push_joined(&mut out, exe_debug.as_str(), names);
            },
            None => {},
        }
    }
    let repo_release = crate::messages::path_join(repo_target.as_str(), "release");
    push_joined(&mut out, repo_release.as_str(), names);
    match exe_target_dir {
        Some(t) => {
            let exe_release = crate::messages::path_join(t.as_str(), "release");
            push_joined(&mut out, exe_release.as_str(), names);
        },
        None => {},
    }
    match exe_dir {
        Some(d) => {
            push_joined(&mut out, d.as_str(), names);
        },
        None => {},
    }
    let n = names.len();
    let ghost before_names = seq_views(out@);
    let mut i: usize = 0;
    while i < n
        invariant
            n == names@.len(),
            i <= n,
            seq_views(out@) == before_names + seq_views(names@).take(i as int),
        decreases n - i,
    {
        let ghost pre = seq_views(out@);
        out.push(names[i].clone());
        proof {
            assert(seq_views(out@) =~= pre.push(names@[i as int]@));
            assert(seq_views(names@).take(i + 1) =~= seq_views(names@).take(i as int).push(
                names@[i as int]@,
            ));
        }
        i += 1;
    }
    proof {
        assert(seq_views(names@).take(n as int) =~= seq_views(names@));
        assert(seq_views(out@) =~= candidate_list(
            match override_path {
                Some(p) => Some(p@),
                None => None,
            },
            prefer_debug,
            repo_dir@,
            match exe_target_dir {
                Some(t) => Some(t@),
                None => None,
            },
            match exe_dir {
                Some(d) => Some(d@),
                None => None,
            },
            seq_views(names@),
        ));
    }
    out
}

/// Picks the first candidate the caller found usable: resolution order is
/// first match wins.
pub fn choose_ui_command(candidates: &Vec<String>, usable: &Vec<bool>) -> (r: Option<String>)
    requires
        candidates@.len() == usable@.len(),
    ensures
        match r {
            Some(p) => exists|i: int|
                0 <= i < usable@.len() && usable@[i] && p@ == (#[trigger] candidates@[i])@ && (
                forall|j: int| 0 <= j < i ==> !usable@[j]),
            None => forall|i: int| 0 <= i < usable@.len() ==> !usable@[i],
        },
{
    let n = candidates.len();
    let mut i: usize = 0;
    while i < n
        invariant
            n == candidates@.len(),
            candidates@.len() == usable@.len(),
            i <= n,
            forall|j: int| 0 <= j < i ==> !usable@[j],
        decreases n - i,
    {
        if usable[i] {
            return Some(candidates[i].clone());
        }
        i += 1;
    }
    None
}

/// A name in quotation marks, as a name list displays it.
pub open spec fn quoted_name(s: Seq<char>) -> Seq<char> {
    seq!['"'] + s + seq!['"']
}

/// The error text when no UI executable was found anywhere, listing the
/// names that were tried.
pub open spec fn ui_not_found_text(names: Seq<Seq<char>>) -> Seq<char> {
    "UI command not found. Tried names: ["@ + join_with(
        names.map_values(|n: Seq<char>| quoted_name(n)),
        ", "@,
    )
        + "]\nYou can explicitly set UI path via env: SANSHU_UI_PATH or MCP_UI_PATH\nPlease ensure either:\n1. UI is installed / in PATH (e.g. sanshu-ui)\n2. Or UI exe is in the same directory as sanshu-mcp\n3. Or set SANSHU_UI_PATH/MCP_UI_PATH to full path of the UI executable"@
}

/// Builds the "UI not found" error text.
pub fn ui_not_found_message(names: &Vec<String>) -> (r: String)
    ensures
        r@ == ui_not_found_text(seq_views(names@)),
{
    let mut quoted: Vec<String> = Vec::new();
    let n = names.len();
    let mut i: usize = 0;
    while i < n
        invariant
            n == names@.len(),
            i <= n,
            seq_views(quoted@) == seq_views(names@).take(i as int).map_values(
                |s: Seq<char>| quoted_name(s),
            ),
        decreases n - i,
    {
        let mut q = String::from_str("\"");
        q.append(names[i].as_str());
        q.append("\"");
        let ghost pre = seq_views(quoted@);
        proof {
            reveal_strlit("\"");
            assert(q@ =~= quoted_name(names@[i as int]@));
        }
        quoted.push(q);
        proof {
            assert(seq_views(quoted@) =~= pre.push(quoted_name(names@[i as int]@)));
            assert(seq_views(names@).take(i + 1).map_values(|s: Seq<char>| quoted_name(s))
                =~= pre.push(quoted_name(names@[i as int]@)));
        }
        i += 1;
    }
    proof {
        assert(seq_views(names@).take(n as int) =~= seq_views(names@));
    }
    let mut out = String::from_str("UI command not found. Tried names: [");
    let joined = crate::text::join_strings(&quoted, ", ");
    out.append(joined.as_str());
    out.append(
        "]\nYou can explicitly set UI path via env: SANSHU_UI_PATH or MCP_UI_PATH\nPlease ensure either:\n1. UI is installed / in PATH (e.g. sanshu-ui)\n2. Or UI exe is in the same directory as sanshu-mcp\n3. Or set SANSHU_UI_PATH/MCP_UI_PATH to full path of the UI executable",
    );
    proof {
        assert(out@ =~= ui_not_found_text(seq_views(names@)));
    }
    out
}

/// Normalizes a blocking UI run's standard output into a response: an
/// output with no visible characters means cancellation, anything else is
/// the trimmed output.
pub fn blocking_output_to_response(stdout: &str) -> (r: String)
    ensures
        r@ == if trimmed(stdout@).len() == 0 {
            "CANCELLED"@
        } else {
            trimmed(stdout@)
        },
{
    let t = trim_str(stdout);
    if t.as_str().is_empty() {
        String::from_str("CANCELLED")
    } else {
        t
    }
}

} // verus!
