//! What the clipboard hands over, read as file paths: the normalization of
//! `file://` URLs, the filtering of a URI list, media-type guessing from a
//! file name, and path-display normalization.  Whether a candidate path
//! actually exists is probed by the caller.

use vstd::prelude::*;

use crate::pantry::mime_of_extension;
use crate::text::{chars_of, seq_views, string_of, trim_chars, trimmed};

verus! {

/// What percent-decoding a string yields, decoded as UTF-8 with invalid
/// sequences replaced: a function of the input characters alone.
pub uninterp spec fn percent_decoded_lossy(s: Seq<char>) -> Seq<char>;

/// Relies on `percent_encoding::percent_decode_str` and
/// `PercentDecode::decode_utf8_lossy`: every `%` followed by two hex digits
/// is decoded, and the result is read as UTF-8 with invalid sequences
/// replaced.  The result depends on the input alone.
#[verifier::external_body]
fn percent_decode_utf8_lossy(s: &str) -> (r: String)
    ensures
        r@ == percent_decoded_lossy(s@),
{
    percent_encoding::percent_decode_str(s).decode_utf8_lossy().into_owned()
}

/// True when the sequence starts with the given prefix.
pub open spec fn starts_with(s: Seq<char>, prefix: Seq<char>) -> bool {
    s.len() >= prefix.len() && s.take(prefix.len() as int) == prefix
}

fn starts_with_str(s: &Vec<char>, prefix: &str) -> (r: bool)
    ensures
        r == starts_with(s@, prefix@),
{
    let p = chars_of(prefix);
    let plen = p.len();
    if s.len() < plen {
        return false;
    }
    let mut i: usize = 0;
    while i < plen
        invariant
            p@ == prefix@,
            plen == p@.len(),
            plen <= s@.len(),
            i <= plen,
            forall|j: int| 0 <= j < i ==> s@[j] == prefix@[j],
        decreases plen - i,
    {
        if s[i] != p[i] {
            assert(s@.take(plen as int)[i as int] != prefix@[i as int]);
            return false;
        }
        i += 1;
    }
    proof {
        assert(s@.take(plen as int) =~= prefix@);
    }
    true
}

/// An ASCII letter.
pub open spec fn is_ascii_alpha(c: char) -> bool {
    ('a' <= c && c <= 'z') || ('A' <= c && c <= 'Z')
}

/// A decoded absolute path that is really a Windows drive path (as in
/// `/C:/...`) with its leading slash dropped.
pub open spec fn drive_fixup(s: Seq<char>) -> Seq<char> {
    if s.len() >= 4 && s[0] == '/' && is_ascii_alpha(s[1]) && s[2] == ':' && (s[3] == '/' || s[3]
        == '\\') {
        s.skip(1)
    } else {
        s
    }
}

/// The path a `file://` URL names: the scheme and an optional `localhost`
/// dropped, a leading slash ensured, the rest percent-decoded, and a
/// Windows drive path unwrapped.
pub open spec fn file_url_path(s: Seq<char>) -> Seq<char> {
    let rest = s.skip("file://"@.len() as int);
    let rest2 = if starts_with(rest, "localhost"@) {
        rest.skip("localhost"@.len() as int)
    } else {
        rest
    };
    let absolute = if rest2.len() > 0 && rest2[0] == '/' {
        rest2
    } else {
        seq!['/'] + rest2
    };
    drive_fixup(percent_decoded_lossy(absolute))
}

/// Reads one clipboard line as a path candidate: the path of a `file://`
/// URL, or the trimmed line itself.  Whether it exists is for the caller.
pub fn parse_file_url_or_path(line: &str) -> (r: String)
    ensures
        ({
            let raw = trimmed(line@);
            r@ == if starts_with(raw, "file://"@) {
                file_url_path(raw)
            } else {
                raw
            }
        }),
{
    let lv = chars_of(line);
    let raw = trim_chars(&lv);
    proof {
        reveal_strlit("file://");
        reveal_strlit("localhost");
        reveal_strlit("/");
    }
    if !starts_with_str(&raw, "file://") {
        return string_of(&raw);
    }
    let n = raw.len();
    let mut rest: Vec<char> = Vec::new();
    let mut i: usize = 7;
    while i < n
        invariant
            n == raw@.len(),
            7 <= i <= n,
            "file://"@.len() == 7,
            rest@ == raw@.skip(7).take(i - 7),
        decreases n - i,
    {
        rest.push(raw[i]);
        proof {
            assert(rest@ =~= raw@.skip(7).take(i - 7 + 1));
        }
        i += 1;
    }
    proof {
        assert(rest@ =~= raw@.skip(7));
    }
    let rest2: Vec<char> = if starts_with_str(&rest, "localhost") {
        let m = rest.len();
        let mut v: Vec<char> = Vec::new();
        let mut k: usize = 9;
        while k < m
            invariant
                m == rest@.len(),
                9 <= k <= m,
                "localhost"@.len() == 9,
                v@ == rest@.skip(9).take(k - 9),
            decreases m - k,
        {
            v.push(rest[k]);
            proof {
                assert(v@ =~= rest@.skip(9).take(k - 9 + 1));
            }
            k += 1;
        }
        proof {
            assert(v@ =~= rest@.skip(9));
        }
        v
    } else {
        rest
    };
    let absolute: Vec<char> = if rest2.len() > 0 && rest2[0] == '/' {
        rest2
    } else {
        let mut v: Vec<char> = Vec::new();
        v.push('/');
        let m = rest2.len();
        let mut k: usize = 0;
        while k < m
            invariant
                m == rest2@.len(),
                k <= m,
                v@ == seq!['/'] + rest2@.take(k as int),
            decreases m - k,
        {
            v.push(rest2[k]);
            proof {
                assert(v@ =~= seq!['/'] + rest2@.take(k + 1));
            }
            k += 1;
        }
        proof {
            assert(v@ =~= seq!['/'] + rest2@);
        }
        v
    };
    let decoded = percent_decode_utf8_lossy(string_of(&absolute).as_str());
    let dv = chars_of(decoded.as_str());
    let fixed: Vec<char> = if dv.len() >= 4 && dv[0] == '/' && (('a' <= dv[1] && dv[1] <= 'z') || (
    'A' <= dv[1] && dv[1] <= 'Z')) && dv[2] == ':' && (dv[3] == '/' || dv[3] == '\\') {
        let m = dv.len();
        let mut v: Vec<char> = Vec::new();
        let mut k: usize = 1;
        while k < m
            invariant
                m == dv@.len(),
                1 <= k <= m,
                v@ == dv@.skip(1).take(k - 1),
            decreases m - k,
        {
            v.push(dv[k]);
            proof {
                assert(v@ =~= dv@.skip(1).take(k - 1 + 1));
            }
            k += 1;
        }
        proof {
            assert(v@ =~= dv@.skip(1));
        }
        v
    } else {
        dv
    };
    proof {
        assert(fixed@ =~= drive_fixup(percent_decoded_lossy(absolute@)));
        assert(fixed@ =~= file_url_path(raw@));
    }
    string_of(&fixed)
}

/// The path candidates hidden in clipboard text, given its lines: each line
/// trimmed, blank lines dropped, a leading `copy` or `cut` marker dropped,
/// comment lines skipped, and each survivor read as a URL or plain path.
pub open spec fn path_candidates_of(lines: Seq<Seq<char>>) -> Seq<Seq<char>> {
    let kept = lines.map_values(|l: Seq<char>| trimmed(l)).filter(|l: Seq<char>| l.len() > 0);
    let body = if kept.len() > 0 && (kept[0] == "copy"@ || kept[0] == "cut"@) {
        kept.drop_first()
    } else {
        kept
    };
    body.filter(|l: Seq<char>| l[0] != '#').map_values(
        |l: Seq<char>|
            if starts_with(l, "file://"@) {
                file_url_path(l)
            } else {
                l
            },
    )
}

/// Extracts the path candidates from clipboard text split into lines.
pub fn extract_file_path_candidates(lines: &Vec<String>) -> (r: Vec<String>)
    ensures
        seq_views(r@) == path_candidates_of(seq_views(lines@)),
{
    let mut kept: Vec<String> = Vec::new();
    let n = lines.len();
    let mut i: usize = 0;
    while i < n
        invariant
            n == lines@.len(),
            i <= n,
            seq_views(kept@) == seq_views(lines@).take(i as int).map_values(
                |l: Seq<char>| trimmed(l),
            ).filter(|l: Seq<char>| l.len() > 0),
            forall|p: int|
                0 <= p < kept@.len() ==> trimmed(#[trigger] seq_views(kept@)[p])
                    == seq_views(kept@)[p],
        decreases n - i,
    {
        let lv = chars_of(lines[i].as_str());
        let t = trim_chars(&lv);
        let ghost pre = seq_views(kept@);
        if t.len() > 0 {
            kept.push(string_of(&t));
        }
        proof {
            lemma_trimmed_idempotent(lines@[i as int]@);
            let prefix = seq_views(lines@).take(i as int).map_values(|l: Seq<char>| trimmed(l));
            let step = seq_views(lines@).take(i + 1).map_values(|l: Seq<char>| trimmed(l));
            assert(step =~= prefix.push(trimmed(lines@[i as int]@)));
            prefix.lemma_filter_push(trimmed(lines@[i as int]@), |l: Seq<char>| l.len() > 0);
            if t.len() > 0 {
                assert(seq_views(kept@) =~= pre.push(trimmed(lines@[i as int]@)));
            }
        }
        i += 1;
    }
    proof {
        assert(seq_views(lines@).take(n as int) =~= seq_views(lines@));
    }
    let start: usize = if kept.len() > 0 && (crate::text::str_eq(kept[0].as_str(), "copy")
        || crate::text::str_eq(kept[0].as_str(), "cut")) {
        1
    } else {
        0
    };
    let ghost all_kept = seq_views(kept@);
    let ghost body = if all_kept.len() > 0 && (all_kept[0] == "copy"@ || all_kept[0] == "cut"@) {
        all_kept.drop_first()
    } else {
        all_kept
    };
    let mut out: Vec<String> = Vec::new();
    let m = kept.len();
    let mut j: usize = start;
    while j < m
        invariant
            m == kept@.len(),
            start <= j <= m,
            start <= 1,
            body == seq_views(kept@).skip(start as int),
            forall|p: int|
                start <= p < kept@.len() ==> (#[trigger] seq_views(kept@)[p]).len() > 0,
            forall|p: int|
                0 <= p < kept@.len() ==> trimmed(#[trigger] seq_views(kept@)[p])
                    == seq_views(kept@)[p],
            seq_views(out@) == body.take(j - start).filter(|l: Seq<char>| l[0] != '#').map_values(
                |l: Seq<char>|
                    if starts_with(l, "file://"@) {
                        file_url_path(l)
                    } else {
                        l
                    },
            ),
        decreases m - j,
    {
        let lv = chars_of(kept[j].as_str());
        let ghost pre = seq_views(out@);
        proof {
            reveal_strlit("#");
        }
        if !(lv.len() > 0 && lv[0] == '#') {
            let candidate = parse_file_url_or_path(kept[j].as_str());
            out.push(candidate);
            proof {
                assert(trimmed(seq_views(kept@)[j as int]) == seq_views(kept@)[j as int]);
            }
        }
        proof {
            let f = |l: Seq<char>| l[0] != '#';
            let g = |l: Seq<char>|
                if starts_with(l, "file://"@) {
                    file_url_path(l)
                } else {
                    l
                };
            assert(body.take(j - start + 1) =~= body.take(j - start).push(
                seq_views(kept@)[j as int],
            ));
            body.take(j - start).lemma_filter_push(seq_views(kept@)[j as int], f);
            if seq_views(kept@)[j as int][0] != '#' {
                assert(seq_views(out@) =~= pre.push(g(seq_views(kept@)[j as int])));
                assert(body.take(j - start + 1).filter(f).map_values(g) =~= pre.push(
                    g(seq_views(kept@)[j as int]),
                ));
            } else {
                assert(body.take(j - start + 1).filter(f).map_values(g) =~= pre);
            }
        }
        j += 1;
    }
    proof {
        assert(body.take(m - start) =~= body);
    }
    out
}

/// Leading whitespace never survives `trim_front`.
proof fn lemma_trim_front_no_leading(s: Seq<char>)
    ensures
        crate::text::trim_front(s).len() > 0 ==> !crate::text::is_space_char(
            crate::text::trim_front(s)[0],
        ),
    decreases s.len(),
{
    if s.len() > 0 && crate::text::is_space_char(s[0]) {
        lemma_trim_front_no_leading(s.drop_first());
    }
}

/// `trim_back` only removes from the end: the head survives, and no
/// trailing whitespace is left.
proof fn lemma_trim_back_prefix(s: Seq<char>)
    ensures
        crate::text::trim_back(s).len() > 0 ==> crate::text::trim_back(s)[0] == s[0],
        crate::text::trim_back(s).len() > 0 ==> !crate::text::is_space_char(
            crate::text::trim_back(s).last(),
        ),
    decreases s.len(),
{
    if s.len() > 0 && crate::text::is_space_char(s.last()) {
        lemma_trim_back_prefix(s.drop_last());
    }
}

/// Trimming is idempotent: a trimmed sequence trims to itself.
proof fn lemma_trimmed_idempotent(s: Seq<char>)
    ensures
        trimmed(trimmed(s)) == trimmed(s),
{
    let f = crate::text::trim_front(s);
    let t = crate::text::trim_back(f);
    lemma_trim_front_no_leading(s);
    lemma_trim_back_prefix(f);
    assert(crate::text::trim_front(t) == t);
    assert(crate::text::trim_back(t) == t);
}

/// The lower-cased extension of a path: what follows the last dot of the
/// last path segment, absent when that segment has no dot.
pub open spec fn ext_of_path(s: Seq<char>) -> Option<Seq<char>> {
    if exists|i: int| 0 <= i < s.len() && (s[i] == '.' || s[i] == '/' || s[i] == '\\') {
        let i = choose|i: int|
            0 <= i < s.len() && (s[i] == '.' || s[i] == '/' || s[i] == '\\') && (forall|j: int|
                i < j < s.len() ==> !(s[j] == '.' || s[j] == '/' || s[j] == '\\'));
        if s[i] == '.' {
            Some(crate::launcher::lower_seq(s.skip(i + 1)))
        } else {
            None
        }
    } else {
        None
    }
}

/// Guesses the media type of a clipboard file from its path.
pub fn guess_ingredient_mime_from_path(path: &str) -> (r: Option<&'static str>)
    ensures
        match r {
            Some(m) => ext_of_path(path@) matches Some(e) && mime_of_extension(e) == Some(m@),
            None => !(ext_of_path(path@) matches Some(e) && mime_of_extension(e) is Some),
        },
{
    let v = chars_of(path);
    let n = v.len();
    let mut k: usize = n;
    while k > 0 && !(v[k - 1] == '.' || v[k - 1] == '/' || v[k - 1] == '\\')
        invariant
            n == v@.len(),
            v@ == path@,
            k <= n,
            forall|j: int|
                k <= j < n ==> !(path@[j] == '.' || path@[j] == '/' || path@[j] == '\\'),
        decreases k,
    {
        k -= 1;
    }
    if k == 0 || v[k - 1] != '.' {
        proof {
            if exists|i: int|
                0 <= i < path@.len() && (path@[i] == '.' || path@[i] == '/' || path@[i] == '\\') {
                let i = choose|i: int|
                    0 <= i < path@.len() && (path@[i] == '.' || path@[i] == '/' || path@[i]
                        == '\\') && (forall|j: int|
                        i < j < path@.len() ==> !(path@[j] == '.' || path@[j] == '/' || path@[j]
                            == '\\'));
                assert(!(i < k - 1) && !(k - 1 < i));
            }
        }
        return None;
    }
    proof {
        let i0 = choose|i: int|
            0 <= i < path@.len() && (path@[i] == '.' || path@[i] == '/' || path@[i] == '\\') && (
            forall|j: int|
                i < j < path@.len() ==> !(path@[j] == '.' || path@[j] == '/' || path@[j] == '\\'));
        assert(path@[k - 1] == '.');
        assert(!(i0 < k - 1) && !(k - 1 < i0));
    }
    let mut tail: Vec<char> = Vec::new();
    let mut j: usize = k;
    while j < n
        invariant
            n == v@.len(),
            v@ == path@,
            k <= j <= n,
            tail@ == path@.skip(k as int).take(j - k),
        decreases n - j,
    {
        tail.push(v[j]);
        proof {
            assert(tail@ =~= path@.skip(k as int).take(j - k + 1));
        }
        j += 1;
    }
    proof {
        assert(tail@ =~= path@.skip(k as int));
    }
    let lowered = crate::launcher::to_ascii_lower(string_of(&tail).as_str());
    crate::pantry::guess_ingredient_mime_from_ext(lowered.as_str())
}

/// A path for display: the Windows long-path prefix dropped, anything else
/// unchanged.
pub fn normalize_path_display(path: &str) -> (r: String)
    ensures
        r@ == if starts_with(path@, "\\\\?\\"@) {
            path@.skip(4)
        } else {
            path@
        },
{
    let v = chars_of(path);
    proof {
        reveal_strlit("\\\\?\\");
    }
    if starts_with_str(&v, "\\\\?\\") {
        let n = v.len();
        let mut out: Vec<char> = Vec::new();
        let mut k: usize = 4;
        while k < n
            invariant
                n == v@.len(),
                v@ == path@,
                4 <= k <= n,
                out@ == path@.skip(4).take(k - 4),
            decreases n - k,
        {
            out.push(v[k]);
            proof {
                assert(out@ =~= path@.skip(4).take(k - 4 + 1));
            }
            k += 1;
        }
        proof {
            assert(out@ =~= path@.skip(4));
            assert("\\\\?\\"@.len() == 4);
        }
        string_of(&out)
    } else {
        string_of(&v)
    }
}

} // verus!
