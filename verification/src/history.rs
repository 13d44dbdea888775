//! The history journal's data shapes and its pure decisions: file
//! extensions for media types and the preview line of an entry.  The
//! journal's file I/O lives outside the library.

use vstd::prelude::*;

use crate::messages::{path_join, path_join_spec};
use crate::protocol::PopupRequest;
use crate::reply::McpResponse;
use crate::text::{chars_of, seq_views, str_eq, string_of, trim_chars, trimmed};

verus! {

/// One history entry as a listing shows it.
pub struct HistoryEntrySummary {
    pub id: String,
    pub timestamp: String,
    pub request_id: Option<String>,
    pub source: Option<String>,
    pub preview: String,
}

/// One stored image of a history entry, carried as a data URI.
pub struct HistoryImage {
    pub filename: String,
    pub media_type: String,
    pub data_uri: String,
}

/// The file extension recorded for a media type.
pub open spec fn ext_of_media_type(media_type: Seq<char>) -> Seq<char> {
    if media_type == "image/png"@ {
        "png"@
    } else if media_type == "image/jpeg"@ || media_type == "image/jpg"@ {
        "jpg"@
    } else if media_type == "image/webp"@ {
        "webp"@
    } else if media_type == "image/gif"@ {
        "gif"@
    } else if media_type == "image/svg+xml"@ {
        "svg"@
    } else {
        "bin"@
    }
}

/// Picks the file extension an attachment is stored under.
pub fn ext_from_media_type(media_type: &str) -> (r: &'static str)
    ensures
        r@ == ext_of_media_type(media_type@),
{
    if str_eq(media_type, "image/png") {
        "png"
    } else if str_eq(media_type, "image/jpeg") || str_eq(media_type, "image/jpg") {
        "jpg"
    } else if str_eq(media_type, "image/webp") {
        "webp"
    } else if str_eq(media_type, "image/gif") {
        "gif"
    } else if str_eq(media_type, "image/svg+xml") {
        "svg"
    } else {
        "bin"
    }
}

/// The directory of one history entry under the journal's base directory.
pub fn entry_dir_from_id(base: &str, id: &str) -> (r: String)
    ensures
        r@ == path_join_spec(base@, id@),
{
    path_join(base, id)
}

/// The first line of a text: everything before the first line break, with a
/// carriage return directly before the break dropped; a text without a
/// break is one line.
pub open spec fn first_line_of(s: Seq<char>) -> Seq<char> {
    if exists|i: int| 0 <= i < s.len() && s[i] == '\n' {
        let line = s.take(choose|i: int| 0 <= i < s.len() && s[i] == '\n' && (forall|j: int|
            0 <= j < i ==> s[j] != '\n'));
        if line.len() > 0 && line.last() == '\r' {
            line.drop_last()
        } else {
            line
        }
    } else {
        s
    }
}

/// Extracts the first line of a text.
pub fn first_line(s: &str) -> (r: String)
    ensures
        r@ == first_line_of(s@),
{
    let v = chars_of(s);
    let n = v.len();
    let mut i: usize = 0;
    while i < n && v[i] != '\n'
        invariant
            n == v@.len(),
            v@ == s@,
            i <= n,
            forall|j: int| 0 <= j < i ==> s@[j] != '\n',
        decreases n - i,
    {
        i += 1;
    }
    let end: usize = if i < n && i > 0 && v[i - 1] == '\r' {
        i - 1
    } else {
        i
    };
    let mut out: Vec<char> = Vec::new();
    let mut k: usize = 0;
    while k < end
        invariant
            end <= n,
            n == v@.len(),
            v@ == s@,
            k <= end,
            out@ == s@.take(k as int),
        decreases end - k,
    {
        out.push(v[k]);
        proof {
            assert(out@ =~= s@.take(k + 1));
        }
        k += 1;
    }
    proof {
        if i < n {
            assert(s@[i as int] == '\n');
            let p = choose|p: int| 0 <= p < s@.len() && s@[p] == '\n' && (forall|j: int|
                0 <= j < p ==> s@[j] != '\n');
            assert(!(p < i) && !(i < p));
            let line = s@.take(i as int);
            if i > 0 && s@[i - 1] == '\r' {
                assert(line.len() == i && line.last() == s@[i - 1]);
                assert(first_line_of(s@) =~= line.drop_last());
                assert(out@ =~= line.drop_last());
            } else {
                if line.len() > 0 {
                    assert(line.last() == s@[i - 1]);
                }
                assert(out@ =~= line);
            }
        } else {
            assert(forall|p: int| 0 <= p < s@.len() ==> s@[p] != '\n');
            assert(first_line_of(s@) == s@);
            assert(out@ =~= s@);
        }
    }
    string_of(&out)
}

/// The preview line of a history entry: the trimmed first line of the
/// human's free text when it is visible, else the first line of the
/// request's message, else nothing.
pub open spec fn preview_of_entry(
    user_input: Option<Seq<char>>,
    request_message: Option<Seq<char>>,
) -> Seq<char> {
    let from_input = match user_input {
        Some(u) => trimmed(first_line_of(u)),
        None => Seq::<char>::empty(),
    };
    if from_input.len() > 0 {
        from_input
    } else {
        match request_message {
            Some(m) => first_line_of(m),
            None => Seq::<char>::empty(),
        }
    }
}

/// Builds the preview line of a history entry.
pub fn preview_text(user_input: &Option<String>, request_message: &Option<String>) -> (r: String)
    ensures
        r@ == preview_of_entry(
            match user_input {
                Some(u) => Some(u@),
                None => None,
            },
            match request_message {
                Some(m) => Some(m@),
                None => None,
            },
        ),
{
    match user_input {
        Some(u) => {
            let line = first_line(u.as_str());
            let lv = chars_of(line.as_str());
            let t = trim_chars(&lv);
            if t.len() > 0 {
                return string_of(&t);
            }
            match request_message {
                Some(m) => first_line(m.as_str()),
                None => String::new(),
            }
        },
        None => {
            match request_message {
                Some(m) => first_line(m.as_str()),
                None => String::new(),
            }
        },
    }
}

/// The decoded body a history entry's reply is rendered from: the
/// structured reply when the stored value parses as one, else its raw text.
pub enum HistoryResponse {
    Structured(McpResponse),
    Raw(String),
}

/// A markdown bullet list of the given items.
pub open spec fn bullet_list(items: Seq<Seq<char>>) -> Seq<char>
    decreases items.len(),
{
    if items.len() == 0 {
        Seq::empty()
    } else {
        bullet_list(items.drop_last()) + "- "@ + items.last() + "\n"@
    }
}

fn push_bullets(out: &mut String, items: &Vec<String>)
    ensures
        final(out)@ == old(out)@ + bullet_list(seq_views(items@)),
{
    let n = items.len();
    let mut i: usize = 0;
    while i < n
        invariant
            n == items@.len(),
            i <= n,
            out@ == old(out)@ + bullet_list(seq_views(items@).take(i as int)),
        decreases n - i,
    {
        out.append("- ");
        out.append(items[i].as_str());
        out.append("\n");
        proof {
            assert(seq_views(items@).take(i + 1).drop_last() =~= seq_views(items@).take(i as int));
            assert(out@ =~= old(out)@ + bullet_list(seq_views(items@).take(i + 1)));
        }
        i += 1;
    }
    proof {
        assert(seq_views(items@).take(n as int) =~= seq_views(items@));
    }
}

/// One embedded-image link line of a history document.
pub open spec fn image_links(files: Seq<Seq<char>>) -> Seq<char>
    decreases files.len(),
{
    if files.len() == 0 {
        Seq::empty()
    } else {
        image_links(files.drop_last()) + "![](images/"@ + files.last() + ")\n\n"@
    }
}

/// The request half of a history document.
pub open spec fn markdown_request_part(request: Option<crate::protocol::PopupRequestModel>) -> Seq<
    char,
> {
    match request {
        Some(req) => "# \u{8bf7}\u{6c42}\n\n"@ + req.message + "\n\n"@ + (
        match req.predefined_options {
            Some(opts) => if opts.len() > 0 {
                "## \u{9009}\u{9879}\n\n"@ + bullet_list(opts) + "\n"@
            } else {
                Seq::<char>::empty()
            },
            None => Seq::<char>::empty(),
        }),
        None => Seq::<char>::empty(),
    }
}

/// The reply half of a history document.
pub open spec fn markdown_reply_part(response: &HistoryResponse) -> Seq<char> {
    "# \u{56de}\u{590d}\n\n"@ + (match response {
        HistoryResponse::Structured(r) => {
            let input = match r@.user_input {
                Some(u) => u + "\n\n"@,
                None => Seq::<char>::empty(),
            };
            let options = if r@.selected_options.len() > 0 {
                "## \u{9009}\u{62e9}\n\n"@ + bullet_list(r@.selected_options) + "\n"@
            } else {
                Seq::<char>::empty()
            };
            input + options
        },
        HistoryResponse::Raw(s) => s@ + "\n"@,
    })
}

/// The full markdown document stored beside a history entry: the request,
/// the reply, then links to the stored images.
pub open spec fn markdown_of_entry(
    request: Option<crate::protocol::PopupRequestModel>,
    response: &HistoryResponse,
    image_files: Seq<Seq<char>>,
) -> Seq<char> {
    markdown_request_part(request) + markdown_reply_part(response) + (if image_files.len() > 0 {
        "\n## \u{56fe}\u{7247}\n\n"@ + image_links(image_files)
    } else {
        Seq::<char>::empty()
    })
}

/// Renders the markdown document of one history entry.
pub fn build_markdown(
    request: Option<&PopupRequest>,
    response: &HistoryResponse,
    image_files: &Vec<String>,
) -> (r: String)
    ensures
        r@ == markdown_of_entry(
            match request {
                Some(req) => Some(req@),
                None => None,
            },
            response,
            seq_views(image_files@),
        ),
{
    let mut out = String::new();
    match request {
        Some(req) => {
            out.append("# \u{8bf7}\u{6c42}\n\n");
            out.append(req.message.as_str());
            out.append("\n\n");
            match &req.predefined_options {
                Some(opts) => {
                    if opts.len() > 0 {
                        out.append("## \u{9009}\u{9879}\n\n");
                        push_bullets(&mut out, opts);
                        out.append("\n");
                    }
                },
                None => {},
            }
        },
        None => {},
    }
    proof {
        assert(out@ =~= markdown_request_part(
            match request {
                Some(req) => Some(req@),
                None => None,
            },
        ));
    }
    let ghost head = out@;
    out.append("# \u{56de}\u{590d}\n\n");
    match response {
        HistoryResponse::Structured(resp) => {
            match &resp.user_input {
                Some(input) => {
                    out.append(input.as_str());
                    out.append("\n\n");
                },
                None => {},
            }
            if resp.selected_options.len() > 0 {
                out.append("## \u{9009}\u{62e9}\n\n");
                push_bullets(&mut out, &resp.selected_options);
                out.append("\n");
            }
        },
        HistoryResponse::Raw(s) => {
            out.append(s.as_str());
            out.append("\n");
        },
    }
    proof {
        assert(out@ =~= head + markdown_reply_part(response));
    }
    let ghost body = out@;
    if image_files.len() > 0 {
        out.append("\n## \u{56fe}\u{7247}\n\n");
        let n = image_files.len();
        let mut i: usize = 0;
        while i < n
            invariant
                n == image_files@.len(),
                i <= n,
                out@ == body + "\n## \u{56fe}\u{7247}\n\n"@ + image_links(
                    seq_views(image_files@).take(i as int),
                ),
            decreases n - i,
        {
            out.append("![](images/");
            out.append(image_files[i].as_str());
            out.append(")\n\n");
            proof {
                assert(seq_views(image_files@).take(i + 1).drop_last() =~= seq_views(
                    image_files@,
                ).take(i as int));
                assert(out@ =~= body + "\n## \u{56fe}\u{7247}\n\n"@ + image_links(
                    seq_views(image_files@).take(i + 1),
                ));
            }
            i += 1;
        }
        proof {
            assert(seq_views(image_files@).take(n as int) =~= seq_views(image_files@));
        }
    }
    proof {
        assert(out@ =~= markdown_of_entry(
            match request {
                Some(req) => Some(req@),
                None => None,
            },
            response,
            seq_views(image_files@),
        ));
    }
    out
}

} // verus!
