//! The request and reply shapes of the interaction protocol, and the
//! verified rendering of each on-disk JSON document: the request file the UI
//! reads, the structured reply a UI writes back, and the durable pending
//! record.

use vstd::prelude::*;

use crate::json::{
    json_bool, json_opt_str, json_quoted, json_str_array, json_string_array, quote_json,
    quote_json_opt,
};
use crate::reply::{image_views, ImageAttachment, ImageModel};
use crate::task::PersistedPendingTask;
use crate::text::{dec_chars, join_with, seq_views, u64_to_string};

verus! {

/// The arguments of one interaction request as the calling agent sends
/// them: the content to display, optional response templates, a rich-text
/// flag, and an optional project-root context.
pub struct ZhiRequest {
    pub message: String,
    pub choices: Vec<String>,
    pub format: bool,
    pub project_root_path: Option<String>,
}

impl ZhiRequest {
    /// The response templates offered to the human.
    pub fn get_choices(&self) -> (r: &Vec<String>)
        ensures
            r@ == self.choices@,
    {
        &self.choices
    }

    /// Whether rich-text formatting is enabled.
    pub fn get_format(&self) -> (r: bool)
        ensures
            r == self.format,
    {
        self.format
    }
}

/// Rich text is enabled when the request does not say otherwise.
pub fn default_is_markdown() -> (r: bool)
    ensures
        r == true,
{
    true
}

/// The category a memory entry falls under when the request names none.
pub fn default_category() -> (r: String)
    ensures
        r@ == "context"@,
{
    String::from_str("context")
}

/// The arguments of one memory-tool call.
pub struct JiyiRequest {
    pub action: String,
    pub project_path: String,
    pub content: String,
    pub category: String,
}

/// The arguments of one code-context search call.
pub struct AcemcpRequest {
    pub project_root_path: String,
    pub query: String,
}

/// The request document written for the UI: the task identity and what to
/// display.
pub struct PopupRequest {
    pub id: String,
    pub message: String,
    pub predefined_options: Option<Vec<String>>,
    pub is_markdown: bool,
    pub project_root_path: Option<String>,
}

/// Mathematical model of a request document.
pub ghost struct PopupRequestModel {
    pub id: Seq<char>,
    pub message: Seq<char>,
    pub predefined_options: Option<Seq<Seq<char>>>,
    pub is_markdown: bool,
    pub project_root_path: Option<Seq<char>>,
}

impl View for PopupRequest {
    type V = PopupRequestModel;

    open spec fn view(&self) -> PopupRequestModel {
        PopupRequestModel {
            id: self.id@,
            message: self.message@,
            predefined_options: match self.predefined_options {
                Some(ref v) => Some(seq_views(v@)),
                None => None,
            },
            is_markdown: self.is_markdown,
            project_root_path: match self.project_root_path {
                Some(p) => Some(p@),
                None => None,
            },
        }
    }
}

impl PopupRequest {
    /// Builds the request document for a task: an empty choice list becomes
    /// no choice list at all.
    pub fn from_request(id: String, request: ZhiRequest) -> (r: PopupRequest)
        ensures
            r@.id == id@,
            r@.message == request.message@,
            r@.predefined_options == if seq_views(request.choices@).len() == 0 {
                Option::<Seq<Seq<char>>>::None
            } else {
                Some(seq_views(request.choices@))
            },
            r@.is_markdown == request.format,
            r@.project_root_path == (match request.project_root_path {
                Some(p) => Some(p@),
                None => None::<Seq<char>>,
            }),
    {
        PopupRequest {
            id,
            message: request.message,
            predefined_options: if request.choices.len() == 0 {
                None
            } else {
                Some(request.choices)
            },
            is_markdown: request.format,
            project_root_path: request.project_root_path,
        }
    }
}

/// The JSON document of a request file.
pub open spec fn popup_request_json(m: PopupRequestModel) -> Seq<char> {
    "{\"id\":"@ + json_quoted(m.id) + ",\"message\":"@ + json_quoted(m.message)
        + ",\"predefined_options\":"@ + (match m.predefined_options {
        Some(opts) => json_str_array(opts),
        None => "null"@,
    }) + ",\"is_markdown\":"@ + json_bool(m.is_markdown) + ",\"project_root_path\":"@
        + json_opt_str(m.project_root_path) + "}"@
}

/// Renders the request file a spawned UI reads.
pub fn render_popup_request_json(req: &PopupRequest) -> (r: String)
    ensures
        r@ == popup_request_json(req@),
{
    let mut out = String::from_str("{\"id\":");
    let id = quote_json(req.id.as_str());
    out.append(id.as_str());
    out.append(",\"message\":");
    let message = quote_json(req.message.as_str());
    out.append(message.as_str());
    out.append(",\"predefined_options\":");
    match &req.predefined_options {
        Some(opts) => {
            let arr = json_string_array(opts);
            out.append(arr.as_str());
        },
        None => {
            out.append("null");
        },
    }
    out.append(",\"is_markdown\":");
    if req.is_markdown {
        out.append("true");
    } else {
        out.append("false");
    }
    out.append(",\"project_root_path\":");
    let root = quote_json_opt(&req.project_root_path);
    out.append(root.as_str());
    out.append("}");
    proof {
        assert(out@ =~= popup_request_json(req@));
    }
    out
}

/// The JSON document of the durable pending record.
pub open spec fn record_json(m: crate::task::RecordModel) -> Seq<char> {
    "{\"task_id\":"@ + json_quoted(m.task_id) + ",\"request_file\":"@ + json_quoted(m.request_file)
        + ",\"response_file\":"@ + json_quoted(m.response_file) + ",\"ui_pid\":"@
        + (match m.ui_pid {
        Some(pid) => dec_chars(pid as int),
        None => "null"@,
    }) + "}"@
}

/// Renders the durable pending record written beside a new task.
pub fn render_record_json(record: &PersistedPendingTask) -> (r: String)
    ensures
        r@ == record_json(record@),
{
    let mut out = String::from_str("{\"task_id\":");
    let id = quote_json(record.task_id.as_str());
    out.append(id.as_str());
    out.append(",\"request_file\":");
    let request_file = quote_json(record.request_file.as_str());
    out.append(request_file.as_str());
    out.append(",\"response_file\":");
    let response_file = quote_json(record.response_file.as_str());
    out.append(response_file.as_str());
    out.append(",\"ui_pid\":");
    match record.ui_pid {
        Some(pid) => {
            let pid_str = u64_to_string(pid as u64);
            out.append(pid_str.as_str());
        },
        None => {
            out.append("null");
        },
    }
    out.append("}");
    proof {
        assert(out@ =~= record_json(record@));
    }
    out
}

/// One attachment of a structured reply as JSON.
pub open spec fn image_json(img: ImageModel) -> Seq<char> {
    "{\"data\":"@ + json_quoted(img.data) + ",\"media_type\":"@ + json_quoted(img.media_type)
        + ",\"filename\":"@ + json_opt_str(img.filename) + "}"@
}

/// The JSON document of a structured reply, with the given timestamp.
pub open spec fn response_json(
    user_input: Option<Seq<char>>,
    selected_options: Seq<Seq<char>>,
    images: Seq<ImageModel>,
    request_id: Option<Seq<char>>,
    source: Seq<char>,
    timestamp: Seq<char>,
) -> Seq<char> {
    "{\"images\":["@ + join_with(images.map_values(|i: ImageModel| image_json(i)), ","@)
        + "],\"metadata\":{\"request_id\":"@ + json_opt_str(request_id) + ",\"source\":"@
        + json_quoted(source) + ",\"timestamp\":"@ + json_quoted(timestamp)
        + "},\"selected_options\":"@ + json_str_array(selected_options) + ",\"user_input\":"@
        + json_opt_str(user_input) + "}"@
}

/// Relies on `chrono::Utc::now` and `DateTime::to_rfc3339`: the moment of
/// the call rendered as an RFC 3339 timestamp, which is never empty.
/// Nothing more can be promised of the clock.
#[verifier::external_body]
fn now_rfc3339() -> (r: String)
    ensures
        r@.len() > 0,
{
    chrono::Utc::now().to_rfc3339()
}

/// Renders a structured reply document with the given timestamp.
pub fn render_response_json(
    user_input: &Option<String>,
    selected_options: &Vec<String>,
    images: &Vec<ImageAttachment>,
    request_id: &Option<String>,
    source: &str,
    timestamp: &str,
) -> (r: String)
    ensures
        r@ == response_json(
            match user_input {
                Some(u) => Some(u@),
                None => None,
            },
            seq_views(selected_options@),
            image_views(images@),
            match request_id {
                Some(v) => Some(v@),
                None => None,
            },
            source@,
            timestamp@,
        ),
{
    let ghost image_models = image_views(images@);
    let mut rendered: Vec<String> = Vec::new();
    let n = images.len();
    let mut i: usize = 0;
    while i < n
        invariant
            n == images@.len(),
            i <= n,
            image_models == image_views(images@),
            seq_views(rendered@) == image_models.take(i as int).map_values(
                |im: ImageModel| image_json(im),
            ),
        decreases n - i,
    {
        let img = &images[i];
        let mut piece = String::from_str("{\"data\":");
        let data = quote_json(img.data.as_str());
        piece.append(data.as_str());
        piece.append(",\"media_type\":");
        let mt = quote_json(img.media_type.as_str());
        piece.append(mt.as_str());
        piece.append(",\"filename\":");
        let filename = quote_json_opt(&img.filename);
        piece.append(filename.as_str());
        piece.append("}");
        proof {
            assert(piece@ =~= image_json(image_models[i as int]));
        }
        let ghost pre = seq_views(rendered@);
        rendered.push(piece);
        proof {
            assert(seq_views(rendered@) =~= pre.push(image_json(image_models[i as int])));
            assert(image_models.take(i + 1).map_values(|im: ImageModel| image_json(im)) =~= pre.push(
                image_json(image_models[i as int]),
            ));
        }
        i += 1;
    }
    proof {
        assert(image_models.take(n as int) =~= image_models);
    }
    let mut out = String::from_str("{\"images\":[");
    let images_joined = crate::text::join_strings(&rendered, ",");
    out.append(images_joined.as_str());
    out.append("],\"metadata\":{\"request_id\":");
    let rid = quote_json_opt(request_id);
    out.append(rid.as_str());
    out.append(",\"source\":");
    let src = quote_json(source);
    out.append(src.as_str());
    out.append(",\"timestamp\":");
    let ts = quote_json(timestamp);
    out.append(ts.as_str());
    out.append("},\"selected_options\":");
    let sel = json_string_array(selected_options);
    out.append(sel.as_str());
    out.append(",\"user_input\":");
    let ui = quote_json_opt(user_input);
    out.append(ui.as_str());
    out.append("}");
    proof {
        assert(out@ =~= response_json(
            match user_input {
                Some(u) => Some(u@),
                None => None,
            },
            seq_views(selected_options@),
            image_views(images@),
            match request_id {
                Some(v) => Some(v@),
                None => None,
            },
            source@,
            timestamp@,
        ));
    }
    out
}

/// True when the document is the reply JSON for these fields under some
/// timestamp: the shape promised of documents whose timestamp was taken at
/// the moment of the call.
pub open spec fn timestamped_response_json(
    r: Seq<char>,
    user_input: Option<Seq<char>>,
    selected_options: Seq<Seq<char>>,
    images: Seq<ImageModel>,
    request_id: Option<Seq<char>>,
    source: Seq<char>,
) -> bool {
    exists|ts: Seq<char>|
        r == #[trigger] response_json(user_input, selected_options, images, request_id, source, ts)
}

proof fn lemma_timestamped_response_json(
    r: Seq<char>,
    user_input: Option<Seq<char>>,
    selected_options: Seq<Seq<char>>,
    images: Seq<ImageModel>,
    request_id: Option<Seq<char>>,
    source: Seq<char>,
    ts: Seq<char>,
)
    requires
        r == response_json(user_input, selected_options, images, request_id, source, ts),
    ensures
        timestamped_response_json(r, user_input, selected_options, images, request_id, source),
{
}

/// Builds the reply document a UI sends back: the answer fields with a
/// timestamp taken at the moment of the call.
pub fn build_send_response(
    user_input: Option<String>,
    selected_options: Vec<String>,
    images: Vec<ImageAttachment>,
    request_id: Option<String>,
    source: &str,
) -> (r: String)
    ensures
        timestamped_response_json(
            r@,
            match user_input {
                Some(u) => Some(u@),
                None => None,
            },
            seq_views(selected_options@),
            image_views(images@),
            match request_id {
                Some(v) => Some(v@),
                None => None,
            },
            source@,
        ),
{
    let timestamp = now_rfc3339();
    let r = render_response_json(
        &user_input,
        &selected_options,
        &images,
        &request_id,
        source,
        timestamp.as_str(),
    );
    proof {
        let ui = match user_input {
            Some(u) => Some(u@),
            None => None,
        };
        let rid = match request_id {
            Some(v) => Some(v@),
            None => None,
        };
        lemma_timestamped_response_json(
            r@,
            ui,
            seq_views(selected_options@),
            image_views(images@),
            rid,
            source@,
            timestamp@,
        );
    }
    r
}

/// The fallback answer text used when no configured continuation prompt is
/// available.
pub open spec fn default_continue_prompt() -> Seq<char> {
    "Please continue following best practices"@
}

/// Builds the reply document for a "continue" answer: the configured
/// continuation prompt, or the stock wording when none could be read, as
/// the free-text input of an otherwise empty reply.
pub fn build_continue_response(
    continue_prompt: Option<String>,
    request_id: Option<String>,
    source: &str,
) -> (r: String)
    ensures
        timestamped_response_json(
            r@,
            Some(
                match continue_prompt {
                    Some(p) => p@,
                    None => default_continue_prompt(),
                },
            ),
            Seq::empty(),
            Seq::empty(),
            match request_id {
                Some(v) => Some(v@),
                None => None,
            },
            source@,
        ),
{
    let prompt = match continue_prompt {
        Some(p) => p,
        None => String::from_str("Please continue following best practices"),
    };
    let ghost prompt_view = prompt@;
    let ghost rid = match request_id {
        Some(ref v) => Some(v@),
        None => None::<Seq<char>>,
    };
    let r = build_send_response(Some(prompt), Vec::new(), Vec::new(), request_id, source);
    proof {
        let sel0 = seq_views(Seq::<String>::empty());
        let imgs0 = image_views(Seq::<ImageAttachment>::empty());
        assert(sel0 =~= Seq::<Seq<char>>::empty());
        assert(imgs0 =~= Seq::<ImageModel>::empty());
        let ts = choose|ts: Seq<char>|
            r@ == #[trigger] response_json(Some(prompt_view), sel0, imgs0, rid, source@, ts);
        lemma_timestamped_response_json(
            r@,
            Some(prompt_view),
            Seq::empty(),
            Seq::empty(),
            rid,
            source@,
            ts,
        );
    }
    r
}

} // verus!
