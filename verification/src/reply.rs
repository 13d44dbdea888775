//! The response parser: decodes the human's answer from its on-disk
//! representation into the ordered content parts returned to the calling
//! agent.
//!
//! The raw file is either a cancellation sentinel, a structured reply, a
//! legacy array of tagged content blocks, or plain text.  The caller turns
//! the bytes into one of those shapes ([`ReplyPayload`]); everything after
//! that boundary is verified: text parts come first (selections joined, then
//! free text), then one content part per attachment actually embedded, then
//! a textual summary of the attachments that were not embedded.

use vstd::prelude::*;

use crate::text::{
    chars_of, dec_chars, join_strings, join_with, preview_of, preview_str, seq_views, str_eq,
    trim_str, trimmed, u64_to_string,
};

verus! {

/// One binary attachment of a reply: a base64 payload, its media type, and
/// an optional file name.
pub struct ImageAttachment {
    pub data: String,
    pub media_type: String,
    pub filename: Option<String>,
}

/// Mathematical model of an attachment.
pub ghost struct ImageModel {
    pub data: Seq<char>,
    pub media_type: Seq<char>,
    pub filename: Option<Seq<char>>,
}

impl View for ImageAttachment {
    type V = ImageModel;

    open spec fn view(&self) -> ImageModel {
        ImageModel {
            data: self.data@,
            media_type: self.media_type@,
            filename: match self.filename {
                Some(f) => Some(f@),
                None => None,
            },
        }
    }
}

/// Reply metadata: timestamp, originating request id, source tag.
pub struct ResponseMetadata {
    pub timestamp: Option<String>,
    pub request_id: Option<String>,
    pub source: Option<String>,
}

/// The structured reply: free-text input, selected predefined choices,
/// binary attachments, and metadata.
pub struct McpResponse {
    pub user_input: Option<String>,
    pub selected_options: Vec<String>,
    pub images: Vec<ImageAttachment>,
    pub metadata: ResponseMetadata,
}

/// Mathematical model of a structured reply (the metadata does not affect
/// rendering and is not modelled).
pub ghost struct McpResponseModel {
    pub user_input: Option<Seq<char>>,
    pub selected_options: Seq<Seq<char>>,
    pub images: Seq<ImageModel>,
}

impl View for McpResponse {
    type V = McpResponseModel;

    open spec fn view(&self) -> McpResponseModel {
        McpResponseModel {
            user_input: match self.user_input {
                Some(u) => Some(u@),
                None => None,
            },
            selected_options: seq_views(self.selected_options@),
            images: self.images@.map_values(|i: ImageAttachment| i@),
        }
    }
}

/// The image payload of a legacy content block.
pub struct ImageSource {
    pub source_type: String,
    pub media_type: String,
    pub data: String,
}

/// Mathematical model of a legacy image payload.
pub ghost struct SourceModel {
    pub source_type: Seq<char>,
    pub media_type: Seq<char>,
    pub data: Seq<char>,
}

impl View for ImageSource {
    type V = SourceModel;

    open spec fn view(&self) -> SourceModel {
        SourceModel {
            source_type: self.source_type@,
            media_type: self.media_type@,
            data: self.data@,
        }
    }
}

/// One block of the legacy reply format: a type discriminator with either
/// text or an image payload.
pub struct McpResponseContent {
    pub content_type: String,
    pub text: Option<String>,
    pub source: Option<ImageSource>,
}

/// Mathematical model of a legacy content block.
pub ghost struct ContentBlockModel {
    pub content_type: Seq<char>,
    pub text: Option<Seq<char>>,
    pub source: Option<SourceModel>,
}

impl View for McpResponseContent {
    type V = ContentBlockModel;

    open spec fn view(&self) -> ContentBlockModel {
        ContentBlockModel {
            content_type: self.content_type@,
            text: match self.text {
                Some(t) => Some(t@),
                None => None,
            },
            source: match self.source {
                Some(ref s) => Some(s@),
                None => None,
            },
        }
    }
}

/// One part of the rendered answer.
pub enum ContentPart {
    Text(String),
    Image { data: String, media_type: String },
}

/// Mathematical model of a content part.
pub ghost enum PartModel {
    Text(Seq<char>),
    Image { data: Seq<char>, media_type: Seq<char> },
}

impl View for ContentPart {
    type V = PartModel;

    open spec fn view(&self) -> PartModel {
        match self {
            ContentPart::Text(t) => PartModel::Text(t@),
            ContentPart::Image { data, media_type } => PartModel::Image {
                data: data@,
                media_type: media_type@,
            },
        }
    }
}

/// The views of a sequence of attachments.
pub open spec fn image_views(s: Seq<ImageAttachment>) -> Seq<ImageModel> {
    s.map_values(|i: ImageAttachment| i@)
}

/// The views of a sequence of content parts.
pub open spec fn parts_views(s: Seq<ContentPart>) -> Seq<PartModel> {
    s.map_values(|p: ContentPart| p@)
}

/// The decoded shape of the response file, classified at the parsing
/// boundary: the cancellation sentinel, a structured reply, the legacy block
/// array, or plain text that matched neither.
pub enum ReplyPayload {
    Cancelled,
    Structured(McpResponse),
    Legacy(Vec<McpResponseContent>),
    Raw(String),
}

/// The cancellation sentinel: exactly `CANCELLED`, with or without
/// surrounding quotes and whitespace.
pub open spec fn is_cancel_text(s: Seq<char>) -> bool {
    trimmed(s) == "CANCELLED"@ || trimmed(s) == "\"CANCELLED\""@
}

/// Whether the response file holds the cancellation sentinel.
pub fn is_cancel_sentinel(s: &str) -> (r: bool)
    ensures
        r == is_cancel_text(s@),
{
    let t = trim_str(s);
    str_eq(t.as_str(), "CANCELLED") || str_eq(t.as_str(), "\"CANCELLED\"")
}

/// Whether a response is kept out of the history journal: blank responses
/// and cancellations are never recorded.
pub fn should_skip_history_save(response_str: &str) -> (r: bool)
    ensures
        r == (trimmed(response_str@).len() == 0 || is_cancel_text(response_str@)),
{
    let t = trim_str(response_str);
    t.as_str().is_empty() || str_eq(t.as_str(), "CANCELLED") || str_eq(
        t.as_str(),
        "\"CANCELLED\"",
    )
}

/// The fixed allow-list of media types that are embedded verbatim.
pub open spec fn is_embeddable_media(mt: Seq<char>) -> bool {
    mt == "image/png"@ || mt == "image/jpeg"@ || mt == "image/webp"@
}

/// Executable test for [`is_embeddable_media`].
pub fn media_type_allows_embedding(mt: &str) -> (r: bool)
    ensures
        r == is_embeddable_media(mt@),
{
    str_eq(mt, "image/png") || str_eq(mt, "image/jpeg") || str_eq(mt, "image/webp")
}

/// Whether an attachment is embedded verbatim: an allow-listed media type
/// whose base64 payload does not exceed the embeddable threshold.
pub open spec fn embeds(img: ImageModel) -> bool {
    is_embeddable_media(img.media_type) && img.data.len() <= crate::MAX_EMBED_BASE64_LEN
}

/// The approximate decoded size of a base64 payload of the given length.
pub open spec fn approx_decoded_size(base64_len: int) -> int {
    base64_len * 3 / 4
}

/// Approximate decoded size, computed without overflow.
pub fn estimate_decoded_size(base64_len: u64) -> (r: u64)
    ensures
        r == approx_decoded_size(base64_len as int),
{
    let r = ((base64_len as u128) * 3 / 4) as u64;
    proof {
        assert((base64_len as u128) * 3 / 4 == (base64_len as int) * 3 / 4) by (nonlinear_arith);
        assert((base64_len as int) * 3 / 4 < 0x1_0000_0000_0000_0000int) by (nonlinear_arith);
    }
    r
}

/// A human-readable size: bytes below one kibibyte, else kibibytes or
/// mebibytes with one decimal place, rounded to the nearest tenth.
pub open spec fn size_label_spec(bytes: int) -> Seq<char> {
    if bytes < 1024 {
        dec_chars(bytes) + " B"@
    } else if bytes < 1024 * 1024 {
        let t = (bytes * 10 + 512) / 1024;
        dec_chars(t / 10) + "."@ + dec_chars(t % 10) + " KB"@
    } else {
        let t = (bytes * 10 + 524288) / 1048576;
        dec_chars(t / 10) + "."@ + dec_chars(t % 10) + " MB"@
    }
}

/// Renders a byte count as a human-readable size.
pub fn size_label(bytes: u64) -> (r: String)
    ensures
        r@ == size_label_spec(bytes as int),
{
    if bytes < 1024 {
        let mut out = u64_to_string(bytes);
        out.append(" B");
        out
    } else if bytes < 1024 * 1024 {
        let t = (bytes * 10 + 512) / 1024;
        let mut out = u64_to_string(t / 10);
        out.append(".");
        let frac = u64_to_string(t % 10);
        out.append(frac.as_str());
        out.append(" KB");
        out
    } else {
        let t128 = ((bytes as u128) * 10 + 524288) / 1048576;
        proof {
            assert((bytes as u128) * 10 + 524288 == (bytes as int) * 10 + 524288)
                by (nonlinear_arith);
            assert(((bytes as int) * 10 + 524288) / 1048576 < 0x1_0000_0000_0000_0000int)
                by (nonlinear_arith);
        }
        let t = t128 as u64;
        let mut out = u64_to_string(t / 10);
        out.append(".");
        let frac = u64_to_string(t % 10);
        out.append(frac.as_str());
        out.append(" MB");
        out
    }
}

/// Why an attachment was left out, and the wording used for it.
pub open spec fn skip_reason(img: ImageModel) -> Seq<char> {
    if !is_embeddable_media(img.media_type) {
        "media type not supported"@
    } else {
        "payload exceeds the embeddable size"@
    }
}

/// The descriptive block written for an attachment that was not embedded:
/// its position, optional file name, media type, approximate decoded size,
/// truncated payload preview, payload length, and the reason it was left
/// out.
pub open spec fn note_text(index: int, img: ImageModel) -> Seq<char> {
    "=== Image "@ + dec_chars(index) + " ==="@ + (match img.filename {
        Some(f) => "\nFilename: "@ + f,
        None => Seq::<char>::empty(),
    }) + "\nType: "@ + img.media_type + "\nSize: "@ + size_label_spec(
        approx_decoded_size(img.data.len() as int),
    ) + "\nBase64 preview: "@ + preview_of(img.data) + "\nFull Base64 length: "@ + dec_chars(
        img.data.len() as int,
    ) + " chars"@ + "\nNot embedded: "@ + skip_reason(img)
}

/// Builds the descriptive block for an attachment that is not embedded.
pub fn attachment_note(index: u64, img: &ImageAttachment) -> (r: String)
    ensures
        r@ == note_text(index as int, img@),
{
    let mut out = String::from_str("=== Image ");
    let idx = u64_to_string(index);
    out.append(idx.as_str());
    out.append(" ===");
    match &img.filename {
        Some(f) => {
            out.append("\nFilename: ");
            out.append(f.as_str());
        },
        None => {},
    }
    out.append("\nType: ");
    out.append(img.media_type.as_str());
    out.append("\nSize: ");
    let data_len = chars_of(img.data.as_str()).len();
    let est = estimate_decoded_size(data_len as u64);
    let size = size_label(est);
    out.append(size.as_str());
    out.append("\nBase64 preview: ");
    let preview = preview_str(img.data.as_str());
    out.append(preview.as_str());
    out.append("\nFull Base64 length: ");
    let len_str = u64_to_string(data_len as u64);
    out.append(len_str.as_str());
    out.append(" chars");
    out.append("\nNot embedded: ");
    if !media_type_allows_embedding(img.media_type.as_str()) {
        out.append("media type not supported");
    } else {
        out.append("payload exceeds the embeddable size");
    }
    proof {
        assert(out@ =~= note_text(index as int, img@));
    }
    out
}

/// The image parts for the attachments that are embedded, in order.
pub open spec fn embedded_parts(images: Seq<ImageModel>) -> Seq<PartModel>
    decreases images.len(),
{
    if images.len() == 0 {
        Seq::empty()
    } else {
        embedded_parts(images.drop_last()) + (if embeds(images.last()) {
            seq![
                PartModel::Image {
                    data: images.last().data,
                    media_type: images.last().media_type,
                },
            ]
        } else {
            Seq::empty()
        })
    }
}

/// The descriptive blocks for the attachments that are not embedded, in
/// order, each numbered by its one-based position among all attachments.
pub open spec fn notes_of(images: Seq<ImageModel>) -> Seq<Seq<char>>
    decreases images.len(),
{
    if images.len() == 0 {
        Seq::empty()
    } else {
        notes_of(images.drop_last()) + (if embeds(images.last()) {
            Seq::empty()
        } else {
            seq![note_text(images.len() as int, images.last())]
        })
    }
}

/// The full rendering policy: the joined text parts first, then one image
/// part per embedded attachment, then one text block describing the
/// attachments that were not embedded; never an empty result.
pub open spec fn render_parts(texts: Seq<Seq<char>>, images: Seq<ImageModel>) -> Seq<PartModel> {
    let head: Seq<PartModel> = if texts.len() > 0 {
        seq![PartModel::Text(join_with(texts, "\n\n"@))]
    } else {
        Seq::empty()
    };
    let notes = notes_of(images);
    let tail: Seq<PartModel> = if notes.len() > 0 {
        seq![PartModel::Text(join_with(notes, "\n\n"@))]
    } else {
        Seq::empty()
    };
    let all = head + embedded_parts(images) + tail;
    if all.len() == 0 {
        seq![PartModel::Text("No content provided"@)]
    } else {
        all
    }
}

/// Assembles the rendered parts from the collected text parts and the
/// attachment list.
fn assemble(texts: Vec<String>, images: &Vec<ImageAttachment>) -> (r: Vec<ContentPart>)
    ensures
        parts_views(r@) == render_parts(seq_views(texts@), images@.map_values(|i: ImageAttachment| i@)),
{
    let ghost image_models = images@.map_values(|i: ImageAttachment| i@);
    let mut parts: Vec<ContentPart> = Vec::new();
    if texts.len() > 0 {
        let joined = join_strings(&texts, "\n\n");
        parts.push(ContentPart::Text(joined));
    }
    let ghost head = parts_views(parts@);
    let mut notes: Vec<String> = Vec::new();
    let n = images.len();
    let mut i: usize = 0;
    while i < n
        invariant
            n == images@.len(),
            i <= n,
            image_models == images@.map_values(|im: ImageAttachment| im@),
            parts_views(parts@) == head + embedded_parts(image_models.take(i as int)),
            seq_views(notes@) == notes_of(image_models.take(i as int)),
        decreases n - i,
    {
        let img = &images[i];
        let ghost pre_parts = parts_views(parts@);
        let ghost pre_notes = seq_views(notes@);
        let data_len = chars_of(img.data.as_str()).len();
        if media_type_allows_embedding(img.media_type.as_str()) && data_len
            <= crate::MAX_EMBED_BASE64_LEN {
            parts.push(
                ContentPart::Image {
                    data: img.data.clone(),
                    media_type: img.media_type.clone(),
                },
            );
            proof {
                assert(parts_views(parts@) =~= pre_parts + seq![
                    PartModel::Image {
                        data: image_models[i as int].data,
                        media_type: image_models[i as int].media_type,
                    },
                ]);
            }
        } else {
            let note = attachment_note((i + 1) as u64, img);
            notes.push(note);
            proof {
                assert(seq_views(notes@) =~= pre_notes + seq![
                    note_text(i + 1, image_models[i as int]),
                ]);
            }
        }
        proof {
            let taken = image_models.take(i + 1);
            assert(taken.drop_last() =~= image_models.take(i as int));
            assert(taken.last() == image_models[i as int]);
            assert(taken.len() == i + 1);
        }
        i += 1;
    }
    proof {
        assert(image_models.take(n as int) =~= image_models);
    }
    if notes.len() > 0 {
        let joined = join_strings(&notes, "\n\n");
        let ghost pre_parts = parts_views(parts@);
        parts.push(ContentPart::Text(joined));
        proof {
            assert(parts_views(parts@) =~= pre_parts + seq![
                PartModel::Text(join_with(notes_of(image_models), "\n\n"@)),
            ]);
        }
    }
    if parts.len() == 0 {
        parts.push(ContentPart::Text(String::from_str("No content provided")));
        proof {
            assert(parts_views(parts@) =~= seq![PartModel::Text("No content provided"@)]);
        }
    }
    proof {
        assert(parts_views(parts@) =~= render_parts(seq_views(texts@), image_models));
    }
    parts
}

/// The text parts of a structured reply: the joined selections when any
/// choice was selected, then the trimmed free text when it is not blank.
pub open spec fn structured_texts(m: McpResponseModel) -> Seq<Seq<char>> {
    let sel: Seq<Seq<char>> = if m.selected_options.len() > 0 {
        seq!["Selected: "@ + join_with(m.selected_options, ", "@)]
    } else {
        Seq::empty()
    };
    let inp: Seq<Seq<char>> = match m.user_input {
        Some(u) => if trimmed(u).len() > 0 {
            seq![trimmed(u)]
        } else {
            Seq::empty()
        },
        None => Seq::empty(),
    };
    sel + inp
}

/// Renders a structured reply.
pub fn render_structured(resp: &McpResponse) -> (r: Vec<ContentPart>)
    ensures
        parts_views(r@) == render_parts(structured_texts(resp@), resp@.images),
{
    let mut texts: Vec<String> = Vec::new();
    if resp.selected_options.len() > 0 {
        let joined = join_strings(&resp.selected_options, ", ");
        let mut line = String::from_str("Selected: ");
        line.append(joined.as_str());
        texts.push(line);
    }
    let ghost after_sel = seq_views(texts@);
    match &resp.user_input {
        Some(u) => {
            let t = trim_str(u.as_str());
            if !t.as_str().is_empty() {
                texts.push(t);
            }
        },
        None => {},
    }
    proof {
        assert(seq_views(texts@) =~= structured_texts(resp@));
    }
    assemble(texts, &resp.images)
}

/// The text parts of a legacy reply: the text of every block that is not an
/// image block, in order.
pub open spec fn legacy_texts(blocks: Seq<ContentBlockModel>) -> Seq<Seq<char>>
    decreases blocks.len(),
{
    if blocks.len() == 0 {
        Seq::empty()
    } else {
        legacy_texts(blocks.drop_last()) + (if blocks.last().content_type != "image"@
            && blocks.last().text is Some {
            seq![blocks.last().text->0]
        } else {
            Seq::empty()
        })
    }
}

/// The attachments of a legacy reply: every image block with a base64
/// payload, in order, with no file name.
pub open spec fn legacy_images(blocks: Seq<ContentBlockModel>) -> Seq<ImageModel>
    decreases blocks.len(),
{
    if blocks.len() == 0 {
        Seq::empty()
    } else {
        legacy_images(blocks.drop_last()) + (if blocks.last().content_type == "image"@ && (
        blocks.last().source matches Some(src) && src.source_type == "base64"@) {
            seq![
                ImageModel {
                    data: blocks.last().source->0.data,
                    media_type: blocks.last().source->0.media_type,
                    filename: None,
                },
            ]
        } else {
            Seq::empty()
        })
    }
}

/// Renders a legacy block array.
pub fn render_legacy(blocks: &Vec<McpResponseContent>) -> (r: Vec<ContentPart>)
    ensures
        parts_views(r@) == render_parts(
            legacy_texts(blocks@.map_values(|b: McpResponseContent| b@)),
            legacy_images(blocks@.map_values(|b: McpResponseContent| b@)),
        ),
{
    let ghost block_models = blocks@.map_values(|b: McpResponseContent| b@);
    let mut texts: Vec<String> = Vec::new();
    let mut images: Vec<ImageAttachment> = Vec::new();
    let n = blocks.len();
    let mut i: usize = 0;
    while i < n
        invariant
            n == blocks@.len(),
            i <= n,
            block_models == blocks@.map_values(|b: McpResponseContent| b@),
            seq_views(texts@) == legacy_texts(block_models.take(i as int)),
            images@.map_values(|im: ImageAttachment| im@) == legacy_images(
                block_models.take(i as int),
            ),
        decreases n - i,
    {
        let block = &blocks[i];
        let ghost pre_texts = seq_views(texts@);
        let ghost pre_images = images@.map_values(|im: ImageAttachment| im@);
        let is_image = str_eq(block.content_type.as_str(), "image");
        if is_image {
            match &block.source {
                Some(src) => {
                    if str_eq(src.source_type.as_str(), "base64") {
                        images.push(
                            ImageAttachment {
                                data: src.data.clone(),
                                media_type: src.media_type.clone(),
                                filename: None,
                            },
                        );
                        proof {
                            assert(images@.map_values(|im: ImageAttachment| im@) =~= pre_images
                                + seq![
                                ImageModel {
                                    data: block_models[i as int].source->0.data,
                                    media_type: block_models[i as int].source->0.media_type,
                                    filename: None,
                                },
                            ]);
                        }
                    }
                },
                None => {},
            }
        } else {
            match &block.text {
                Some(t) => {
                    texts.push(t.clone());
                    proof {
                        assert(seq_views(texts@) =~= pre_texts + seq![
                            block_models[i as int].text->0,
                        ]);
                    }
                },
                None => {},
            }
        }
        proof {
            let taken = block_models.take(i + 1);
            assert(taken.drop_last() =~= block_models.take(i as int));
            assert(taken.last() == block_models[i as int]);
        }
        i += 1;
    }
    proof {
        assert(block_models.take(n as int) =~= block_models);
    }
    assemble(texts, &images)
}

/// Renders a classified reply payload into the ordered content parts
/// handed back to the calling agent.
pub fn render_reply(payload: ReplyPayload) -> (r: Vec<ContentPart>)
    ensures
        match payload {
            ReplyPayload::Cancelled => parts_views(r@) =~= seq![
                PartModel::Text("Operation cancelled by user"@),
            ],
            ReplyPayload::Structured(resp) => parts_views(r@) == render_parts(
                structured_texts(resp@),
                resp@.images,
            ),
            ReplyPayload::Legacy(blocks) => parts_views(r@) == render_parts(
                legacy_texts(blocks@.map_values(|b: McpResponseContent| b@)),
                legacy_images(blocks@.map_values(|b: McpResponseContent| b@)),
            ),
            ReplyPayload::Raw(s) => parts_views(r@) =~= seq![PartModel::Text(s@)],
        },
{
    match payload {
        ReplyPayload::Cancelled => {
            let mut parts: Vec<ContentPart> = Vec::new();
            parts.push(ContentPart::Text(String::from_str("Operation cancelled by user")));
            parts
        },
        ReplyPayload::Structured(resp) => render_structured(&resp),
        ReplyPayload::Legacy(blocks) => render_legacy(&blocks),
        ReplyPayload::Raw(s) => {
            let mut parts: Vec<ContentPart> = Vec::new();
            parts.push(ContentPart::Text(s));
            parts
        },
    }
}

} // verus!
