//! Request bodies and records of the embeddings, images, audio, files, models, moderations,
//! uploads, vector stores and batches endpoints; their builders; the multipart fields of the
//! upload-style requests; and endpoint paths.
//!
//! Numbers of type `f32` (a transcription temperature, a speech speed) are kept as the bits of
//! the `f32`.
use vstd::prelude::*;
use vstd::string::*;
use crate::text::{decimal, decimal_text, opt_view};
use crate::json::{entry_models, lemma_entry_models, Json, JsonObject, JsonValue};

verus! {

broadcast use vstd::string::group_string_axioms;

// --- paths -------------------------------------------------------------------

/// `{collection}/{id}{rest}`, the path of one item of a collection (or of something under it).
pub fn resource_path(collection: &str, id: &str, rest: &str) -> (p: String)
    ensures
        p@ == collection@ + "/"@ + id@ + rest@,
{
    let mut p = collection.to_string();
    p.append("/");
    p.append(id);
    p.append(rest);
    p
}

// --- embeddings --------------------------------------------------------------

/// What to embed: one text, several, or pre-tokenised input.
#[derive(Debug, Clone)]
pub enum EmbeddingInput {
    String(String),
    Strings(Vec<String>),
    TokenIds(Vec<i64>),
    TokenIdGroups(Vec<Vec<i64>>),
}

impl From<String> for EmbeddingInput {
    fn from(s: String) -> (r: EmbeddingInput) {
        EmbeddingInput::String(s)
    }
}

impl vstd::std_specs::convert::FromSpecImpl<String> for EmbeddingInput {
    open spec fn obeys_from_spec() -> bool {
        true
    }

    open spec fn from_spec(s: String) -> EmbeddingInput {
        EmbeddingInput::String(s)
    }
}

impl From<Vec<String>> for EmbeddingInput {
    fn from(v: Vec<String>) -> (r: EmbeddingInput) {
        EmbeddingInput::Strings(v)
    }
}

impl vstd::std_specs::convert::FromSpecImpl<Vec<String>> for EmbeddingInput {
    open spec fn obeys_from_spec() -> bool {
        true
    }

    open spec fn from_spec(v: Vec<String>) -> EmbeddingInput {
        EmbeddingInput::Strings(v)
    }
}

/// Request body of `/embeddings`.
#[derive(Debug, Clone)]
pub struct EmbeddingRequest {
    pub model: String,
    pub input: EmbeddingInput,
    /// `"float"` or `"base64"`.
    pub encoding_format: Option<String>,
    pub dimensions: Option<u32>,
    pub user: Option<String>,
}

/// Step-by-step construction of an `EmbeddingRequest`.
pub struct EmbeddingRequestBuilder {
    model: String,
    input: Option<EmbeddingInput>,
    encoding_format: Option<String>,
    dimensions: Option<u32>,
    user: Option<String>,
}

impl EmbeddingRequestBuilder {
    /// The model so far.
    pub closed spec fn model_so_far(&self) -> Seq<char> {
        self.model@
    }

    /// The input so far.
    pub closed spec fn input_so_far(&self) -> Option<EmbeddingInput> {
        self.input
    }

    /// The encoding format so far.
    pub closed spec fn encoding_so_far(&self) -> Option<Seq<char>> {
        opt_view(self.encoding_format)
    }

    /// The dimensions so far.
    pub closed spec fn dimensions_so_far(&self) -> Option<u32> {
        self.dimensions
    }

    /// The user so far.
    pub closed spec fn user_so_far(&self) -> Option<Seq<char>> {
        opt_view(self.user)
    }

    /// A builder for the embedding model `model`, nothing else set.
    pub fn new(model: &str) -> (b: EmbeddingRequestBuilder)
        ensures
            b.model_so_far() == model@,
            b.input_so_far() is None,
            b.encoding_so_far() is None,
            b.dimensions_so_far() is None,
            b.user_so_far() is None,
    {
        EmbeddingRequestBuilder {
            model: model.to_string(),
            input: None,
            encoding_format: None,
            dimensions: None,
            user: None,
        }
    }

    /// Sets the input.
    pub fn input(self, input: EmbeddingInput) -> (b: EmbeddingRequestBuilder)
        ensures
            b.input_so_far() == Some(input),
            b.model_so_far() == self.model_so_far(),
            b.encoding_so_far() == self.encoding_so_far(),
            b.dimensions_so_far() == self.dimensions_so_far(),
            b.user_so_far() == self.user_so_far(),
    {
        EmbeddingRequestBuilder { input: Some(input), ..self }
    }

    /// Sets the encoding format (`"float"` or `"base64"`).
    pub fn encoding_format(self, f: &str) -> (b: EmbeddingRequestBuilder)
        ensures
            b.encoding_so_far() == Some(f@),
            b.model_so_far() == self.model_so_far(),
            b.input_so_far() == self.input_so_far(),
            b.dimensions_so_far() == self.dimensions_so_far(),
            b.user_so_far() == self.user_so_far(),
    {
        EmbeddingRequestBuilder { encoding_format: Some(f.to_string()), ..self }
    }

    /// Truncates the embeddings to `d` dimensions.
    pub fn dimensions(self, d: u32) -> (b: EmbeddingRequestBuilder)
        ensures
            b.dimensions_so_far() == Some(d),
            b.model_so_far() == self.model_so_far(),
            b.input_so_far() == self.input_so_far(),
            b.encoding_so_far() == self.encoding_so_far(),
            b.user_so_far() == self.user_so_far(),
    {
        EmbeddingRequestBuilder { dimensions: Some(d), ..self }
    }

    /// Sets the end-user identifier.
    pub fn user(self, u: &str) -> (b: EmbeddingRequestBuilder)
        ensures
            b.user_so_far() == Some(u@),
            b.model_so_far() == self.model_so_far(),
            b.input_so_far() == self.input_so_far(),
            b.encoding_so_far() == self.encoding_so_far(),
            b.dimensions_so_far() == self.dimensions_so_far(),
    {
        EmbeddingRequestBuilder { user: Some(u.to_string()), ..self }
    }

    /// The request; an unset input becomes the empty string.
    pub fn build(self) -> (r: EmbeddingRequest)
        ensures
            r.model@ == self.model_so_far(),
            match self.input_so_far() {
                Some(i) => r.input == i,
                None => r.input matches EmbeddingInput::String(s) && s@.len() == 0,
            },
            opt_view(r.encoding_format) == self.encoding_so_far(),
            r.dimensions == self.dimensions_so_far(),
            opt_view(r.user) == self.user_so_far(),
    {
        EmbeddingRequest {
            model: self.model,
            input: match self.input {
                Some(i) => i,
                None => EmbeddingInput::String(String::new()),
            },
            encoding_format: self.encoding_format,
            dimensions: self.dimensions,
            user: self.user,
        }
    }
}

/// The first embedding of a response, or a stream error when there is none.
pub fn first_embedding<T>(data: Vec<T>) -> (r: Result<T, crate::error::OpenAiError>)
    ensures
        data@.len() > 0 ==> r == Ok::<T, crate::error::OpenAiError>(data@[0]),
        data@.len() == 0 ==> (r matches Err(e) && e matches crate::error::OpenAiError::Stream(m)
            && m@ == "empty embeddings response"@),
{
    let mut data = data;
    if data.len() > 0 {
        Ok(data.remove(0))
    } else {
        Err(crate::error::OpenAiError::stream("empty embeddings response"))
    }
}

// --- multipart fields ---------------------------------------------------------

/// One field of a multipart form.
#[derive(Debug, Clone)]
pub enum FormField {
    /// A text field.
    Text { name: String, value: String },
    /// A field holding the decimal text of an `f32` given by its bits.
    Float { name: String, bits: u32 },
    /// A file part.
    /// A file part; `mime` is empty when the part names no MIME type.
    File { name: String, file_name: String, mime: String, bytes: Vec<u8> },
}

/// A form field as values.
pub enum FieldView {
    Text(Seq<char>, Seq<char>),
    Float(Seq<char>, u32),
    File(Seq<char>, Seq<char>, Seq<char>, Seq<u8>),
}

/// The values of a form field.
pub open spec fn field_view(f: FormField) -> FieldView {
    match f {
        FormField::Text { name, value } => FieldView::Text(name@, value@),
        FormField::Float { name, bits } => FieldView::Float(name@, bits),
        FormField::File { name, file_name, mime, bytes } => FieldView::File(
            name@,
            file_name@,
            mime@,
            bytes@,
        ),
    }
}

/// The values of a list of form fields.
pub open spec fn fields_view(fs: Seq<FormField>) -> Seq<FieldView> {
    fs.map_values(|f: FormField| field_view(f))
}

/// A text field for each value that is present.
pub open spec fn opt_text(name: Seq<char>, v: Option<String>) -> Seq<FieldView> {
    match v {
        Some(x) => seq![FieldView::Text(name, x@)],
        None => Seq::empty(),
    }
}

/// A text field with the decimal count, when present.
pub open spec fn opt_count(name: Seq<char>, v: Option<u32>) -> Seq<FieldView> {
    match v {
        Some(n) => seq![FieldView::Text(name, decimal(n as int))],
        None => Seq::empty(),
    }
}

fn push_field(fs: &mut Vec<FormField>, f: FormField)
    ensures
        fields_view(final(fs)@) == fields_view(old(fs)@).push(field_view(f)),
{
    let ghost before = fs@;
    fs.push(f);
    assert(fields_view(fs@) =~= fields_view(before).push(field_view(f)));
}

fn push_opt_text(fs: &mut Vec<FormField>, name: &str, v: Option<String>)
    ensures
        fields_view(final(fs)@) == fields_view(old(fs)@) + opt_text(name@, v),
{
    match v {
        Some(x) => {
            push_field(fs, FormField::Text { name: name.to_string(), value: x });
            assert(fields_view(fs@) =~= fields_view(old(fs)@) + opt_text(name@, v));
        },
        None => {
            assert(fields_view(fs@) =~= fields_view(old(fs)@) + opt_text(name@, v));
        },
    }
}

fn push_opt_count(fs: &mut Vec<FormField>, name: &str, v: Option<u32>)
    ensures
        fields_view(final(fs)@) == fields_view(old(fs)@) + opt_count(name@, v),
{
    match v {
        Some(n) => {
            push_field(fs, FormField::Text { name: name.to_string(), value: decimal_text(n as i64) });
            assert(fields_view(fs@) =~= fields_view(old(fs)@) + opt_count(name@, v));
        },
        None => {
            assert(fields_view(fs@) =~= fields_view(old(fs)@) + opt_count(name@, v));
        },
    }
}

// --- images ------------------------------------------------------------------

/// Request body of `/images/generations`.
#[derive(Debug, Clone)]
pub struct ImageGenerationRequest {
    pub prompt: String,
    pub model: Option<String>,
    pub n: Option<u32>,
    pub size: Option<String>,
    pub quality: Option<String>,
    pub style: Option<String>,
    pub response_format: Option<String>,
    pub background: Option<String>,
    pub output_format: Option<String>,
    pub output_compression: Option<u32>,
    pub moderation: Option<String>,
    pub user: Option<String>,
}

/// Step-by-step construction of an `ImageGenerationRequest`.
pub struct ImageGenerationBuilder {
    inner: ImageGenerationRequest,
}

/// Two optional strings with the same text.
pub open spec fn same_opt(a: Option<String>, b: Option<String>) -> bool {
    opt_view(a) == opt_view(b)
}

/// Two generation requests that agree on every field but those `except` names (by position:
/// 0 model, 1 n, 2 size, 3 quality, 4 style, 5 response format, 6 background, 7 output format,
/// 8 output compression, 9 moderation, 10 user).
pub open spec fn same_generation_except(
    a: ImageGenerationRequest,
    b: ImageGenerationRequest,
    except: int,
) -> bool {
    &&& a.prompt@ == b.prompt@
    &&& (except != 0 ==> same_opt(a.model, b.model))
    &&& (except != 1 ==> a.n == b.n)
    &&& (except != 2 ==> same_opt(a.size, b.size))
    &&& (except != 3 ==> same_opt(a.quality, b.quality))
    &&& (except != 4 ==> same_opt(a.style, b.style))
    &&& (except != 5 ==> same_opt(a.response_format, b.response_format))
    &&& (except != 6 ==> same_opt(a.background, b.background))
    &&& (except != 7 ==> same_opt(a.output_format, b.output_format))
    &&& (except != 8 ==> a.output_compression == b.output_compression)
    &&& (except != 9 ==> same_opt(a.moderation, b.moderation))
    &&& (except != 10 ==> same_opt(a.user, b.user))
}

impl ImageGenerationBuilder {
    /// The request so far.
    pub closed spec fn current(&self) -> ImageGenerationRequest {
        self.inner
    }

    /// A builder for `prompt`, nothing else set.
    pub fn new(prompt: &str) -> (b: ImageGenerationBuilder)
        ensures
            b.current().prompt@ == prompt@,
            b.current().model is None && b.current().n is None && b.current().size is None,
            b.current().quality is None && b.current().style is None,
            b.current().response_format is None && b.current().background is None,
            b.current().output_format is None && b.current().output_compression is None,
            b.current().moderation is None && b.current().user is None,
    {
        ImageGenerationBuilder {
            inner: ImageGenerationRequest {
                prompt: prompt.to_string(),
                model: None,
                n: None,
                size: None,
                quality: None,
                style: None,
                response_format: None,
                background: None,
                output_format: None,
                output_compression: None,
                moderation: None,
                user: None,
            },
        }
    }

    /// Sets the model.
    pub fn model(self, m: &str) -> (b: ImageGenerationBuilder)
        ensures
            opt_view(b.current().model) == Some(m@),
            same_generation_except(b.current(), self.current(), 0),
    {
        ImageGenerationBuilder { inner: ImageGenerationRequest { model: Some(m.to_string()), ..self.inner } }
    }

    /// Sets how many images to generate.
    pub fn n(self, v: u32) -> (b: ImageGenerationBuilder)
        ensures
            b.current().n == Some(v),
            same_generation_except(b.current(), self.current(), 1),
    {
        ImageGenerationBuilder { inner: ImageGenerationRequest { n: Some(v), ..self.inner } }
    }

    /// Sets the size.
    pub fn size(self, v: &str) -> (b: ImageGenerationBuilder)
        ensures
            opt_view(b.current().size) == Some(v@),
            same_generation_except(b.current(), self.current(), 2),
    {
        ImageGenerationBuilder { inner: ImageGenerationRequest { size: Some(v.to_string()), ..self.inner } }
    }

    /// Sets the quality.
    pub fn quality(self, v: &str) -> (b: ImageGenerationBuilder)
        ensures
            opt_view(b.current().quality) == Some(v@),
            same_generation_except(b.current(), self.current(), 3),
    {
        ImageGenerationBuilder { inner: ImageGenerationRequest { quality: Some(v.to_string()), ..self.inner } }
    }

    /// Sets the style.
    pub fn style(self, v: &str) -> (b: ImageGenerationBuilder)
        ensures
            opt_view(b.current().style) == Some(v@),
            same_generation_except(b.current(), self.current(), 4),
    {
        ImageGenerationBuilder { inner: ImageGenerationRequest { style: Some(v.to_string()), ..self.inner } }
    }

    /// Sets the response format.
    pub fn response_format(self, v: &str) -> (b: ImageGenerationBuilder)
        ensures
            opt_view(b.current().response_format) == Some(v@),
            same_generation_except(b.current(), self.current(), 5),
    {
        ImageGenerationBuilder {
            inner: ImageGenerationRequest { response_format: Some(v.to_string()), ..self.inner },
        }
    }

    /// Sets the background.
    pub fn background(self, v: &str) -> (b: ImageGenerationBuilder)
        ensures
            opt_view(b.current().background) == Some(v@),
            same_generation_except(b.current(), self.current(), 6),
    {
        ImageGenerationBuilder {
            inner: ImageGenerationRequest { background: Some(v.to_string()), ..self.inner },
        }
    }

    /// Sets the output format.
    pub fn output_format(self, v: &str) -> (b: ImageGenerationBuilder)
        ensures
            opt_view(b.current().output_format) == Some(v@),
            same_generation_except(b.current(), self.current(), 7),
    {
        ImageGenerationBuilder {
            inner: ImageGenerationRequest { output_format: Some(v.to_string()), ..self.inner },
        }
    }

    /// Sets the output compression.
    pub fn output_compression(self, v: u32) -> (b: ImageGenerationBuilder)
        ensures
            b.current().output_compression == Some(v),
            same_generation_except(b.current(), self.current(), 8),
    {
        ImageGenerationBuilder { inner: ImageGenerationRequest { output_compression: Some(v), ..self.inner } }
    }

    /// Sets the moderation level.
    pub fn moderation(self, v: &str) -> (b: ImageGenerationBuilder)
        ensures
            opt_view(b.current().moderation) == Some(v@),
            same_generation_except(b.current(), self.current(), 9),
    {
        ImageGenerationBuilder {
            inner: ImageGenerationRequest { moderation: Some(v.to_string()), ..self.inner },
        }
    }

    /// Sets the end-user identifier.
    pub fn user(self, v: &str) -> (b: ImageGenerationBuilder)
        ensures
            opt_view(b.current().user) == Some(v@),
            same_generation_except(b.current(), self.current(), 10),
    {
        ImageGenerationBuilder { inner: ImageGenerationRequest { user: Some(v.to_string()), ..self.inner } }
    }

    /// The request.
    pub fn build(self) -> (r: ImageGenerationRequest)
        ensures
            r == self.current(),
    {
        self.inner
    }
}

/// Request of `/images/edits`: an image (and optional mask) to repaint from a prompt.
#[derive(Debug, Clone)]
pub struct ImageEditRequest {
    pub image: Vec<u8>,
    pub image_name: String,
    pub mask: Option<Vec<u8>>,
    pub mask_name: Option<String>,
    pub prompt: String,
    pub model: Option<String>,
    pub n: Option<u32>,
    pub size: Option<String>,
    pub response_format: Option<String>,
    pub user: Option<String>,
}

/// Request of `/images/variations`.
#[derive(Debug, Clone)]
pub struct ImageVariationRequest {
    pub image: Vec<u8>,
    pub image_name: String,
    pub model: Option<String>,
    pub n: Option<u32>,
    pub size: Option<String>,
    pub response_format: Option<String>,
    pub user: Option<String>,
}

/// A PNG file part.
pub open spec fn png_part(name: Seq<char>, file_name: Seq<char>, bytes: Seq<u8>) -> FieldView {
    FieldView::File(name, file_name, "image/png"@, bytes)
}

/// The optional trailing fields shared by edits and variations.
pub open spec fn image_option_fields(
    model: Option<String>,
    n: Option<u32>,
    size: Option<String>,
    response_format: Option<String>,
    user: Option<String>,
) -> Seq<FieldView> {
    opt_text("model"@, model) + opt_count("n"@, n) + opt_text("size"@, size) + opt_text(
        "response_format"@,
        response_format,
    ) + opt_text("user"@, user)
}

/// The form of an edit: the prompt, the image, the mask when both it and its name are given,
/// then the options that are set.
pub open spec fn edit_fields(r: ImageEditRequest) -> Seq<FieldView> {
    seq![FieldView::Text("prompt"@, r.prompt@), png_part("image"@, r.image_name@, r.image@)] + match (
        r.mask,
        r.mask_name,
    ) {
        (Some(m), Some(n)) => seq![png_part("mask"@, n@, m@)],
        _ => Seq::empty(),
    } + image_option_fields(r.model, r.n, r.size, r.response_format, r.user)
}

/// The form of a variation: the image, then the options that are set.
pub open spec fn variation_fields(r: ImageVariationRequest) -> Seq<FieldView> {
    seq![png_part("image"@, r.image_name@, r.image@)] + image_option_fields(
        r.model,
        r.n,
        r.size,
        r.response_format,
        r.user,
    )
}

fn push_image_options(
    fs: &mut Vec<FormField>,
    model: Option<String>,
    n: Option<u32>,
    size: Option<String>,
    response_format: Option<String>,
    user: Option<String>,
)
    ensures
        fields_view(final(fs)@) == fields_view(old(fs)@) + image_option_fields(
            model,
            n,
            size,
            response_format,
            user,
        ),
{
    let ghost (m0, n0, s0, r0, u0) = (model, n, size, response_format, user);
    push_opt_text(fs, "model", model);
    push_opt_count(fs, "n", n);
    push_opt_text(fs, "size", size);
    push_opt_text(fs, "response_format", response_format);
    push_opt_text(fs, "user", user);
    assert(fields_view(fs@) =~= fields_view(old(fs)@) + image_option_fields(m0, n0, s0, r0, u0));
}

/// The multipart fields of an image edit, in order (see `edit_fields`).
pub fn build_edit_form(req: ImageEditRequest) -> (fs: Vec<FormField>)
    ensures
        fields_view(fs@) == edit_fields(req),
{
    let ghost r = req;
    let ImageEditRequest {
        image,
        image_name,
        mask,
        mask_name,
        prompt,
        model,
        n,
        size,
        response_format,
        user,
    } = req;
    let mut fs: Vec<FormField> = Vec::new();
    push_field(&mut fs, FormField::Text { name: "prompt".to_string(), value: prompt });
    push_field(
        &mut fs,
        FormField::File {
            name: "image".to_string(),
            file_name: image_name,
            mime: "image/png".to_string(),
            bytes: image,
        },
    );
    let ghost head = fields_view(fs@);
    match (mask, mask_name) {
        (Some(m), Some(nm)) => {
            push_field(
                &mut fs,
                FormField::File {
                    name: "mask".to_string(),
                    file_name: nm,
                    mime: "image/png".to_string(),
                    bytes: m,
                },
            );
        },
        _ => {},
    }
    push_image_options(&mut fs, model, n, size, response_format, user);
    proof {
        assert(head =~= seq![
            FieldView::Text("prompt"@, r.prompt@),
            png_part("image"@, r.image_name@, r.image@),
        ]);
        assert(fields_view(fs@) =~= edit_fields(r));
    }
    fs
}

/// The multipart fields of an image variation, in order (see `variation_fields`).
pub fn build_variation_form(req: ImageVariationRequest) -> (fs: Vec<FormField>)
    ensures
        fields_view(fs@) == variation_fields(req),
{
    let ghost r = req;
    let ImageVariationRequest { image, image_name, model, n, size, response_format, user } = req;
    let mut fs: Vec<FormField> = Vec::new();
    push_field(
        &mut fs,
        FormField::File {
            name: "image".to_string(),
            file_name: image_name,
            mime: "image/png".to_string(),
            bytes: image,
        },
    );
    let ghost head = fields_view(fs@);
    push_image_options(&mut fs, model, n, size, response_format, user);
    proof {
        assert(head =~= seq![png_part("image"@, r.image_name@, r.image@)]);
        assert(fields_view(fs@) =~= variation_fields(r));
    }
    fs
}

/// One generated image.
#[derive(Debug, Clone)]
pub struct ImageData {
    pub url: Option<String>,
    pub b64_json: Option<String>,
    pub revised_prompt: Option<String>,
}

/// Response of the images endpoints.
#[derive(Debug, Clone)]
pub struct ImageResponse {
    pub created: i64,
    pub data: Vec<ImageData>,
    /// Token usage, as JSON text.
    pub usage: Option<String>,
}

// --- audio -------------------------------------------------------------------

/// Response formats of a transcription.
#[derive(Debug, Clone, Copy, PartialEq, Eq)]
pub enum TranscriptionFormat {
    Json,
    Text,
    Srt,
    VerboseJson,
    Vtt,
}

/// The wire name of a transcription format.
pub open spec fn format_name(f: TranscriptionFormat) -> Seq<char> {
    match f {
        TranscriptionFormat::Json => "json"@,
        TranscriptionFormat::Text => "text"@,
        TranscriptionFormat::Srt => "srt"@,
        TranscriptionFormat::VerboseJson => "verbose_json"@,
        TranscriptionFormat::Vtt => "vtt"@,
    }
}

impl TranscriptionFormat {
    /// The wire name.
    pub fn as_str(&self) -> (s: &'static str)
        ensures
            s@ == format_name(*self),
    {
        match self {
            TranscriptionFormat::Json => "json",
            TranscriptionFormat::Text => "text",
            TranscriptionFormat::Srt => "srt",
            TranscriptionFormat::VerboseJson => "verbose_json",
            TranscriptionFormat::Vtt => "vtt",
        }
    }
}

/// Request of a transcription or translation.
#[derive(Debug, Clone)]
pub struct TranscriptionRequest {
    pub file: Vec<u8>,
    pub file_name: String,
    /// MIME type of the audio; `audio/mpeg` when unset.
    pub mime_type: Option<String>,
    pub model: String,
    pub language: Option<String>,
    pub prompt: Option<String>,
    pub response_format: Option<TranscriptionFormat>,
    /// Bits of the `f32` sampling temperature.
    pub temperature: Option<u32>,
    pub timestamp_granularities: Option<Vec<String>>,
}

/// One `timestamp_granularities[]` field per value.
pub open spec fn granularity_fields(g: Seq<String>) -> Seq<FieldView> {
    g.map_values(|v: String| FieldView::Text("timestamp_granularities[]"@, v@))
}

/// The form of a transcription: the model, the audio file (`audio/mpeg` unless a MIME type is
/// given), then language, prompt, response format and temperature when set, and one field per
/// timestamp granularity.
pub open spec fn audio_fields(r: TranscriptionRequest) -> Seq<FieldView> {
    audio_head(r) + opt_text("language"@, r.language) + opt_text("prompt"@, r.prompt) + audio_tail(r)
}

fn push_granularities(fs: &mut Vec<FormField>, g: &Vec<String>)
    ensures
        fields_view(final(fs)@) == fields_view(old(fs)@) + granularity_fields(g@),
{
    let mut i: usize = 0;
    while i < g.len()
        invariant
            i <= g.len(),
            fields_view(fs@) == fields_view(old(fs)@) + granularity_fields(g@.take(i as int)),
        decreases g.len() - i,
    {
        push_field(
            fs,
            FormField::Text { name: "timestamp_granularities[]".to_string(), value: g[i].clone() },
        );
        assert(granularity_fields(g@.take(i + 1)) =~= granularity_fields(g@.take(i as int)).push(
            FieldView::Text("timestamp_granularities[]"@, g@[i as int]@),
        ));
        i += 1;
    }
    assert(g@.take(g@.len() as int) =~= g@);
}

/// The leading fields of a transcription form: the model and the audio file.
pub open spec fn audio_head(r: TranscriptionRequest) -> Seq<FieldView> {
    seq![
        FieldView::Text("model"@, r.model@),
        FieldView::File(
            "file"@,
            r.file_name@,
            match r.mime_type {
                Some(m) => m@,
                None => "audio/mpeg"@,
            },
            r.file@,
        ),
    ]
}

/// The fields of a transcription form after the language and prompt.
pub open spec fn audio_tail(r: TranscriptionRequest) -> Seq<FieldView> {
    (match r.response_format {
        Some(f) => seq![FieldView::Text("response_format"@, format_name(f))],
        None => Seq::empty(),
    }) + match r.temperature {
        Some(t) => seq![FieldView::Float("temperature"@, t)],
        None => Seq::empty(),
    } + match r.timestamp_granularities {
        Some(g) => granularity_fields(g@),
        None => Seq::empty(),
    }
}

fn push_audio_head(fs: &mut Vec<FormField>, req: &TranscriptionRequest)
    ensures
        fields_view(final(fs)@) == fields_view(old(fs)@) + audio_head(*req),
{
    push_field(fs, FormField::Text { name: "model".to_string(), value: req.model.clone() });
    let mime = match &req.mime_type {
        Some(m) => m.clone(),
        None => "audio/mpeg".to_string(),
    };
    push_field(
        fs,
        FormField::File {
            name: "file".to_string(),
            file_name: req.file_name.clone(),
            mime,
            bytes: req.file.clone(),
        },
    );
    assert(fields_view(fs@) =~= fields_view(old(fs)@) + audio_head(*req));
}

fn push_audio_tail(fs: &mut Vec<FormField>, req: &TranscriptionRequest)
    ensures
        fields_view(final(fs)@) == fields_view(old(fs)@) + audio_tail(*req),
{
    match req.response_format {
        Some(f) => push_field(
            fs,
            FormField::Text { name: "response_format".to_string(), value: f.as_str().to_string() },
        ),
        None => {},
    }
    match req.temperature {
        Some(t) => push_field(fs, FormField::Float { name: "temperature".to_string(), bits: t }),
        None => {},
    }
    match &req.timestamp_granularities {
        Some(g) => push_granularities(fs, g),
        None => {},
    }
    assert(fields_view(fs@) =~= fields_view(old(fs)@) + audio_tail(*req));
}

/// The multipart fields of a transcription request, in order (see `audio_fields`).
pub fn build_audio_form(req: &TranscriptionRequest) -> (fs: Vec<FormField>)
    ensures
        fields_view(fs@) == audio_fields(*req),
{
    let mut fs: Vec<FormField> = Vec::new();
    push_audio_head(&mut fs, req);
    push_opt_text(&mut fs, "language", crate::text::clone_opt(&req.language));
    push_opt_text(&mut fs, "prompt", crate::text::clone_opt(&req.prompt));
    push_audio_tail(&mut fs, req);
    assert(fields_view(fs@) =~= audio_fields(*req));
    fs
}

/// Step-by-step construction of a `TranscriptionRequest`.
pub struct TranscriptionRequestBuilder {
    inner: TranscriptionRequest,
}

impl TranscriptionRequestBuilder {
    /// The request so far.
    pub closed spec fn current(&self) -> TranscriptionRequest {
        self.inner
    }

    /// A builder for `model`, with no audio and nothing else set.
    pub fn new(model: &str) -> (b: TranscriptionRequestBuilder)
        ensures
            b.current().model@ == model@,
            b.current().file@.len() == 0 && b.current().file_name@.len() == 0,
            b.current().mime_type is None && b.current().language is None,
            b.current().prompt is None && b.current().response_format is None,
            b.current().temperature is None && b.current().timestamp_granularities is None,
    {
        TranscriptionRequestBuilder {
            inner: TranscriptionRequest {
                file: Vec::new(),
                file_name: String::new(),
                mime_type: None,
                model: model.to_string(),
                language: None,
                prompt: None,
                response_format: None,
                temperature: None,
                timestamp_granularities: None,
            },
        }
    }

    /// Sets the audio and its file name.
    pub fn file_bytes(self, bytes: Vec<u8>, file_name: &str) -> (b: TranscriptionRequestBuilder)
        ensures
            b.current().file == bytes && b.current().file_name@ == file_name@,
            b.current().model == self.current().model,
            b.current().mime_type == self.current().mime_type,
            b.current().language == self.current().language,
            b.current().prompt == self.current().prompt,
            b.current().response_format == self.current().response_format,
            b.current().temperature == self.current().temperature,
            b.current().timestamp_granularities == self.current().timestamp_granularities,
    {
        TranscriptionRequestBuilder {
            inner: TranscriptionRequest { file: bytes, file_name: file_name.to_string(), ..self.inner },
        }
    }

    /// Sets the MIME type of the audio.
    pub fn mime_type(self, m: &str) -> (b: TranscriptionRequestBuilder)
        ensures
            opt_view(b.current().mime_type) == Some(m@),
            b.current() == (TranscriptionRequest { mime_type: b.current().mime_type, ..self.current() }),
    {
        TranscriptionRequestBuilder {
            inner: TranscriptionRequest { mime_type: Some(m.to_string()), ..self.inner },
        }
    }

    /// Sets the language hint.
    pub fn language(self, l: &str) -> (b: TranscriptionRequestBuilder)
        ensures
            opt_view(b.current().language) == Some(l@),
            b.current() == (TranscriptionRequest { language: b.current().language, ..self.current() }),
    {
        TranscriptionRequestBuilder {
            inner: TranscriptionRequest { language: Some(l.to_string()), ..self.inner },
        }
    }

    /// Sets the bias prompt.
    pub fn prompt(self, p: &str) -> (b: TranscriptionRequestBuilder)
        ensures
            opt_view(b.current().prompt) == Some(p@),
            b.current() == (TranscriptionRequest { prompt: b.current().prompt, ..self.current() }),
    {
        TranscriptionRequestBuilder {
            inner: TranscriptionRequest { prompt: Some(p.to_string()), ..self.inner },
        }
    }

    /// Sets the response format.
    pub fn response_format(self, f: TranscriptionFormat) -> (b: TranscriptionRequestBuilder)
        ensures
            b.current() == (TranscriptionRequest { response_format: Some(f), ..self.current() }),
    {
        TranscriptionRequestBuilder {
            inner: TranscriptionRequest { response_format: Some(f), ..self.inner },
        }
    }

    /// Sets the temperature (bits of the `f32`).
    pub fn temperature(self, bits: u32) -> (b: TranscriptionRequestBuilder)
        ensures
            b.current() == (TranscriptionRequest { temperature: Some(bits), ..self.current() }),
    {
        TranscriptionRequestBuilder {
            inner: TranscriptionRequest { temperature: Some(bits), ..self.inner },
        }
    }

    /// Sets the timestamp granularities.
    pub fn timestamp_granularities(self, g: Vec<String>) -> (b: TranscriptionRequestBuilder)
        ensures
            b.current() == (TranscriptionRequest { timestamp_granularities: Some(g), ..self.current() }),
    {
        TranscriptionRequestBuilder {
            inner: TranscriptionRequest { timestamp_granularities: Some(g), ..self.inner },
        }
    }

    /// The request.
    pub fn build(self) -> (r: TranscriptionRequest)
        ensures
            r == self.current(),
    {
        self.inner
    }
}

/// Request body of `/audio/speech`.
#[derive(Debug, Clone)]
pub struct SpeechRequest {
    pub model: String,
    pub input: String,
    pub voice: String,
    pub response_format: Option<String>,
    /// Bits of the `f32` playback speed.
    pub speed: Option<u32>,
    pub instructions: Option<String>,
}

/// Step-by-step construction of a `SpeechRequest`.
pub struct SpeechRequestBuilder {
    inner: SpeechRequest,
}

impl SpeechRequestBuilder {
    /// The request so far.
    pub closed spec fn current(&self) -> SpeechRequest {
        self.inner
    }

    /// A builder for a model, voice and text, nothing else set.
    pub fn new(model: &str, voice: &str, input: &str) -> (b: SpeechRequestBuilder)
        ensures
            b.current().model@ == model@,
            b.current().voice@ == voice@,
            b.current().input@ == input@,
            b.current().response_format is None && b.current().speed is None,
            b.current().instructions is None,
    {
        SpeechRequestBuilder {
            inner: SpeechRequest {
                model: model.to_string(),
                voice: voice.to_string(),
                input: input.to_string(),
                response_format: None,
                speed: None,
                instructions: None,
            },
        }
    }

    /// Sets the audio format.
    pub fn response_format(self, f: &str) -> (b: SpeechRequestBuilder)
        ensures
            opt_view(b.current().response_format) == Some(f@),
            b.current() == (SpeechRequest { response_format: b.current().response_format, ..self.current() }),
    {
        SpeechRequestBuilder {
            inner: SpeechRequest { response_format: Some(f.to_string()), ..self.inner },
        }
    }

    /// Sets the playback speed (bits of the `f32`).
    pub fn speed(self, bits: u32) -> (b: SpeechRequestBuilder)
        ensures
            b.current() == (SpeechRequest { speed: Some(bits), ..self.current() }),
    {
        SpeechRequestBuilder { inner: SpeechRequest { speed: Some(bits), ..self.inner } }
    }

    /// Sets the voice direction.
    pub fn instructions(self, i: &str) -> (b: SpeechRequestBuilder)
        ensures
            opt_view(b.current().instructions) == Some(i@),
            b.current() == (SpeechRequest { instructions: b.current().instructions, ..self.current() }),
    {
        SpeechRequestBuilder {
            inner: SpeechRequest { instructions: Some(i.to_string()), ..self.inner },
        }
    }

    /// The request.
    pub fn build(self) -> (r: SpeechRequest)
        ensures
            r == self.current(),
    {
        self.inner
    }
}

// --- files -------------------------------------------------------------------

/// What an uploaded file is for.
#[derive(Debug, Clone, Copy, PartialEq, Eq)]
pub enum FilePurpose {
    Assistants,
    Batch,
    FineTune,
    Vision,
    UserData,
    Evals,
}

/// The wire name of a purpose.
pub open spec fn purpose_name(p: FilePurpose) -> Seq<char> {
    match p {
        FilePurpose::Assistants => "assistants"@,
        FilePurpose::Batch => "batch"@,
        FilePurpose::FineTune => "fine-tune"@,
        FilePurpose::Vision => "vision"@,
        FilePurpose::UserData => "user_data"@,
        FilePurpose::Evals => "evals"@,
    }
}

impl FilePurpose {
    /// The wire name.
    pub fn as_str(&self) -> (s: &'static str)
        ensures
            s@ == purpose_name(*self),
    {
        match self {
            FilePurpose::Assistants => "assistants",
            FilePurpose::Batch => "batch",
            FilePurpose::FineTune => "fine-tune",
            FilePurpose::Vision => "vision",
            FilePurpose::UserData => "user_data",
            FilePurpose::Evals => "evals",
        }
    }
}

/// The form of a file upload: the purpose, then the file.
pub fn build_file_form(bytes: Vec<u8>, file_name: &str, purpose: FilePurpose) -> (fs: Vec<
    FormField,
>)
    ensures
        fs@.len() == 2,
        field_view(fs@[0]) == FieldView::Text("purpose"@, purpose_name(purpose)),
        fs@[1] matches FormField::File { name, file_name: f, mime, bytes: b } && name@ == "file"@
            && f@ == file_name@ && mime@.len() == 0 && b == bytes,
{
    let mut fs: Vec<FormField> = Vec::new();
    fs.push(FormField::Text { name: "purpose".to_string(), value: purpose.as_str().to_string() });
    fs.push(
        FormField::File {
            name: "file".to_string(),
            file_name: file_name.to_string(),
            mime: String::new(),
            bytes,
        },
    );
    fs
}

/// The form of one upload part: the bytes as a file part named `data`, file name `part`.
pub fn build_upload_part_form(data: Vec<u8>) -> (fs: Vec<FormField>)
    ensures
        fs@.len() == 1,
        fs@[0] matches FormField::File { name, file_name, mime, bytes } && name@ == "data"@
            && file_name@ == "part"@ && mime@.len() == 0 && bytes == data,
{
    let mut fs: Vec<FormField> = Vec::new();
    fs.push(
        FormField::File {
            name: "data".to_string(),
            file_name: "part".to_string(),
            mime: String::new(),
            bytes: data,
        },
    );
    fs
}

/// An uploaded file.
#[derive(Debug, Clone)]
pub struct FileObject {
    pub id: String,
    pub object: String,
    pub bytes: u64,
    pub created_at: i64,
    pub filename: String,
    pub purpose: String,
    pub status: Option<String>,
    pub status_details: Option<String>,
}

/// A page of files.
#[derive(Debug, Clone)]
pub struct FileList {
    pub object: String,
    pub data: Vec<FileObject>,
    pub has_more: Option<bool>,
}

/// Confirmation of a deleted file.
#[derive(Debug, Clone)]
pub struct DeletedFile {
    pub id: String,
    pub object: String,
    pub deleted: bool,
}

// --- models ------------------------------------------------------------------

/// The models available.
#[derive(Debug, Clone)]
pub struct ModelList {
    pub object: String,
    pub data: Vec<ModelInfo>,
}

/// One model.
#[derive(Debug, Clone)]
pub struct ModelInfo {
    pub id: String,
    pub object: String,
    pub created: i64,
    pub owned_by: String,
}

/// Confirmation of a deleted model.
#[derive(Debug, Clone)]
pub struct DeletedModel {
    pub id: String,
    pub object: String,
    pub deleted: bool,
}

// --- moderations -------------------------------------------------------------

/// An image given by URL, for moderation.
#[derive(Debug, Clone)]
pub struct ImageUrlContent {
    pub url: String,
}

/// One typed moderation input.
#[derive(Debug, Clone)]
pub enum ModerationItem {
    Text { text: String },
    ImageUrl { image_url: ImageUrlContent },
}

/// What to moderate: a text, several, or typed items.
#[derive(Debug, Clone)]
pub enum ModerationInput {
    Text(String),
    Texts(Vec<String>),
    Items(Vec<ModerationItem>),
}

impl From<String> for ModerationInput {
    fn from(s: String) -> (r: ModerationInput) {
        ModerationInput::Text(s)
    }
}

impl vstd::std_specs::convert::FromSpecImpl<String> for ModerationInput {
    open spec fn obeys_from_spec() -> bool {
        true
    }

    open spec fn from_spec(s: String) -> ModerationInput {
        ModerationInput::Text(s)
    }
}

impl From<Vec<String>> for ModerationInput {
    fn from(v: Vec<String>) -> (r: ModerationInput) {
        ModerationInput::Texts(v)
    }
}

impl vstd::std_specs::convert::FromSpecImpl<Vec<String>> for ModerationInput {
    open spec fn obeys_from_spec() -> bool {
        true
    }

    open spec fn from_spec(v: Vec<String>) -> ModerationInput {
        ModerationInput::Texts(v)
    }
}

/// Request body of `/moderations`.
#[derive(Debug, Clone)]
pub struct ModerationRequest {
    pub input: ModerationInput,
    pub model: Option<String>,
}

// --- uploads -----------------------------------------------------------------

/// Request body starting a resumable upload.
#[derive(Debug, Clone)]
pub struct UploadCreateRequest {
    pub filename: String,
    pub purpose: String,
    pub bytes: u64,
    pub mime_type: String,
}

/// A resumable upload.
#[derive(Debug, Clone)]
pub struct Upload {
    pub id: String,
    pub object: String,
    pub bytes: u64,
    pub created_at: i64,
    pub filename: String,
    pub purpose: String,
    pub status: String,
    pub expires_at: i64,
    pub file: Option<FileObject>,
}

/// One uploaded part.
#[derive(Debug, Clone)]
pub struct UploadPart {
    pub id: String,
    pub object: String,
    pub upload_id: String,
    pub created_at: i64,
}

// --- vector stores, batches ----------------------------------------------------

/// The body that attaches an uploaded file to a vector store: `{"file_id": id}`.
pub open spec fn attach_file_body(file_id: Seq<char>) -> Json {
    Json::Object(seq![("file_id"@, Json::Str(file_id))])
}

/// Builds the body that attaches file `file_id` to a vector store (see `attach_file_body`).
pub fn attach_file_request_body(file_id: &str) -> (v: JsonValue)
    ensures
        v.model() == attach_file_body(file_id@),
{
    let mut entries: Vec<(String, JsonValue)> = Vec::new();
    entries.push(("file_id".to_string(), JsonValue::String(file_id.to_string())));
    proof {
        reveal_strlit("file_id");
        lemma_entry_models(entries@);
        assert(entry_models(entries@) =~= seq![("file_id"@, Json::Str(file_id@))]);
    }
    JsonValue::Object(JsonObject { entries })
}

/// Confirmation of a deleted vector store.
#[derive(Debug, Clone)]
pub struct DeletedVectorStore {
    pub id: String,
    pub object: String,
    pub deleted: bool,
}

/// Confirmation of a file detached from a vector store.
#[derive(Debug, Clone)]
pub struct DeletedVectorStoreFile {
    pub id: String,
    pub object: String,
    pub deleted: bool,
}

/// Request body of `/batches`.
#[derive(Debug, Clone)]
pub struct BatchCreateRequest {
    pub input_file_id: String,
    pub endpoint: String,
    pub completion_window: String,
    /// Metadata entries, each key once.
    pub metadata: Option<Vec<(String, String)>>,
}

} // verus!
