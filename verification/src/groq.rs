//! Groq Whisper transcription over the OpenAI-compatible multipart endpoint:
//! the provider, the form it posts, and what it makes of the reply.
use vstd::prelude::*;
use crate::text::{is_white_space, lemma_trimmed_empty, owned, starts_with, trimmed};
use crate::transcription::{
    check_ready, engine_view, finish_transcript, key_is_present, key_present, language_code,
    language_code_of, opt_view, readiness, reply_body, reply_outcome, transcript_outcome,
    HttpReply, TranscriptionError,
};

verus! {

/// The model used when none, or one that is not a `whisper-*` model, is selected.
pub open spec fn default_model() -> Seq<char> {
    "whisper-large-v3-turbo"@
}

/// The model a provider keeps for a selected `model`: the selection itself when
/// it is a non-blank `whisper-*` model id, the default otherwise.
pub open spec fn selected_model(model: Seq<char>) -> Seq<char> {
    if trimmed(model).len() == 0 || !"whisper-"@.is_prefix_of(model) {
        default_model()
    } else {
        model
    }
}

/// The text fields of the upload form, in order: model, response format,
/// temperature, and the language when there is a code.
pub open spec fn form_fields(model: Seq<char>, code: Option<Seq<char>>) -> Seq<
    (Seq<char>, Seq<char>),
> {
    let base = seq![
        ("model"@, model),
        ("response_format"@, "json"@),
        ("temperature"@, "0"@),
    ];
    match code {
        Some(c) => base.push(("language"@, c)),
        None => base,
    }
}

/// A Groq Whisper speech-to-text provider: an API key and a `whisper-*` model.
pub struct GroqWhisperProvider {
    api_key: String,
    model: String,
}

/// The provider as plain values.
pub ghost struct GroqView {
    pub api_key: Seq<char>,
    pub model: Seq<char>,
}

impl View for GroqWhisperProvider {
    type V = GroqView;

    closed spec fn view(&self) -> GroqView {
        GroqView { api_key: self.api_key@, model: self.model@ }
    }
}

/// One text field of the upload form.
#[derive(Debug)]
pub struct FormField {
    pub name: String,
    pub value: String,
}

/// What the provider posts: to `url`, with `bearer_token` as bearer
/// authorization, a multipart form whose file part `file_field` carries the
/// WAVE audio as `file_name` of type `mime`, followed by `fields`, within
/// `timeout_secs` seconds.
pub struct GroqRequest {
    pub url: String,
    pub bearer_token: String,
    pub file_field: String,
    pub file_name: String,
    pub mime: String,
    pub fields: Vec<FormField>,
    pub timeout_secs: u64,
}

/// The form fields as plain values.
pub open spec fn fields_view(fields: Seq<FormField>) -> Seq<(Seq<char>, Seq<char>)> {
    fields.map_values(|f: FormField| (f.name@, f.value@))
}

/// The part of a Groq reply that the provider reads.
#[derive(Debug)]
pub struct GroqTranscriptionResponse {
    pub text: Option<String>,
}

/// The parsed reply as the transcript it holds, or the parse error.
pub open spec fn parsed_transcript(parsed: Result<GroqTranscriptionResponse, String>) -> Result<
    Option<Seq<char>>,
    Seq<char>,
> {
    match parsed {
        Ok(resp) => Ok(opt_view(resp.text)),
        Err(e) => Err(e@),
    }
}

fn field(name: &str, value: String) -> (f: FormField)
    ensures
        f.name@ == name@,
        f.value@ == value@,
{
    FormField { name: owned(name), value }
}

impl GroqWhisperProvider {
    /// Every provider holds a `whisper-*` model.
    #[verifier::type_invariant]
    spec fn model_is_valid(self) -> bool {
        "whisper-"@.is_prefix_of(self.model@)
    }

    /// A provider for `api_key`. A blank model, or one that does not start
    /// with `whisper-`, is replaced by `whisper-large-v3-turbo`.
    pub fn new(api_key: String, model: String) -> (p: Self)
        ensures
            p@.api_key == api_key@,
            p@.model == selected_model(model@),
    {
        proof {
            lemma_selected_model_stable(model@);
        }
        let blank = !key_is_present(model.as_str());
        let model = if blank || !starts_with(model.as_str(), "whisper-") {
            owned("whisper-large-v3-turbo")
        } else {
            model
        };
        GroqWhisperProvider { api_key, model }
    }

    /// Whether the provider can be called: its API key is not blank.
    pub fn is_model_loaded(&self) -> (r: bool)
        ensures
            r == key_present(self@.api_key),
    {
        key_is_present(self.api_key.as_str())
    }

    /// The model the provider uses, always a `whisper-*` model.
    pub fn get_current_model(&self) -> (r: Option<String>)
        ensures
            opt_view(r) == Some(self@.model),
            "whisper-"@.is_prefix_of(self@.model),
    {
        proof {
            use_type_invariant(self);
        }
        Some(self.model.clone())
    }

    /// The provider's display name.
    pub fn provider_name(&self) -> (r: &'static str)
        ensures
            r@ == "Groq Whisper"@,
    {
        "Groq Whisper"
    }

    /// Decides whether a transcription of `samples` samples in `language` is
    /// attempted: the key must not be blank and there must be enough samples;
    /// then the request goes to the transcription endpoint with the key as
    /// bearer token and the form fields for the model and language.
    pub fn prepare(&self, samples: usize, language: Option<String>) -> (r: Result<
        GroqRequest,
        TranscriptionError,
    >)
        ensures
            match r {
                Err(e) => readiness(self@.api_key, samples) == Err::<(), TranscriptionError>(e),
                Ok(req) => {
                    &&& readiness(self@.api_key, samples) is Ok
                    &&& req.url@ == "https://api.groq.com/openai/v1/audio/transcriptions"@
                    &&& req.bearer_token@ == self@.api_key
                    &&& req.file_field@ == "file"@
                    &&& req.file_name@ == "chunk.wav"@
                    &&& req.mime@ == "audio/wav"@
                    &&& req.timeout_secs == 30
                    &&& fields_view(req.fields@) == form_fields(
                        self@.model,
                        language_code_of(opt_view(language)),
                    )
                },
            },
    {
        match check_ready(self.api_key.as_str(), samples) {
            Err(e) => Err(e),
            Ok(()) => {
                let mut fields: Vec<FormField> = Vec::new();
                fields.push(field("model", self.model.clone()));
                fields.push(field("response_format", owned("json")));
                fields.push(field("temperature", owned("0")));
                let code = language_code(language);
                match code {
                    Some(c) => {
                        fields.push(field("language", c));
                    },
                    None => {},
                }
                assert(fields_view(fields@) == form_fields(
                    self@.model,
                    language_code_of(opt_view(language)),
                ));
                Ok(
                    GroqRequest {
                        url: owned("https://api.groq.com/openai/v1/audio/transcriptions"),
                        bearer_token: self.api_key.clone(),
                        file_field: owned("file"),
                        file_name: owned("chunk.wav"),
                        mime: owned("audio/wav"),
                        fields,
                        timeout_secs: 30,
                    },
                )
            },
        }
    }

    /// What the provider makes of the reply to its request: the body to parse,
    /// or the engine failure (`Groq request failed: ..`,
    /// `Groq transcription failed (<status>): <body>`, or the read error).
    pub fn reply_body(reply: HttpReply) -> (r: Result<String, TranscriptionError>)
        ensures
            engine_view(r) == Some(reply_outcome("Groq"@, reply)),
    {
        reply_body("Groq", reply)
    }

    /// The text of the parsed reply: its `text`, trimmed (empty when there is
    /// none); a parse error becomes `Groq response parse error: ..`.
    pub fn finish(parsed: Result<GroqTranscriptionResponse, String>) -> (r: Result<
        String,
        TranscriptionError,
    >)
        ensures
            engine_view(r) == Some(transcript_outcome("Groq"@, parsed_transcript(parsed))),
    {
        let found = match parsed {
            Ok(resp) => Ok(resp.text),
            Err(e) => Err(e),
        };
        finish_transcript("Groq", found)
    }
}

/// The model a provider keeps is always a `whisper-*` model, and selecting
/// it again keeps it: a provider built from another provider's model uses
/// the same model.
pub proof fn lemma_selected_model_stable(model: Seq<char>)
    ensures
        "whisper-"@.is_prefix_of(selected_model(model)),
        selected_model(selected_model(model)) == selected_model(model),
{
    reveal_strlit("whisper-");
    reveal_strlit("whisper-large-v3-turbo");
    let m = selected_model(model);
    assert("whisper-"@.is_prefix_of(m)) by {
        if m == default_model() {
            assert(m.subrange(0, 8) == "whisper-"@);
        }
    }
    assert(m.subrange(0, 8)[0] == m[0]);
    assert("whisper-"@[0] == 'w');
    assert(!is_white_space(m[0]));
    lemma_trimmed_empty(m);
}

/// The upload form always starts with the provider's model, then
/// `response_format=json` and `temperature=0`, and ends with the language
/// code when there is one, whatever the model and the code.
pub proof fn lemma_form_fields_shape(model: Seq<char>, code: Option<Seq<char>>)
    ensures
        form_fields(model, code).len() == (if code is Some { 4int } else { 3int }),
        form_fields(model, code)[0] == ("model"@, model),
        form_fields(model, code)[1] == ("response_format"@, "json"@),
        form_fields(model, code)[2] == ("temperature"@, "0"@),
        code is Some ==> form_fields(model, code)[3] == ("language"@, code->0),
{
}

/// Finishing a parsed reply with text `t` gives `t` trimmed, one without text
/// gives the empty text, and a parse error gives the Groq parse message.
pub proof fn lemma_finish_reads_text(t: String, e: String)
    ensures
        transcript_outcome(
            "Groq"@,
            parsed_transcript(Ok(GroqTranscriptionResponse { text: Some(t) })),
        ) == Ok::<Seq<char>, Seq<char>>(trimmed(t@)),
        transcript_outcome("Groq"@, parsed_transcript(Ok(GroqTranscriptionResponse { text: None })))
            == Ok::<Seq<char>, Seq<char>>(Seq::empty()),
        transcript_outcome("Groq"@, parsed_transcript(Err(e))) == Err::<Seq<char>, Seq<char>>(
            "Groq"@ + " response parse error: "@ + e@,
        ),
{
}

/// A selected `whisper-*` model is kept as it is; any other selection gives
/// `whisper-large-v3-turbo`.
pub proof fn lemma_selected_model_keeps_whisper(model: Seq<char>)
    ensures
        "whisper-"@.is_prefix_of(model) ==> selected_model(model) == model,
        !"whisper-"@.is_prefix_of(model) ==> selected_model(model) == "whisper-large-v3-turbo"@,
{
    reveal_strlit("whisper-");
    if "whisper-"@.is_prefix_of(model) {
        assert(model.subrange(0, 8)[0] == model[0]);
        assert("whisper-"@[0] == 'w');
        assert(!is_white_space(model[0]));
        lemma_trimmed_empty(model);
    }
}

} // verus!
