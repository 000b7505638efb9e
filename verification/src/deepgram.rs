//! Deepgram prerecorded transcription over HTTP (`/v1/listen`): the provider,
//! the request it sends, and what it makes of the reply.
use vstd::prelude::*;
use crate::text::{
    chars_of, is_white_space, lemma_trimmed_empty, owned, push_char,
    starts_with, trim, trimmed,
};
use crate::transcription::{
    check_ready, engine_view, finish_transcript, key_is_present, key_present, language_code,
    language_code_of, opt_view, readiness, reply_body, reply_outcome, transcript_outcome,
    HttpReply, TranscriptionError,
};

verus! {

/// The model used when none, or one that is not a `nova-*` model, is selected.
pub open spec fn default_model() -> Seq<char> {
    "nova-2"@
}

/// The model a provider keeps for a selected `model`: the selection itself when
/// it is a non-blank `nova-*` model id, the default otherwise.
pub open spec fn selected_model(model: Seq<char>) -> Seq<char> {
    if trimmed(model).len() == 0 || !"nova-"@.is_prefix_of(model) {
        default_model()
    } else {
        model
    }
}

/// The characters sent as they are in the model query parameter.
pub open spec fn is_unreserved(c: char) -> bool {
    let u = c as u32;
    ||| 0x30 <= u <= 0x39
    ||| 0x41 <= u <= 0x5a
    ||| 0x61 <= u <= 0x7a
    ||| c == '-'
    ||| c == '_'
    ||| c == '.'
}

/// The uppercase hexadecimal digit for `d` (below 16).
pub open spec fn hex_digit(d: int) -> char {
    if d < 10 {
        (48 + d) as char
    } else {
        (55 + d) as char
    }
}

/// The byte that escapes `c`: its scalar value truncated to 8 bits.
pub open spec fn escape_byte(c: char) -> int {
    ((c as u32) % 256) as int
}

/// How one character of a model id is written in the query string.
pub open spec fn encoded_char(c: char) -> Seq<char> {
    if is_unreserved(c) {
        seq![c]
    } else {
        seq!['%', hex_digit(escape_byte(c) / 16), hex_digit(escape_byte(c) % 16)]
    }
}

/// A model id as written in the query string.
pub open spec fn url_encoded(s: Seq<char>) -> Seq<char>
    decreases s.len(),
{
    if s.len() == 0 {
        Seq::empty()
    } else {
        url_encoded(s.drop_last()) + encoded_char(s.last())
    }
}

/// The listen URL for `model`, with the language parameter when there is a code.
pub open spec fn listen_url(model: Seq<char>, code: Option<Seq<char>>) -> Seq<char> {
    let base = "https://api.deepgram.com/v1/listen?model="@ + url_encoded(model)
        + "&smart_format=true&punctuate=true"@;
    match code {
        Some(c) => base + "&language="@ + c,
        None => base,
    }
}

/// The `Authorization` header for an API key.
pub open spec fn authorization_for(api_key: Seq<char>) -> Seq<char> {
    "Token "@ + trimmed(api_key)
}

/// The uppercase hexadecimal digit for `d`.
fn hex_digit_of(d: u32) -> (c: char)
    requires
        d < 16,
    ensures
        c == hex_digit(d as int),
{
    if d < 10 {
        ((48 + d) as u8) as char
    } else {
        ((55 + d) as u8) as char
    }
}

/// Writes a model id for the query string: ASCII letters, digits, `-`, `_`
/// and `.` stay as they are; any other character becomes `%` and two
/// uppercase hex digits of its scalar value truncated to a byte.
pub fn urlencoding_model(model: &str) -> (r: String)
    ensures
        r@ == url_encoded(model@),
{
    let v = chars_of(model);
    let n = v.len();
    let mut out = String::new();
    for i in 0..n
        invariant
            n == v@.len(),
            v@ == model@,
            out@ == url_encoded(v@.take(i as int)),
    {
        let c = v[i];
        let u: u32 = c as u32;
        let ghost before = out@;
        if (48 <= u && u <= 57) || (65 <= u && u <= 90) || (97 <= u && u <= 122) || c == '-' || c
            == '_' || c == '.' {
            push_char(&mut out, c);
        } else {
            let b: u32 = u % 256;
            push_char(&mut out, '%');
            push_char(&mut out, hex_digit_of(b / 16));
            push_char(&mut out, hex_digit_of(b % 16));
        }
        assert(out@ == before + encoded_char(c));
        proof {
            let t = v@.take(i + 1);
            assert(t.drop_last() == v@.take(i as int));
            assert(t.last() == c);
        }
    }
    assert(v@.take(n as int) == v@);
    out
}

/// A Deepgram speech-to-text provider: an API key and a `nova-*` model.
pub struct DeepgramProvider {
    api_key: String,
    model: String,
}

/// The provider as plain values.
pub ghost struct DeepgramView {
    pub api_key: Seq<char>,
    pub model: Seq<char>,
}

impl View for DeepgramProvider {
    type V = DeepgramView;

    closed spec fn view(&self) -> DeepgramView {
        DeepgramView { api_key: self.api_key@, model: self.model@ }
    }
}

/// What the provider sends: the URL, the `Authorization` header value, the
/// `Content-Type` of the body (the WAVE encoding of the audio) and how long
/// the request may take, in seconds.
pub struct DeepgramRequest {
    pub url: String,
    pub authorization: String,
    pub content_type: String,
    pub timeout_secs: u64,
}

/// The part of a Deepgram reply that the provider reads.
#[derive(Debug)]
pub struct DeepgramResponse {
    pub results: Option<DeepgramResults>,
}

#[derive(Debug)]
pub struct DeepgramResults {
    pub channels: Option<Vec<DeepgramChannel>>,
}

#[derive(Debug)]
pub struct DeepgramChannel {
    pub alternatives: Option<Vec<DeepgramAlternative>>,
}

#[derive(Debug)]
pub struct DeepgramAlternative {
    pub transcript: Option<String>,
}

/// The transcript of the first alternative of the first channel, if the
/// reply has one.
pub open spec fn first_transcript(r: DeepgramResponse) -> Option<Seq<char>> {
    match r.results {
        Some(res) => match res.channels {
            Some(chs) => if chs@.len() > 0 {
                match chs@[0].alternatives {
                    Some(alts) => if alts@.len() > 0 {
                        opt_view(alts@[0].transcript)
                    } else {
                        None
                    },
                    None => None,
                }
            } else {
                None
            },
            None => None,
        },
        None => None,
    }
}

/// The text of a transcript: its trimmed content, empty when there is none.
pub open spec fn transcript_text(t: Option<Seq<char>>) -> Seq<char> {
    match t {
        Some(s) => trimmed(s),
        None => Seq::empty(),
    }
}

impl DeepgramProvider {
    /// Every provider holds a `nova-*` model.
    #[verifier::type_invariant]
    spec fn model_is_valid(self) -> bool {
        "nova-"@.is_prefix_of(self.model@)
    }

    /// A provider for `api_key`. A blank model, or one that does not start
    /// with `nova-`, is replaced by `nova-2`.
    pub fn new(api_key: String, model: String) -> (p: Self)
        ensures
            p@.api_key == api_key@,
            p@.model == selected_model(model@),
    {
        proof {
            lemma_selected_model_stable(model@);
        }
        let blank = !key_is_present(model.as_str());
        let model = if blank || !starts_with(model.as_str(), "nova-") {
            owned("nova-2")
        } else {
            model
        };
        DeepgramProvider { api_key, model }
    }

    /// Whether the provider can be called: its API key is not blank.
    pub fn is_model_loaded(&self) -> (r: bool)
        ensures
            r == key_present(self@.api_key),
    {
        key_is_present(self.api_key.as_str())
    }

    /// The model the provider uses, always a `nova-*` model.
    pub fn get_current_model(&self) -> (r: Option<String>)
        ensures
            opt_view(r) == Some(self@.model),
            "nova-"@.is_prefix_of(self@.model),
    {
        proof {
            use_type_invariant(self);
        }
        Some(self.model.clone())
    }

    /// The provider's display name.
    pub fn provider_name(&self) -> (r: &'static str)
        ensures
            r@ == "Deepgram"@,
    {
        "Deepgram"
    }

    /// Decides whether a transcription of `samples` samples in `language` is
    /// attempted: the key must not be blank and there must be enough samples;
    /// then the request carries the listen URL for the model (and the
    /// language code, when there is one), `Token <trimmed key>`, a WAVE body
    /// and a 30-second limit.
    pub fn prepare(&self, samples: usize, language: Option<String>) -> (r: Result<
        DeepgramRequest,
        TranscriptionError,
    >)
        ensures
            match r {
                Err(e) => readiness(self@.api_key, samples) == Err::<(), TranscriptionError>(e),
                Ok(req) => {
                    &&& readiness(self@.api_key, samples) is Ok
                    &&& req.url@ == listen_url(self@.model, language_code_of(opt_view(language)))
                    &&& req.authorization@ == authorization_for(self@.api_key)
                    &&& req.content_type@ == "audio/wav"@
                    &&& req.timeout_secs == 30
                },
            },
    {
        match check_ready(self.api_key.as_str(), samples) {
            Err(e) => Err(e),
            Ok(()) => {
                let mut url = owned("https://api.deepgram.com/v1/listen?model=");
                let encoded = urlencoding_model(self.model.as_str());
                url.append(encoded.as_str());
                url.append("&smart_format=true&punctuate=true");
                let code = language_code(language);
                match code {
                    Some(c) => {
                        url.append("&language=");
                        url.append(c.as_str());
                    },
                    None => {},
                }
                let authorization = owned("Token ").concat(trim(self.api_key.as_str()));
                Ok(
                    DeepgramRequest {
                        url,
                        authorization,
                        content_type: owned("audio/wav"),
                        timeout_secs: 30,
                    },
                )
            },
        }
    }
}

impl DeepgramResponse {
    /// The transcript of the first alternative of the first channel, if any.
    pub fn first_transcript(&self) -> (r: Option<String>)
        ensures
            opt_view(r) == first_transcript(*self),
    {
        match &self.results {
            Some(res) => match &res.channels {
                Some(chs) => {
                    if chs.len() > 0 {
                        match &chs[0].alternatives {
                            Some(alts) => {
                                if alts.len() > 0 {
                                    match &alts[0].transcript {
                                        Some(t) => Some(t.clone()),
                                        None => None,
                                    }
                                } else {
                                    None
                                }
                            },
                            None => None,
                        }
                    } else {
                        None
                    }
                },
                None => None,
            },
            None => None,
        }
    }
}

/// The parsed reply as the transcript it holds, or the parse error.
pub open spec fn parsed_transcript(parsed: Result<DeepgramResponse, String>) -> Result<
    Option<Seq<char>>,
    Seq<char>,
> {
    match parsed {
        Ok(resp) => Ok(first_transcript(resp)),
        Err(e) => Err(e@),
    }
}

impl DeepgramProvider {
    /// What the provider makes of the reply to its request: the body to parse,
    /// or the engine failure (`Deepgram request failed: ..`,
    /// `Deepgram transcription failed (<status>): <body>`, or the read error).
    pub fn reply_body(reply: HttpReply) -> (r: Result<String, TranscriptionError>)
        ensures
            engine_view(r) == Some(reply_outcome("Deepgram"@, reply)),
    {
        reply_body("Deepgram", reply)
    }

    /// The text of the parsed reply: the first alternative's transcript,
    /// trimmed (empty when there is none); a parse error becomes
    /// `Deepgram response parse error: ..`.
    pub fn finish(parsed: Result<DeepgramResponse, String>) -> (r: Result<String, TranscriptionError>)
        ensures
            engine_view(r) == Some(transcript_outcome("Deepgram"@, parsed_transcript(parsed))),
    {
        let found = match parsed {
            Ok(resp) => Ok(resp.first_transcript()),
            Err(e) => Err(e),
        };
        finish_transcript("Deepgram", found)
    }
}

/// The model a provider keeps is always a `nova-*` model, and selecting it
/// again keeps it: a provider built from another provider's model uses the
/// same model.
pub proof fn lemma_selected_model_stable(model: Seq<char>)
    ensures
        "nova-"@.is_prefix_of(selected_model(model)),
        selected_model(selected_model(model)) == selected_model(model),
{
    reveal_strlit("nova-");
    reveal_strlit("nova-2");
    let m = selected_model(model);
    assert("nova-"@.is_prefix_of(m)) by {
        if m == default_model() {
            assert(m.subrange(0, 5) == "nova-"@);
        }
    }
    assert(m.subrange(0, 5)[0] == m[0]);
    assert("nova-"@[0] == 'n');
    assert(!is_white_space(m[0]));
    lemma_trimmed_empty(m);
}

/// A model id made only of ASCII letters, digits, `-`, `_` and `.` is sent as it is.
pub proof fn lemma_url_encoded_plain(s: Seq<char>)
    requires
        forall|i: int| 0 <= i < s.len() ==> is_unreserved(#[trigger] s[i]),
    ensures
        url_encoded(s) == s,
    decreases s.len(),
{
    if s.len() > 0 {
        let init = s.drop_last();
        assert forall|i: int| 0 <= i < init.len() implies is_unreserved(#[trigger] init[i]) by {
            assert(init[i] == s[i]);
        }
        lemma_url_encoded_plain(init);
        assert(is_unreserved(s[s.len() - 1]));
        assert(init.push(s.last()) == s);
    }
}

/// Every character of an encoded model id is unreserved or `%`, so the id
/// cannot break out of its query parameter.
pub proof fn lemma_url_encoded_safe(s: Seq<char>)
    ensures
        forall|i: int|
            0 <= i < url_encoded(s).len() ==> is_unreserved(#[trigger] url_encoded(s)[i])
                || url_encoded(s)[i] == '%',
    decreases s.len(),
{
    if s.len() > 0 {
        let init = s.drop_last();
        lemma_url_encoded_safe(init);
        let e = encoded_char(s.last());
        let b = escape_byte(s.last());
        assert(0 <= b / 16 < 16 && 0 <= b % 16 < 16);
        assert(is_unreserved(hex_digit(b / 16)));
        assert(is_unreserved(hex_digit(b % 16)));
        let whole = url_encoded(s);
        assert forall|i: int| 0 <= i < whole.len() implies is_unreserved(#[trigger] whole[i])
            || whole[i] == '%' by {
            let k = url_encoded(init).len();
            if i >= k {
                assert(whole[i] == e[i - k]);
            } else {
                assert(whole[i] == url_encoded(init)[i]);
            }
        }
    }
}

/// The value of an uppercase hexadecimal digit.
pub open spec fn hex_value(c: char) -> int {
    if (c as u32) <= 57 {
        (c as u32) - 48
    } else {
        (c as u32) - 55
    }
}

/// The scalar values of the characters of `s`.
pub open spec fn scalar_values(s: Seq<char>) -> Seq<int> {
    s.map_values(|c: char| (c as u32) as int)
}

/// Reads an encoded model id back as scalar values: `%` and the two hex
/// digits after it stand for the value they spell, any other character for
/// its own value.
pub open spec fn url_decoded(e: Seq<char>) -> Seq<int>
    decreases e.len(),
{
    if e.len() == 0 {
        Seq::empty()
    } else if e.len() >= 3 && e[e.len() - 3] == '%' {
        url_decoded(e.take(e.len() - 3)).push(16 * hex_value(e[e.len() - 2]) + hex_value(e.last()))
    } else {
        url_decoded(e.drop_last()).push((e.last() as u32) as int)
    }
}

/// In an encoded model id every `%` has two characters after it.
proof fn lemma_percent_has_digits(s: Seq<char>)
    ensures
        forall|i: int|
            0 <= i < url_encoded(s).len() && #[trigger] url_encoded(s)[i] == '%' ==> i + 2 < url_encoded(
                s,
            ).len(),
    decreases s.len(),
{
    if s.len() > 0 {
        let init = s.drop_last();
        lemma_percent_has_digits(init);
        let e0 = url_encoded(init);
        let c = s.last();
        let e = url_encoded(s);
        let b = escape_byte(c);
        assert(0 <= b / 16 < 16 && 0 <= b % 16 < 16);
        assert forall|i: int| 0 <= i < e.len() && #[trigger] e[i] == '%' implies i + 2 < e.len() by {
            if i < e0.len() {
                assert(e[i] == e0[i]);
            } else if is_unreserved(c) {
                assert(e[i] == c);
            } else {
                assert(e[i] == encoded_char(c)[i - e0.len()]);
                assert(hex_digit(b / 16) != '%');
                assert(hex_digit(b % 16) != '%');
            }
        }
    }
}

/// A model id whose characters are all below U+0100 reads back from its
/// encoding: decoding gives its characters' values. (Characters above lose
/// their high bits when escaped.)
pub proof fn lemma_url_encoded_reads_back(s: Seq<char>)
    requires
        forall|i: int| 0 <= i < s.len() ==> ((#[trigger] s[i]) as u32) < 256,
    ensures
        url_decoded(url_encoded(s)) == scalar_values(s),
    decreases s.len(),
{
    if s.len() > 0 {
        let init = s.drop_last();
        let c = s.last();
        assert forall|i: int| 0 <= i < init.len() implies ((#[trigger] init[i]) as u32) < 256 by {
            assert(init[i] == s[i]);
        }
        assert((s[s.len() - 1] as u32) < 256);
        lemma_url_encoded_reads_back(init);
        lemma_percent_has_digits(init);
        let e0 = url_encoded(init);
        let e = url_encoded(s);
        if is_unreserved(c) {
            assert(e == e0.push(c));
            if e.len() >= 3 {
                assert(e[e.len() - 3] == e0[e0.len() - 2]);
            }
            assert(e.drop_last() == e0);
        } else {
            let b = escape_byte(c);
            assert(b == c as u32);
            assert(0 <= b / 16 < 16 && 0 <= b % 16 < 16);
            assert(hex_value(hex_digit(b / 16)) == b / 16);
            assert(hex_value(hex_digit(b % 16)) == b % 16);
            assert(e.take(e.len() - 3) == e0);
            assert(16 * (b / 16) + b % 16 == b);
        }
        assert(init.push(c) == s);
        assert(scalar_values(s) == scalar_values(init).push((c as u32) as int));
    }
}

/// Whenever a reply has a first channel with a first alternative, the
/// transcript read from it is that alternative's transcript; a reply with one
/// channel and one alternative gives exactly its transcript.
pub proof fn lemma_first_transcript_reads_first(r: DeepgramResponse)
    requires
        r.results is Some,
        r.results->0.channels is Some,
        r.results->0.channels->0@.len() > 0,
        r.results->0.channels->0@[0].alternatives is Some,
        r.results->0.channels->0@[0].alternatives->0@.len() > 0,
    ensures
        first_transcript(r) == opt_view(
            r.results->0.channels->0@[0].alternatives->0@[0].transcript,
        ),
{
}

/// A reply without a first alternative of a first channel has no transcript.
pub proof fn lemma_first_transcript_absent(r: DeepgramResponse)
    requires
        !(r.results is Some && r.results->0.channels is Some && r.results->0.channels->0@.len() > 0
            && r.results->0.channels->0@[0].alternatives is Some
            && r.results->0.channels->0@[0].alternatives->0@.len() > 0),
    ensures
        first_transcript(r) is None,
{
}

/// Finishing a parsed reply whose first alternative of the first channel has
/// transcript `t` gives `t` trimmed; one whose first alternative has none
/// gives the empty text; a parse error gives the Deepgram parse message.
pub proof fn lemma_finish_reads_first_transcript(r: DeepgramResponse, e: String)
    requires
        r.results is Some,
        r.results->0.channels is Some,
        r.results->0.channels->0@.len() > 0,
        r.results->0.channels->0@[0].alternatives is Some,
        r.results->0.channels->0@[0].alternatives->0@.len() > 0,
    ensures
        ({
            let t = r.results->0.channels->0@[0].alternatives->0@[0].transcript;
            &&& t is Some ==> transcript_outcome("Deepgram"@, parsed_transcript(Ok(r))) == Ok::<
                Seq<char>,
                Seq<char>,
            >(trimmed(t->0@))
            &&& t is None ==> transcript_outcome("Deepgram"@, parsed_transcript(Ok(r))) == Ok::<
                Seq<char>,
                Seq<char>,
            >(Seq::empty())
        }),
        transcript_outcome("Deepgram"@, parsed_transcript(Err(e))) == Err::<Seq<char>, Seq<char>>(
            "Deepgram"@ + " response parse error: "@ + e@,
        ),
{
}

/// The listen URL for a language code is the URL without one followed by
/// `&language=` and the code, whatever the code; the URL without one asks
/// for the encoded model with smart formatting and punctuation.
pub proof fn lemma_listen_url_language(model: Seq<char>, code: Seq<char>)
    ensures
        listen_url(model, Some(code)) == listen_url(model, None) + "&language="@ + code,
        listen_url(model, None) == "https://api.deepgram.com/v1/listen?model="@ + url_encoded(model)
            + "&smart_format=true&punctuate=true"@,
{
}

/// The authorization sent does not depend on whitespace around the key, and
/// is `Token ` followed by the key when the key has none.
pub proof fn lemma_authorization_ignores_whitespace(api_key: Seq<char>)
    ensures
        authorization_for(api_key) == authorization_for(trimmed(api_key)),
        trimmed(api_key) == api_key ==> authorization_for(api_key) == "Token "@ + api_key,
{
    crate::text::lemma_trimmed_idempotent(api_key);
}

/// A selected `nova-*` model is kept as it is; any other selection gives `nova-2`.
pub proof fn lemma_selected_model_keeps_nova(model: Seq<char>)
    ensures
        "nova-"@.is_prefix_of(model) ==> selected_model(model) == model,
        !"nova-"@.is_prefix_of(model) ==> selected_model(model) == "nova-2"@,
{
    reveal_strlit("nova-");
    if "nova-"@.is_prefix_of(model) {
        assert(model.subrange(0, 5)[0] == model[0]);
        assert("nova-"@[0] == 'n');
        assert(!is_white_space(model[0]));
        lemma_trimmed_empty(model);
    }
}

} // verus!
