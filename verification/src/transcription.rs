//! What the cloud speech-to-text providers share: the checks made before a
//! request, the language code sent with it, and the errors they report.
use vstd::prelude::*;
use crate::text::{
    chars_of, has_content, lemma_trimmed_empty, lowercase, owned, string_of, to_lowercase,
    trim, trimmed,
};
use crate::wav::MIN_CLOUD_SAMPLES;

verus! {

/// Why a transcription was not produced.
#[derive(Debug)]
pub enum TranscriptionError {
    /// The provider has no API key.
    ModelNotLoaded,
    /// Fewer samples than a cloud call is worth.
    AudioTooShort { samples: usize, minimum: usize },
    /// The provider was reached but did not return a transcript.
    EngineFailed(String),
}

/// An API key counts as present when it holds a character that is not whitespace.
pub open spec fn key_present(api_key: Seq<char>) -> bool {
    trimmed(api_key).len() > 0
}

/// What the checks made before any request decide, in order: a blank key,
/// then too few samples.
pub open spec fn readiness(api_key: Seq<char>, samples: usize) -> Result<(), TranscriptionError> {
    if !key_present(api_key) {
        Err(TranscriptionError::ModelNotLoaded)
    } else if samples < MIN_CLOUD_SAMPLES {
        Err(TranscriptionError::AudioTooShort { samples, minimum: MIN_CLOUD_SAMPLES })
    } else {
        Ok(())
    }
}

/// Whether an API key is usable: it is not blank.
pub fn key_is_present(api_key: &str) -> (r: bool)
    ensures
        r == key_present(api_key@),
        r == has_content(api_key@),
{
    proof {
        lemma_trimmed_empty(api_key@);
    }
    !trim(api_key).is_empty()
}

/// The checks a provider makes before it encodes and uploads audio: the key
/// must not be blank, and there must be at least `MIN_CLOUD_SAMPLES` samples.
pub fn check_ready(api_key: &str, samples: usize) -> (r: Result<(), TranscriptionError>)
    ensures
        r == readiness(api_key@, samples),
{
    if !key_is_present(api_key) {
        return Err(TranscriptionError::ModelNotLoaded);
    }
    if samples < MIN_CLOUD_SAMPLES {
        return Err(TranscriptionError::AudioTooShort { samples, minimum: MIN_CLOUD_SAMPLES });
    }
    Ok(())
}

/// The characters that separate a language from its region (`en-US`, `pt_BR`).
pub open spec fn is_code_separator(c: char) -> bool {
    c == '-' || c == '_'
}

/// The part of `s` before its first separator (all of `s` when there is none),
/// which is the first item that splitting on the separators yields.
pub open spec fn first_segment(s: Seq<char>) -> Seq<char>
    decreases s.len(),
{
    if s.len() == 0 {
        s
    } else if is_code_separator(s[0]) {
        Seq::empty()
    } else {
        seq![s[0]] + first_segment(s.drop_first())
    }
}

/// The code a lowercased first segment becomes: none for `auto` or empty.
pub open spec fn accepted_code(code: Seq<char>) -> Option<Seq<char>> {
    if code == seq!['a', 'u', 't', 'o'] || code.len() == 0 {
        None
    } else {
        Some(code)
    }
}

/// The language code sent for a requested language: the lowercased part
/// before the first `-` or `_`, unless that is `auto` or empty.
pub open spec fn language_code_of(language: Option<Seq<char>>) -> Option<Seq<char>> {
    match language {
        None => None,
        Some(l) => accepted_code(lowercase(first_segment(l))),
    }
}

/// The view of an optional string.
pub open spec fn opt_view(o: Option<String>) -> Option<Seq<char>> {
    match o {
        Some(s) => Some(s@),
        None => None,
    }
}

/// The prefix of `s` before its first `-` or `_`.
pub fn first_segment_of(s: &str) -> (r: String)
    ensures
        r@ == first_segment(s@),
{
    let v = chars_of(s);
    let n = v.len();
    let mut i: usize = 0;
    while i < n && !(v[i] == '-' || v[i] == '_')
        invariant
            n == v@.len(),
            v@ == s@,
            i <= n,
            forall|j: int| 0 <= j < i ==> !is_code_separator(#[trigger] v@[j]),
        decreases n - i,
    {
        i = i + 1;
    }
    let mut out: Vec<char> = Vec::new();
    for j in 0..i
        invariant
            i <= n,
            n == v@.len(),
            out@ == v@.take(j as int),
    {
        out.push(v[j]);
    }
    proof {
        lemma_first_segment_at(v@, i as int);
    }
    string_of(&out)
}

/// When the first separator of `s` is at `i` (or there is none and `i` is
/// the length), the first segment is the first `i` characters.
proof fn lemma_first_segment_at(s: Seq<char>, i: int)
    requires
        0 <= i <= s.len(),
        forall|j: int| 0 <= j < i ==> !is_code_separator(#[trigger] s[j]),
        i < s.len() ==> is_code_separator(s[i]),
    ensures
        first_segment(s) == s.take(i),
    decreases s.len(),
{
    if s.len() > 0 && i > 0 {
        let t = s.drop_first();
        assert forall|j: int| 0 <= j < i - 1 implies !is_code_separator(#[trigger] t[j]) by {
            assert(t[j] == s[j + 1]);
        }
        lemma_first_segment_at(t, i - 1);
        assert(seq![s[0]] + t.take(i - 1) == s.take(i));
    }
}

/// Whether two character vectors hold the same characters.
fn same_chars(a: &Vec<char>, b: &Vec<char>) -> (r: bool)
    ensures
        r == (a@ == b@),
{
    if a.len() != b.len() {
        return false;
    }
    let n = a.len();
    for i in 0..n
        invariant
            n == a@.len(),
            n == b@.len(),
            forall|j: int| 0 <= j < i ==> a@[j] == b@[j],
    {
        if a[i] != b[i] {
            return false;
        }
    }
    assert(a@ == b@);
    true
}

/// Decides what becomes of an already lowercased code: `auto` and the empty
/// code are dropped (the provider then detects the language), anything else
/// is sent as it is.
pub fn accept_language_code(code: String) -> (r: Option<String>)
    ensures
        opt_view(r) == accepted_code(code@),
        r matches Some(c) ==> c == code,
{
    let cv = chars_of(code.as_str());
    let auto: Vec<char> = vec!['a', 'u', 't', 'o'];
    if same_chars(&cv, &auto) || cv.len() == 0 {
        None
    } else {
        Some(code)
    }
}

/// The language code a provider sends for the requested language: the part
/// before the first `-` or `_`, lowercased; `None` when no language was
/// requested, or the code is `auto` or empty. (Splitting always yields a
/// first item, so the `en` fallback of the split is never taken.)
pub fn language_code(language: Option<String>) -> (r: Option<String>)
    ensures
        opt_view(r) == language_code_of(opt_view(language)),
{
    match language {
        None => None,
        Some(lang) => {
            let segment = first_segment_of(lang.as_str());
            let code = to_lowercase(segment.as_str());
            accept_language_code(code)
        },
    }
}

/// How an upload ended, as far as the provider's decisions need it.
#[derive(Debug)]
pub enum HttpReply {
    /// The request could not be sent; the error as text.
    SendFailed(String),
    /// A reply came back. `success` tells whether its status is 2xx,
    /// `status` is the status as displayed (`404 Not Found`), and `body` is
    /// the body text, or the error met while reading it.
    Received { success: bool, status: String, body: Result<String, String> },
}

/// What a provider labelled `label` makes of a reply: the body of a
/// successful reply, or the message of the engine failure it reports.
pub open spec fn reply_outcome(label: Seq<char>, reply: HttpReply) -> Result<Seq<char>, Seq<char>> {
    match reply {
        HttpReply::SendFailed(e) => Err(label + " request failed: "@ + e@),
        HttpReply::Received { success, status, body } => match body {
            Err(e) => Err(e@),
            Ok(b) => if success {
                Ok(b@)
            } else {
                Err(label + " transcription failed ("@ + status@ + "): "@ + b@)
            },
        },
    }
}

/// What a provider labelled `label` makes of its parsed reply: the trimmed
/// transcript (empty when there is none), or the parse error it reports.
pub open spec fn transcript_outcome(
    label: Seq<char>,
    parsed: Result<Option<Seq<char>>, Seq<char>>,
) -> Result<Seq<char>, Seq<char>> {
    match parsed {
        Ok(t) => Ok(
            match t {
                Some(s) => trimmed(s),
                None => Seq::empty(),
            },
        ),
        Err(e) => Err(label + " response parse error: "@ + e),
    }
}

/// A result whose error is an engine failure, as plain values.
pub open spec fn engine_view<T: View>(r: Result<T, TranscriptionError>) -> Option<
    Result<T::V, Seq<char>>,
> {
    match r {
        Ok(v) => Some(Ok(v@)),
        Err(TranscriptionError::EngineFailed(m)) => Some(Err(m@)),
        Err(_) => None,
    }
}

/// `label` followed by `middle` and `detail`.
fn message(label: &str, middle: &str, detail: &str) -> (r: String)
    ensures
        r@ == label@ + middle@ + detail@,
{
    let mut m = owned(label);
    m.append(middle);
    m.append(detail);
    m
}

/// Decides what a reply means for the provider labelled `label`: a failed
/// send, an unreadable body or a status other than 2xx is an engine failure
/// (in that order of checks); otherwise the body is handed on for parsing.
pub fn reply_body(label: &str, reply: HttpReply) -> (r: Result<String, TranscriptionError>)
    ensures
        engine_view(r) == Some(reply_outcome(label@, reply)),
{
    match reply {
        HttpReply::SendFailed(e) => Err(
            TranscriptionError::EngineFailed(message(label, " request failed: ", e.as_str())),
        ),
        HttpReply::Received { success, status, body } => match body {
            Err(e) => Err(TranscriptionError::EngineFailed(e)),
            Ok(b) => {
                if success {
                    Ok(b)
                } else {
                    let mut m = message(label, " transcription failed (", status.as_str());
                    m.append("): ");
                    m.append(b.as_str());
                    Err(TranscriptionError::EngineFailed(m))
                }
            },
        },
    }
}

/// The parsed reply as plain values.
pub open spec fn parsed_view(parsed: Result<Option<String>, String>) -> Result<
    Option<Seq<char>>,
    Seq<char>,
> {
    match parsed {
        Ok(t) => Ok(opt_view(t)),
        Err(e) => Err(e@),
    }
}

/// Turns the transcript found in a parsed reply into the text the provider
/// returns: trimmed, and empty when the reply had none. A parse error becomes
/// an engine failure naming the provider.
pub fn finish_transcript(label: &str, parsed: Result<Option<String>, String>) -> (r: Result<
    String,
    TranscriptionError,
>)
    ensures
        engine_view(r) == Some(transcript_outcome(label@, parsed_view(parsed))),
{
    match parsed {
        Ok(t) => match t {
            Some(s) => Ok(owned(trim(s.as_str()))),
            None => Ok(String::new()),
        },
        Err(e) => Err(
            TranscriptionError::EngineFailed(message(label, " response parse error: ", e.as_str())),
        ),
    }
}

/// A provider reports itself loaded exactly when its checks do not stop at
/// the key, and the checks pass exactly when it is loaded and there are at
/// least `MIN_CLOUD_SAMPLES` samples.
pub proof fn lemma_loaded_matches_readiness(api_key: Seq<char>, samples: usize)
    ensures
        key_present(api_key) <==> readiness(api_key, samples) != Err::<(), TranscriptionError>(
            TranscriptionError::ModelNotLoaded,
        ),
        readiness(api_key, samples) is Ok <==> (key_present(api_key) && samples
            >= MIN_CLOUD_SAMPLES),
        key_present(api_key) && samples < 1600 ==> readiness(api_key, samples) == Err::<
            (),
            TranscriptionError,
        >(TranscriptionError::AudioTooShort { samples, minimum: 1600 }),
{
}

/// The code sent with a request is never empty and never `auto`.
pub proof fn lemma_language_code_sendable(language: Option<Seq<char>>)
    ensures
        language_code_of(language) matches Some(c) ==> c.len() > 0 && c != "auto"@,
{
    reveal_strlit("auto");
    if let Some(l) = language {
        let c = lowercase(first_segment(l));
        if c == "auto"@ {
            assert(c == seq!['a', 'u', 't', 'o']);
        }
    }
}

/// The code sent for a language `l` is the lowercased part `s` of `l`
/// before its first `-` or `_` (all of `l` when it has none), for every
/// `l`, unless that is empty or `auto`, in which case no code is sent; no
/// language gives no code.
pub proof fn lemma_language_code_is_lowercased_segment(l: Seq<char>, s: Seq<char>)
    requires
        s.is_prefix_of(l),
        forall|i: int| 0 <= i < s.len() ==> #[trigger] s[i] != '-' && s[i] != '_',
        s.len() == l.len() || l[s.len() as int] == '-' || l[s.len() as int] == '_',
    ensures
        (lowercase(s).len() > 0 && lowercase(s) != "auto"@) ==> language_code_of(Some(l)) == Some(
            lowercase(s),
        ),
        (lowercase(s).len() == 0 || lowercase(s) == "auto"@) ==> language_code_of(Some(l)) is None,
        language_code_of(None) is None,
{
    reveal_strlit("auto");
    assert forall|j: int| 0 <= j < s.len() implies !is_code_separator(#[trigger] l[j]) by {
        assert(l[j] == s[j]);
    }
    lemma_first_segment_at(l, s.len() as int);
    assert(l.take(s.len() as int) == s);
    if lowercase(s) == "auto"@ {
        assert(lowercase(s) == seq!['a', 'u', 't', 'o']);
    }
    if lowercase(s) == seq!['a', 'u', 't', 'o'] {
        assert(lowercase(s) == "auto"@);
    }
}

/// Finishing a parsed reply keeps the transcript's content: the text returned
/// is the transcript trimmed, or empty when there is none.
pub proof fn lemma_transcript_outcome_trims(label: Seq<char>, t: Seq<char>, e: Seq<char>)
    ensures
        transcript_outcome(label, Ok(Some(t))) == Ok::<Seq<char>, Seq<char>>(trimmed(t)),
        transcript_outcome(label, Ok(None)) == Ok::<Seq<char>, Seq<char>>(Seq::empty()),
        transcript_outcome(label, Err(e)) == Err::<Seq<char>, Seq<char>>(
            label + " response parse error: "@ + e,
        ),
{
}

/// A successful reply hands on its body unchanged; a failed send, an
/// unreadable body and a status other than 2xx are reported with the
/// provider's label, the status and the body.
pub proof fn lemma_reply_outcome(
    label: Seq<char>,
    e: String,
    success: bool,
    status: String,
    body: String,
)
    ensures
        reply_outcome(label, HttpReply::Received { success: true, status, body: Ok(body) }) == Ok::<
            Seq<char>,
            Seq<char>,
        >(body@),
        reply_outcome(label, HttpReply::Received { success: false, status, body: Ok(body) })
            == Err::<Seq<char>, Seq<char>>(
            label + " transcription failed ("@ + status@ + "): "@ + body@,
        ),
        reply_outcome(label, HttpReply::Received { success, status, body: Err(e) }) == Err::<
            Seq<char>,
            Seq<char>,
        >(e@),
        reply_outcome(label, HttpReply::SendFailed(e)) == Err::<Seq<char>, Seq<char>>(
            label + " request failed: "@ + e@,
        ),
{
}

} // verus!
