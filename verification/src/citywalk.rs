//! CityWalk Task Manager ingest: the stored settings, and the decisions made
//! when a local meeting's transcript and minutes are published.
use vstd::prelude::*;
use crate::text::{
    ends_with, is_white_space, lemma_strip_trailing_prefix, lemma_trim_end_fixed,
    lemma_trim_start_fixed, lemma_trimmed_bounds, lemma_trimmed_idempotent, owned, strip_trailing,
    trim, trim_end, trim_end_matches, trim_start, trimmed,
};
use crate::transcription::{key_is_present, key_present, opt_view};

verus! {

/// The ingest settings: where to post, the shared secret, and the meeting
/// type used when a publish request names none.
#[derive(Debug)]
pub struct CityWalkConfig {
    pub ingest_url: String,
    pub ingest_secret: String,
    pub meeting_type: String,
}

/// The settings as plain values.
pub ghost struct ConfigView {
    pub ingest_url: Seq<char>,
    pub ingest_secret: Seq<char>,
    pub meeting_type: Seq<char>,
}

impl View for CityWalkConfig {
    type V = ConfigView;

    open spec fn view(&self) -> ConfigView {
        ConfigView {
            ingest_url: self.ingest_url@,
            ingest_secret: self.ingest_secret@,
            meeting_type: self.meeting_type@,
        }
    }
}

impl Default for CityWalkConfig {
    /// The settings before anything is saved: all three empty.
    fn default() -> (c: Self)
        ensures
            c@.ingest_url == Seq::<char>::empty(),
            c@.ingest_secret == Seq::<char>::empty(),
            c@.meeting_type == Seq::<char>::empty(),
    {
        CityWalkConfig {
            ingest_url: String::new(),
            ingest_secret: String::new(),
            meeting_type: String::new(),
        }
    }
}

/// The settings stored for what the user entered: URL and secret trimmed,
/// no meeting type stored as the empty one.
pub open spec fn settings_of(
    ingest_url: Seq<char>,
    ingest_secret: Seq<char>,
    meeting_type: Option<Seq<char>>,
) -> ConfigView {
    ConfigView {
        ingest_url: trimmed(ingest_url),
        ingest_secret: trimmed(ingest_secret),
        meeting_type: match meeting_type {
            Some(m) => m,
            None => Seq::empty(),
        },
    }
}

/// Whether publishing is possible: neither the URL nor the secret is blank.
pub open spec fn publishable(c: ConfigView) -> bool {
    key_present(c.ingest_url) && key_present(c.ingest_secret)
}

/// The message given when the URL or the secret is blank.
pub open spec fn not_configured_message() -> Seq<char> {
    "CityWalk ingest URL and secret are not set. Add them in Preferences."@
}

/// The path appended to a base URL that does not already end in `/ingest`.
pub open spec fn ingest_path() -> Seq<char> {
    "/api/integrations/meetings/ingest"@
}

/// The URL a publish posts to: the configured URL trimmed and without
/// trailing slashes, used as it is when it ends in `/ingest` and otherwise
/// extended with the ingest path.
pub open spec fn ingest_endpoint_of(url: Seq<char>) -> Seq<char> {
    let u = strip_trailing(trimmed(url), '/');
    if "/ingest"@.is_suffix_of(u) {
        u
    } else {
        u + ingest_path()
    }
}

/// The meeting type a publish sends: the requested one unless it is empty,
/// then the configured one unless it is empty, then `other`.
pub open spec fn meeting_type_of(requested: Option<Seq<char>>, configured: Seq<char>) -> Seq<char> {
    match requested {
        Some(r) if r.len() > 0 => r,
        _ => if configured.len() > 0 {
            configured
        } else {
            "other"@
        },
    }
}

/// What a publish posts, decided from the settings and the request.
pub struct IngestPlan {
    /// Where the payload goes.
    pub endpoint: String,
    /// The name of the header that carries the secret.
    pub secret_header: String,
    /// The value of that header.
    pub secret: String,
    /// The `Content-Type` of the payload.
    pub content_type: String,
    /// How long the request may take, in seconds.
    pub timeout_secs: u64,
    /// The `meeting_type` of the payload.
    pub meeting_type: String,
}

/// What the minutes of a meeting offer as markdown, read from their JSON:
/// the minutes themselves when they are a JSON string, their `markdown`
/// and `summary` members when those are strings, and their pretty-printed
/// JSON text when printing succeeded.
#[derive(Debug)]
pub struct MinutesFields {
    pub text: Option<String>,
    pub markdown: Option<String>,
    pub summary: Option<String>,
    pub pretty: Option<String>,
}

/// The markdown sent for the minutes: the first of the string itself, its
/// `markdown`, its `summary`, and its pretty-printed JSON that is present.
pub open spec fn markdown_of(m: MinutesFields) -> Option<Seq<char>> {
    if m.text is Some {
        opt_view(m.text)
    } else if m.markdown is Some {
        opt_view(m.markdown)
    } else if m.summary is Some {
        opt_view(m.summary)
    } else {
        opt_view(m.pretty)
    }
}

#[verifier::external_type_specification]
#[verifier::external_body]
pub struct ExJsonValue(serde_json::Value);

/// Whether `raw` is one JSON value (what `serde_json::from_str::<Value>` accepts).
pub uninterp spec fn json_parses(raw: Seq<char>) -> bool;

/// The string that the JSON text `raw` is, when it is a JSON string.
pub uninterp spec fn json_string(raw: Seq<char>) -> Option<Seq<char>>;

/// The member `key` of the JSON text `raw`, when `raw` is an object whose
/// member `key` is a JSON string.
pub uninterp spec fn json_string_member(raw: Seq<char>, key: Seq<char>) -> Option<Seq<char>>;

/// The value of the JSON text `raw` printed by `serde_json::to_string_pretty`.
pub uninterp spec fn json_pretty(raw: Seq<char>) -> Seq<char>;

/// `serde_json::from_str::<Value>`: the value of `raw` when it is JSON text.
/// Which value that is, is not stated.
#[verifier::external_body]
pub(crate) fn parse_json(raw: &str) -> (r: Option<serde_json::Value>)
    ensures
        r is Some <==> json_parses(raw@),
{
    serde_json::from_str(raw).ok()
}

/// `Value::as_str` on the value `serde_json::from_str` parses from `raw`:
/// nothing when `raw` is not JSON, else the string `raw` is, if it is one.
#[verifier::external_body]
pub(crate) fn json_string_of(raw: &str) -> (r: Option<String>)
    ensures
        r is Some ==> json_parses(raw@),
        json_parses(raw@) ==> opt_view(r) == json_string(raw@),
{
    let v: serde_json::Value = serde_json::from_str(raw).ok()?;
    v.as_str().map(String::from)
}

/// `Value::get(key)` then `Value::as_str` on the value `serde_json::from_str`
/// parses from `raw`: nothing when `raw` is not JSON, else the member `key`
/// when `raw` is an object and that member is a string.
#[verifier::external_body]
pub(crate) fn json_string_member_of(raw: &str, key: &str) -> (r: Option<String>)
    ensures
        r is Some ==> json_parses(raw@),
        json_parses(raw@) ==> opt_view(r) == json_string_member(raw@, key@),
{
    let v: serde_json::Value = serde_json::from_str(raw).ok()?;
    v.get(key)?.as_str().map(String::from)
}

/// `serde_json::to_string_pretty` on the value `serde_json::from_str` parses
/// from `raw`. Printing a `Value` does not fail (its map keys are strings),
/// so there is text exactly when `raw` parses.
#[verifier::external_body]
pub(crate) fn json_pretty_of(raw: &str) -> (r: Option<String>)
    ensures
        r is Some <==> json_parses(raw@),
        r matches Some(p) ==> p@ == json_pretty(raw@),
{
    let v: serde_json::Value = serde_json::from_str(raw).ok()?;
    serde_json::to_string_pretty(&v).ok()
}

/// The stored minutes text parsed as JSON, when there is text and it parses.
pub fn minutes_value(raw: Option<&str>) -> (r: Option<serde_json::Value>)
    ensures
        r is Some <==> (raw is Some && json_parses(raw->0@)),
{
    match raw {
        None => None,
        Some(t) => parse_json(t),
    }
}

/// The markdown sent for stored minutes text: none when there is none or it
/// is not JSON; otherwise the string itself, its `markdown` member, its
/// `summary` member, or its pretty-printed JSON, whichever is present first.
pub open spec fn minutes_markdown_of(raw: Option<Seq<char>>) -> Option<Seq<char>> {
    match raw {
        Some(t) => if !json_parses(t) {
            None
        } else if json_string(t) is Some {
            json_string(t)
        } else if json_string_member(t, "markdown"@) is Some {
            json_string_member(t, "markdown"@)
        } else if json_string_member(t, "summary"@) is Some {
            json_string_member(t, "summary"@)
        } else {
            Some(json_pretty(t))
        },
        None => None,
    }
}

/// The markdown sent for the stored minutes text of a meeting, if it has
/// any: minutes that parse as JSON always give some.
pub fn minutes_markdown(raw: Option<&str>) -> (r: Option<String>)
    ensures
        opt_view(r) == minutes_markdown_of(
            match raw {
                Some(t) => Some(t@),
                None => None,
            },
        ),
        (raw is Some && json_parses(raw->0@)) ==> r is Some,
{
    match raw {
        None => None,
        Some(t) => {
            let pretty = json_pretty_of(t);
            if pretty.is_none() {
                return None;
            }
            let fields = MinutesFields {
                text: json_string_of(t),
                markdown: json_string_member_of(t, "markdown"),
                summary: json_string_member_of(t, "summary"),
                pretty,
            };
            extract_markdown(&fields)
        },
    }
}

/// The fields of the ingest payload other than the transcript lines.
#[derive(Debug)]
pub struct IngestPayload {
    pub desktop_meeting_id: String,
    pub title: String,
    pub meeting_type: String,
    pub department_id: Option<String>,
    pub started_at: String,
    pub minutes: Option<serde_json::Value>,
    pub minutes_markdown: Option<String>,
    pub source: String,
}

/// Decides the payload of a publish for a loaded meeting: its id, title and
/// start time, the planned meeting type, the department, the minutes parsed
/// as JSON with their markdown, and `desktop` as the source.
pub fn ingest_payload(
    meeting_id: String,
    title: String,
    started_at: String,
    plan: &IngestPlan,
    department_id: Option<String>,
    minutes_raw: Option<&str>,
) -> (p: IngestPayload)
    ensures
        p.desktop_meeting_id@ == meeting_id@,
        p.title@ == title@,
        p.meeting_type@ == plan.meeting_type@,
        opt_view(p.department_id) == opt_view(department_id),
        p.started_at@ == started_at@,
        p.minutes is Some <==> (minutes_raw is Some && json_parses(minutes_raw->0@)),
        opt_view(p.minutes_markdown) == minutes_markdown_of(
            match minutes_raw {
                Some(t) => Some(t@),
                None => None,
            },
        ),
        p.source@ == "desktop"@,
{
    IngestPayload {
        desktop_meeting_id: meeting_id,
        title,
        meeting_type: plan.meeting_type.clone(),
        department_id,
        started_at,
        minutes: minutes_value(minutes_raw),
        minutes_markdown: minutes_markdown(minutes_raw),
        source: owned("desktop"),
    }
}

impl CityWalkConfig {
    /// The settings that saving the entered values stores: the URL and the
    /// secret trimmed, and the meeting type, or the empty one when none is given.
    pub fn from_settings(
        ingest_url: String,
        ingest_secret: String,
        meeting_type: Option<String>,
    ) -> (c: Self)
        ensures
            c@ == settings_of(ingest_url@, ingest_secret@, opt_view(meeting_type)),
    {
        CityWalkConfig {
            ingest_url: owned(trim(ingest_url.as_str())),
            ingest_secret: owned(trim(ingest_secret.as_str())),
            meeting_type: match meeting_type {
                Some(m) => m,
                None => String::new(),
            },
        }
    }

    /// Whether neither the URL nor the secret is blank.
    pub fn is_publishable(&self) -> (r: bool)
        ensures
            r == publishable(self@),
    {
        key_is_present(self.ingest_url.as_str()) && key_is_present(self.ingest_secret.as_str())
    }
}

/// The URL a publish posts to for the configured `url`.
pub fn ingest_endpoint(url: &str) -> (r: String)
    ensures
        r@ == ingest_endpoint_of(url@),
{
    let base = trim_end_matches(trim(url), '/');
    if ends_with(base, "/ingest") {
        owned(base)
    } else {
        owned(base).concat("/api/integrations/meetings/ingest")
    }
}

/// The meeting type a publish sends.
pub fn resolve_meeting_type(requested: Option<String>, configured: &str) -> (r: String)
    ensures
        r@ == meeting_type_of(opt_view(requested), configured@),
{
    match requested {
        Some(m) if !m.as_str().is_empty() => m,
        _ => {
            if !configured.is_empty() {
                owned(configured)
            } else {
                owned("other")
            }
        },
    }
}

/// Decides what a publish posts: nothing, with the not-configured message,
/// when the URL or the secret is blank; otherwise the endpoint, the secret
/// header with the trimmed secret, a JSON payload within 30 seconds, and the
/// meeting type.
pub fn plan_publish(config: &CityWalkConfig, meeting_type: Option<String>) -> (r: Result<
    IngestPlan,
    String,
>)
    ensures
        match r {
            Err(m) => !publishable(config@) && m@ == not_configured_message(),
            Ok(p) => {
                &&& publishable(config@)
                &&& p.endpoint@ == ingest_endpoint_of(config@.ingest_url)
                &&& p.secret_header@ == "X-CityWalk-Ingest-Secret"@
                &&& p.secret@ == trimmed(config@.ingest_secret)
                &&& p.content_type@ == "application/json"@
                &&& p.timeout_secs == 30
                &&& p.meeting_type@ == meeting_type_of(
                    opt_view(meeting_type),
                    config@.meeting_type,
                )
            },
        },
{
    if !config.is_publishable() {
        return Err(owned("CityWalk ingest URL and secret are not set. Add them in Preferences."));
    }
    Ok(
        IngestPlan {
            endpoint: ingest_endpoint(config.ingest_url.as_str()),
            secret_header: owned("X-CityWalk-Ingest-Secret"),
            secret: owned(trim(config.ingest_secret.as_str())),
            content_type: owned("application/json"),
            timeout_secs: 30,
            meeting_type: resolve_meeting_type(meeting_type, config.meeting_type.as_str()),
        },
    )
}

/// The markdown sent for the minutes.
pub fn extract_markdown(m: &MinutesFields) -> (r: Option<String>)
    ensures
        opt_view(r) == markdown_of(*m),
{
    if m.text.is_some() {
        m.text.clone()
    } else if m.markdown.is_some() {
        m.markdown.clone()
    } else if m.summary.is_some() {
        m.summary.clone()
    } else {
        m.pretty.clone()
    }
}

/// The message given when the meeting cannot be loaded.
pub fn meeting_not_found(meeting_id: &str, detail: &str) -> (r: String)
    ensures
        r@ == "Meeting "@ + meeting_id@ + " not found: "@ + detail@,
{
    let mut m = owned("Meeting ").concat(meeting_id);
    m.append(" not found: ");
    m.append(detail);
    m
}

/// The message given when the service cannot be reached.
pub fn unreachable_message(detail: &str) -> (r: String)
    ensures
        r@ == "Could not reach CityWalk: "@ + detail@,
{
    owned("Could not reach CityWalk: ").concat(detail)
}

/// The reply a publish returns: the parsed JSON of the body, or the body
/// itself when it is not JSON (returned as `{"raw": body}`).
#[derive(Debug)]
pub enum IngestReply {
    Json(serde_json::Value),
    Raw(String),
}

/// What the service's reply means: a failure message when the status is not
/// 2xx; otherwise the body parsed as JSON, or the raw body when it does not
/// parse.
pub fn ingest_result(success: bool, status: &str, body: String) -> (r: Result<IngestReply, String>)
    ensures
        match r {
            Err(m) => !success && m@ == "CityWalk ingest failed ("@ + status@ + "): "@ + body@,
            Ok(IngestReply::Json(_)) => success && json_parses(body@),
            Ok(IngestReply::Raw(b)) => success && !json_parses(body@) && b@ == body@,
        },
{
    if !success {
        let mut m = owned("CityWalk ingest failed (").concat(status);
        m.append("): ");
        m.append(body.as_str());
        return Err(m);
    }
    match parse_json(body.as_str()) {
        Some(v) => Ok(IngestReply::Json(v)),
        None => Ok(IngestReply::Raw(body)),
    }
}

/// Saving settings that were saved before stores them unchanged.
pub proof fn lemma_settings_stable(
    ingest_url: Seq<char>,
    ingest_secret: Seq<char>,
    meeting_type: Option<Seq<char>>,
)
    ensures
        ({
            let c = settings_of(ingest_url, ingest_secret, meeting_type);
            settings_of(c.ingest_url, c.ingest_secret, Some(c.meeting_type)) == c
        }),
{
    lemma_trimmed_idempotent(ingest_url);
    lemma_trimmed_idempotent(ingest_secret);
}

/// Saved settings can be published exactly when the entered URL and secret
/// are not blank.
pub proof fn lemma_saved_settings_publishable(
    ingest_url: Seq<char>,
    ingest_secret: Seq<char>,
    meeting_type: Option<Seq<char>>,
)
    ensures
        publishable(settings_of(ingest_url, ingest_secret, meeting_type)) <==> (key_present(
            ingest_url,
        ) && key_present(ingest_secret)),
{
    lemma_trimmed_idempotent(ingest_url);
    lemma_trimmed_idempotent(ingest_secret);
}

/// A publish always sends a meeting type, and the requested one when it is not empty.
pub proof fn lemma_meeting_type_present(requested: Option<Seq<char>>, configured: Seq<char>)
    ensures
        meeting_type_of(requested, configured).len() > 0,
        requested is Some && requested->0.len() > 0 ==> meeting_type_of(requested, configured)
            == requested->0,
{
    reveal_strlit("other");
}

/// The endpoint always ends in `/ingest`, and resolving it again gives it back.
pub proof fn lemma_endpoint_stable(url: Seq<char>)
    ensures
        "/ingest"@.is_suffix_of(ingest_endpoint_of(url)),
        ingest_endpoint_of(ingest_endpoint_of(url)) == ingest_endpoint_of(url),
{
    reveal_strlit("/ingest");
    reveal_strlit("/api/integrations/meetings/ingest");
    let t = trimmed(url);
    let u = strip_trailing(t, '/');
    let e = ingest_endpoint_of(url);
    lemma_trimmed_bounds(url);
    lemma_strip_trailing_prefix(t, '/');
    // The endpoint ends in `/ingest`.
    if !"/ingest"@.is_suffix_of(u) {
        assert(e == u + ingest_path());
        assert(e.subrange(e.len() - 7, e.len() as int) == ingest_path().subrange(26, 33));
    }
    assert("/ingest"@.is_suffix_of(e));
    assert(e.len() >= 7);
    assert(e.last() == 't') by {
        assert(e.subrange(e.len() - 7, e.len() as int)[6] == e.last());
    }
    // Its first character is not whitespace.
    assert(!is_white_space(e[0])) by {
        if u.len() > 0 {
            assert(u[0] == t[0]);
            assert(e[0] == u[0]);
        } else {
            assert(e == ingest_path());
        }
    }
    lemma_trim_start_fixed(e);
    lemma_trim_end_fixed(e);
    assert(trimmed(e) == e) by {
        assert(trim_start(e) == e);
        assert(trim_end(e) == e);
    }
    assert(strip_trailing(e, '/') == e);
}


/// Saved settings keep what was entered, apart from whitespace around the
/// URL and the secret; an entered meeting type is kept as it is.
pub proof fn lemma_settings_keep_entries(
    ingest_url: Seq<char>,
    ingest_secret: Seq<char>,
    meeting_type: Option<Seq<char>>,
)
    ensures
        ({
            let c = settings_of(ingest_url, ingest_secret, meeting_type);
            &&& trimmed(ingest_url) == ingest_url ==> c.ingest_url == ingest_url
            &&& trimmed(ingest_secret) == ingest_secret ==> c.ingest_secret == ingest_secret
            &&& c.ingest_url == trimmed(ingest_url)
            &&& c.ingest_secret == trimmed(ingest_secret)
            &&& meeting_type is Some ==> c.meeting_type == meeting_type->0
            &&& meeting_type is None ==> c.meeting_type.len() == 0
        }),
{
}

/// Without a non-empty requested type, the configured one is sent when it is
/// not empty, and `other` when it is.
pub proof fn lemma_meeting_type_falls_back(requested: Option<Seq<char>>, configured: Seq<char>)
    requires
        requested is None || requested->0.len() == 0,
    ensures
        configured.len() > 0 ==> meeting_type_of(requested, configured) == configured,
        configured.len() == 0 ==> meeting_type_of(requested, configured) == "other"@,
{
}

/// The endpoint extends the configured URL (trimmed, trailing slashes
/// dropped): a URL already ending in `/ingest` is used as it is, any other
/// gets the ingest path appended.
pub proof fn lemma_endpoint_extends_url(url: Seq<char>)
    ensures
        ({
            let u = strip_trailing(trimmed(url), '/');
            &&& u.is_prefix_of(ingest_endpoint_of(url))
            &&& "/ingest"@.is_suffix_of(u) ==> ingest_endpoint_of(url) == u
            &&& !"/ingest"@.is_suffix_of(u) ==> ingest_endpoint_of(url) == u
                + "/api/integrations/meetings/ingest"@
        }),
{
}

/// The markdown of minutes that parse is the minutes string itself when they
/// are one, then the `markdown` member, then the `summary` member, and the
/// pretty-printed minutes otherwise; minutes that do not parse give none.
pub proof fn lemma_minutes_markdown_precedence(t: Seq<char>)
    ensures
        !json_parses(t) ==> minutes_markdown_of(Some(t)) is None,
        json_parses(t) && json_string(t) is Some ==> minutes_markdown_of(Some(t)) == json_string(t),
        json_parses(t) && json_string(t) is None && json_string_member(t, "markdown"@) is Some
            ==> minutes_markdown_of(Some(t)) == json_string_member(t, "markdown"@),
        json_parses(t) && json_string(t) is None && json_string_member(t, "markdown"@) is None
            && json_string_member(t, "summary"@) is Some ==> minutes_markdown_of(Some(t))
            == json_string_member(t, "summary"@),
        json_parses(t) && json_string(t) is None && json_string_member(t, "markdown"@) is None
            && json_string_member(t, "summary"@) is None ==> minutes_markdown_of(Some(t)) == Some(
            json_pretty(t),
        ),
        minutes_markdown_of(None) is None,
{
}

} // verus!
