use citywalk_meetings::citywalk::{
    extract_markdown, ingest_endpoint, ingest_payload, ingest_result, meeting_not_found,
    minutes_markdown, minutes_value, plan_publish, resolve_meeting_type, unreachable_message, CityWalkConfig,
    IngestReply, MinutesFields,
};

#[test]
fn default_config_is_empty() {
    let c = CityWalkConfig::default();
    assert_eq!(c.ingest_url, "");
    assert_eq!(c.ingest_secret, "");
    assert_eq!(c.meeting_type, "");
    assert!(!c.is_publishable());
}

#[test]
fn saved_settings_are_trimmed() {
    let c = CityWalkConfig::from_settings(" https://tasks.example.com/ \n".into(), "\ts3cret ".into(), None);
    assert_eq!(c.ingest_url, "https://tasks.example.com/");
    assert_eq!(c.ingest_secret, "s3cret");
    assert_eq!(c.meeting_type, "");
    let d = CityWalkConfig::from_settings("u".into(), "s".into(), Some(" standup ".into()));
    assert_eq!(d.meeting_type, " standup ");
}

#[test]
fn saving_saved_settings_changes_nothing() {
    let c = CityWalkConfig::from_settings("  a  ".into(), " b".into(), Some("review".into()));
    let again = CityWalkConfig::from_settings(c.ingest_url.clone(), c.ingest_secret.clone(), Some(c.meeting_type.clone()));
    assert_eq!(again.ingest_url, c.ingest_url);
    assert_eq!(again.ingest_secret, c.ingest_secret);
    assert_eq!(again.meeting_type, c.meeting_type);
}

#[test]
fn endpoints() {
    assert_eq!(ingest_endpoint("https://x.com"), "https://x.com/api/integrations/meetings/ingest");
    assert_eq!(ingest_endpoint(" https://x.com// "), "https://x.com/api/integrations/meetings/ingest");
    assert_eq!(
        ingest_endpoint("https://x.com/api/integrations/meetings/ingest/"),
        "https://x.com/api/integrations/meetings/ingest"
    );
    assert_eq!(ingest_endpoint("https://x.com/hooks/ingest"), "https://x.com/hooks/ingest");
    assert_eq!(ingest_endpoint(""), "/api/integrations/meetings/ingest");
    assert_eq!(ingest_endpoint("abc /"), "abc /api/integrations/meetings/ingest");
}

#[test]
fn endpoint_of_endpoint_is_itself() {
    for u in ["https://x.com", " a/b/ ", "", "ingest", "q/ingest//", "  /  "] {
        let e = ingest_endpoint(u);
        assert_eq!(ingest_endpoint(&e), e);
        assert!(e.ends_with("/ingest"));
    }
}

#[test]
fn meeting_types() {
    assert_eq!(resolve_meeting_type(Some("standup".into()), "review"), "standup");
    assert_eq!(resolve_meeting_type(Some("".into()), "review"), "review");
    assert_eq!(resolve_meeting_type(None, "review"), "review");
    assert_eq!(resolve_meeting_type(None, ""), "other");
    assert_eq!(resolve_meeting_type(Some("".into()), ""), "other");
}

#[test]
fn publish_needs_url_and_secret() {
    let c = CityWalkConfig::from_settings("https://x.com".into(), "  ".into(), None);
    match plan_publish(&c, None) {
        Err(m) => assert_eq!(m, "CityWalk ingest URL and secret are not set. Add them in Preferences."),
        Ok(_) => panic!("expected the not-configured message"),
    }
    let c = CityWalkConfig { ingest_url: " ".into(), ingest_secret: "s".into(), meeting_type: "".into() };
    assert!(plan_publish(&c, None).is_err());
}

#[test]
fn publish_plan() {
    let c = CityWalkConfig {
        ingest_url: " https://x.com/ ".into(),
        ingest_secret: " s ".into(),
        meeting_type: "review".into(),
    };
    let p = plan_publish(&c, Some("".into())).ok().unwrap();
    assert_eq!(p.endpoint, "https://x.com/api/integrations/meetings/ingest");
    assert_eq!(p.secret_header, "X-CityWalk-Ingest-Secret");
    assert_eq!(p.secret, "s");
    assert_eq!(p.content_type, "application/json");
    assert_eq!(p.timeout_secs, 30);
    assert_eq!(p.meeting_type, "review");
    let p = plan_publish(&c, Some("1:1".into())).ok().unwrap();
    assert_eq!(p.meeting_type, "1:1");
}

fn fields(text: Option<&str>, md: Option<&str>, summary: Option<&str>, pretty: Option<&str>) -> MinutesFields {
    let o = |x: Option<&str>| x.map(|s| s.to_string());
    MinutesFields { text: o(text), markdown: o(md), summary: o(summary), pretty: o(pretty) }
}

#[test]
fn markdown_precedence() {
    assert_eq!(extract_markdown(&fields(Some("t"), Some("m"), Some("s"), Some("p"))), Some("t".into()));
    assert_eq!(extract_markdown(&fields(None, Some("m"), Some("s"), Some("p"))), Some("m".into()));
    assert_eq!(extract_markdown(&fields(None, None, Some("s"), Some("p"))), Some("s".into()));
    assert_eq!(extract_markdown(&fields(None, None, None, Some("{}"))), Some("{}".into()));
    assert_eq!(extract_markdown(&fields(None, None, None, None)), None);
}

#[test]
fn messages() {
    assert_eq!(meeting_not_found("m-1", "no rows"), "Meeting m-1 not found: no rows");
    assert_eq!(unreachable_message("timeout"), "Could not reach CityWalk: timeout");
    assert_eq!(
        ingest_result(false, "403 Forbidden", "nope".into()).unwrap_err(),
        "CityWalk ingest failed (403 Forbidden): nope"
    );
}

#[test]
fn ingest_replies() {
    match ingest_result(true, "200 OK", "{\"ok\":true}".into()).unwrap() {
        IngestReply::Json(v) => assert_eq!(v.to_string(), "{\"ok\":true}"),
        other => panic!("unexpected {:?}", other),
    }
    match ingest_result(true, "201 Created", "accepted".into()).unwrap() {
        IngestReply::Raw(b) => assert_eq!(b, "accepted"),
        other => panic!("unexpected {:?}", other),
    }
}

#[test]
fn stored_minutes_markdown() {
    assert_eq!(minutes_markdown(None), None);
    assert_eq!(minutes_markdown(Some("not json")), None);
    assert_eq!(minutes_markdown(Some("\"# Notes\"")), Some("# Notes".to_string()));
    assert_eq!(
        minutes_markdown(Some("{\"markdown\":\"# M\",\"summary\":\"S\"}")),
        Some("# M".to_string())
    );
    assert_eq!(minutes_markdown(Some("{\"summary\":\"S\",\"markdown\":3}")), Some("S".to_string()));
    assert_eq!(minutes_markdown(Some("{\"a\":1}")), Some("{\n  \"a\": 1\n}".to_string()));
    assert_eq!(minutes_markdown(Some("[1]")), Some("[\n  1\n]".to_string()));
    assert_eq!(minutes_markdown(Some("null")), Some("null".to_string()));
}

#[test]
fn stored_minutes_value() {
    assert!(minutes_value(None).is_none());
    assert!(minutes_value(Some("{oops")).is_none());
    let v = minutes_value(Some("{\"a\": [1, 2]}")).unwrap();
    assert_eq!(v.to_string(), "{\"a\":[1,2]}");
}

#[test]
fn payload_fields() {
    let c = CityWalkConfig::from_settings("https://x.com".into(), "s".into(), Some("review".into()));
    let plan = plan_publish(&c, None).ok().unwrap();
    let p = ingest_payload(
        "m-7".into(),
        "Weekly".into(),
        "2024-05-01T10:00:00Z".into(),
        &plan,
        Some("ops".into()),
        Some("{\"markdown\":\"# W\"}"),
    );
    assert_eq!(p.desktop_meeting_id, "m-7");
    assert_eq!(p.title, "Weekly");
    assert_eq!(p.meeting_type, "review");
    assert_eq!(p.department_id, Some("ops".to_string()));
    assert_eq!(p.started_at, "2024-05-01T10:00:00Z");
    assert_eq!(p.minutes.unwrap().to_string(), "{\"markdown\":\"# W\"}");
    assert_eq!(p.minutes_markdown, Some("# W".to_string()));
    assert_eq!(p.source, "desktop");
    let q = ingest_payload("m".into(), "t".into(), "s".into(), &plan, None, Some("oops"));
    assert!(q.minutes.is_none());
    assert_eq!(q.minutes_markdown, None);
    assert_eq!(q.department_id, None);
}
