use citywalk_meetings::deepgram::{
    urlencoding_model, DeepgramAlternative, DeepgramChannel, DeepgramProvider, DeepgramResponse,
    DeepgramResults,
};
use citywalk_meetings::transcription::{HttpReply, TranscriptionError};

#[test]
fn deepgram_model_selection() {
    let model = |m: &str| DeepgramProvider::new("k".into(), m.into()).get_current_model().unwrap();
    assert_eq!(model(""), "nova-2");
    assert_eq!(model("   "), "nova-2");
    assert_eq!(model("whisper-1"), "nova-2");
    assert_eq!(model(" nova-3"), "nova-2");
    assert_eq!(model("nova-3"), "nova-3");
    assert_eq!(model("nova-2-meeting"), "nova-2-meeting");
}

#[test]
fn reselecting_a_model_keeps_it() {
    for m in ["", "nova-3", "base", "nova-", " x "] {
        let first = DeepgramProvider::new("k".into(), m.into()).get_current_model().unwrap();
        let again = DeepgramProvider::new("k".into(), first.clone()).get_current_model().unwrap();
        assert_eq!(first, again);
        assert!(first.starts_with("nova-"));
    }
}

#[test]
fn deepgram_loaded_and_name() {
    assert!(!DeepgramProvider::new("  ".into(), "".into()).is_model_loaded());
    let p = DeepgramProvider::new("abc".into(), "".into());
    assert!(p.is_model_loaded());
    assert_eq!(p.provider_name(), "Deepgram");
}

#[test]
fn model_ids_are_escaped() {
    assert_eq!(urlencoding_model("nova-2"), "nova-2");
    assert_eq!(urlencoding_model("nova_2.x-Y9"), "nova_2.x-Y9");
    assert_eq!(urlencoding_model("a b/c&d"), "a%20b%2Fc%26d");
    assert_eq!(urlencoding_model("\u{e9}"), "%E9");
    assert_eq!(urlencoding_model("\u{20ac}"), "%AC");
    assert_eq!(urlencoding_model(""), "");
}

#[test]
fn request_for_a_language() {
    let p = DeepgramProvider::new(" secret ".into(), "nova-3".into());
    let req = p.prepare(1600, Some("en-US".into())).unwrap();
    assert_eq!(
        req.url,
        "https://api.deepgram.com/v1/listen?model=nova-3&smart_format=true&punctuate=true&language=en"
    );
    assert_eq!(req.authorization, "Token secret");
    assert_eq!(req.content_type, "audio/wav");
    assert_eq!(req.timeout_secs, 30);
    let req = p.prepare(2000, Some("auto".into())).unwrap();
    assert_eq!(req.url, "https://api.deepgram.com/v1/listen?model=nova-3&smart_format=true&punctuate=true");
    let req = p.prepare(2000, None).unwrap();
    assert_eq!(req.url, "https://api.deepgram.com/v1/listen?model=nova-3&smart_format=true&punctuate=true");
}

#[test]
fn request_refusals() {
    let p = DeepgramProvider::new("".into(), "nova-3".into());
    assert!(matches!(p.prepare(5000, None), Err(TranscriptionError::ModelNotLoaded)));
    let p = DeepgramProvider::new("k".into(), "nova-3".into());
    assert!(matches!(
        p.prepare(10, None),
        Err(TranscriptionError::AudioTooShort { samples: 10, minimum: 1600 })
    ));
}

fn alt(t: Option<&str>) -> DeepgramAlternative {
    DeepgramAlternative { transcript: t.map(|s| s.to_string()) }
}

#[test]
fn first_alternative_of_first_channel() {
    let resp = DeepgramResponse {
        results: Some(DeepgramResults {
            channels: Some(vec![
                DeepgramChannel { alternatives: Some(vec![alt(Some(" hi there ")), alt(Some("no"))]) },
                DeepgramChannel { alternatives: Some(vec![alt(Some("other"))]) },
            ]),
        }),
    };
    assert_eq!(resp.first_transcript(), Some(" hi there ".to_string()));
    assert_eq!(DeepgramProvider::finish(Ok(resp)).unwrap(), "hi there");
    let empty = DeepgramResponse { results: Some(DeepgramResults { channels: Some(vec![]) }) };
    assert_eq!(empty.first_transcript(), None);
    assert_eq!(DeepgramProvider::finish(Ok(empty)).unwrap(), "");
    assert_eq!(DeepgramProvider::finish(Ok(DeepgramResponse { results: None })).unwrap(), "");
    let no_alts = DeepgramResponse {
        results: Some(DeepgramResults { channels: Some(vec![DeepgramChannel { alternatives: None }]) }),
    };
    assert_eq!(no_alts.first_transcript(), None);
}

#[test]
fn deepgram_failures() {
    match DeepgramProvider::finish(Err("EOF while parsing".into())) {
        Err(TranscriptionError::EngineFailed(m)) => assert_eq!(m, "Deepgram response parse error: EOF while parsing"),
        other => panic!("unexpected {:?}", other),
    }
    match DeepgramProvider::reply_body(HttpReply::Received {
        success: false,
        status: "402 Payment Required".into(),
        body: Ok("{\"err\":1}".into()),
    }) {
        Err(TranscriptionError::EngineFailed(m)) => {
            assert_eq!(m, "Deepgram transcription failed (402 Payment Required): {\"err\":1}")
        }
        other => panic!("unexpected {:?}", other),
    }
}

fn decode(e: &str) -> Vec<u32> {
    let cs: Vec<char> = e.chars().collect();
    let mut out = Vec::new();
    let mut i = 0;
    while i < cs.len() {
        if cs[i] == '%' {
            out.push(cs[i + 1].to_digit(16).unwrap() * 16 + cs[i + 2].to_digit(16).unwrap());
            i += 3;
        } else {
            out.push(cs[i] as u32);
            i += 1;
        }
    }
    out
}

#[test]
fn latin1_model_ids_read_back() {
    for id in ["nova-2", "a b%c", "\u{e9}t\u{e9}-2", "\u{ff}\u{1}"] {
        let values: Vec<u32> = id.chars().map(|c| c as u32).collect();
        assert_eq!(decode(&urlencoding_model(id)), values);
    }
    assert_ne!(decode(&urlencoding_model("\u{20ac}")), vec![0x20ac]);
}
