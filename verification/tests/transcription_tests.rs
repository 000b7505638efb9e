use citywalk_meetings::transcription::{
    accept_language_code, check_ready, finish_transcript, first_segment_of, key_is_present,
    language_code, reply_body, HttpReply, TranscriptionError,
};

#[test]
fn blank_key_is_not_loaded_before_audio_is_checked() {
    assert!(matches!(check_ready("", 10), Err(TranscriptionError::ModelNotLoaded)));
    assert!(matches!(check_ready(" \t\n", 5000), Err(TranscriptionError::ModelNotLoaded)));
}

#[test]
fn short_audio_is_refused_with_its_size() {
    match check_ready("key", 1599) {
        Err(TranscriptionError::AudioTooShort { samples, minimum }) => {
            assert_eq!(samples, 1599);
            assert_eq!(minimum, 1600);
        }
        other => panic!("unexpected {:?}", other),
    }
    assert!(check_ready("key", 1600).is_ok());
    assert!(check_ready(" key ", 100_000).is_ok());
}

#[test]
fn key_presence_ignores_unicode_whitespace() {
    assert!(!key_is_present("\u{3000}\u{a0} "));
    assert!(key_is_present(" k "));
}

#[test]
fn language_codes() {
    assert_eq!(language_code(Some("en-US".to_string())), Some("en".to_string()));
    assert_eq!(language_code(Some("pt_BR".to_string())), Some("pt".to_string()));
    assert_eq!(language_code(Some("FR".to_string())), Some("fr".to_string()));
    assert_eq!(language_code(Some("AUTO".to_string())), None);
    assert_eq!(language_code(Some("auto-detect".to_string())), None);
    assert_eq!(language_code(Some("".to_string())), None);
    assert_eq!(language_code(Some("-de".to_string())), None);
    assert_eq!(language_code(None), None);
}

#[test]
fn accepted_codes() {
    assert_eq!(accept_language_code("auto".to_string()), None);
    assert_eq!(accept_language_code(String::new()), None);
    assert_eq!(accept_language_code("de".to_string()), Some("de".to_string()));
    assert_eq!(accept_language_code("autox".to_string()), Some("autox".to_string()));
}

#[test]
fn first_segments() {
    assert_eq!(first_segment_of("zh-Hant_TW"), "zh");
    assert_eq!(first_segment_of("es_419"), "es");
    assert_eq!(first_segment_of("nl"), "nl");
    assert_eq!(first_segment_of(""), "");
}

fn engine(r: Result<String, TranscriptionError>) -> String {
    match r {
        Err(TranscriptionError::EngineFailed(m)) => m,
        other => panic!("unexpected {:?}", other),
    }
}

#[test]
fn replies() {
    assert_eq!(
        engine(reply_body("Deepgram", HttpReply::SendFailed("timed out".to_string()))),
        "Deepgram request failed: timed out"
    );
    assert_eq!(
        engine(reply_body(
            "Groq",
            HttpReply::Received {
                success: false,
                status: "401 Unauthorized".to_string(),
                body: Ok("bad key".to_string()),
            }
        )),
        "Groq transcription failed (401 Unauthorized): bad key"
    );
    assert_eq!(
        engine(reply_body(
            "Groq",
            HttpReply::Received {
                success: false,
                status: "500 Internal Server Error".to_string(),
                body: Err("connection reset".to_string()),
            }
        )),
        "connection reset"
    );
    let ok = reply_body(
        "Groq",
        HttpReply::Received { success: true, status: "200 OK".to_string(), body: Ok("{}".to_string()) },
    );
    assert_eq!(ok.unwrap(), "{}");
}

#[test]
fn transcripts_are_trimmed() {
    assert_eq!(finish_transcript("Groq", Ok(Some("  hello world \n".to_string()))).unwrap(), "hello world");
    assert_eq!(finish_transcript("Groq", Ok(None)).unwrap(), "");
    assert_eq!(
        engine(finish_transcript("Deepgram", Err("expected value at line 1".to_string()))),
        "Deepgram response parse error: expected value at line 1"
    );
}
