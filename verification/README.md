# citywalk_meetings

Verified core of the CityWalk Meetings desktop app's cloud features.

- `src/wav.rs` — RIFF/WAVE framing of 16-bit mono PCM, with a proof that the
  header fields and samples read back from the produced bytes.
- `src/transcription.rs` — checks made before a cloud transcription, the
  language code sent, and what a provider makes of an HTTP reply.
- `src/deepgram.rs`, `src/groq.rs` — the Deepgram and Groq Whisper providers:
  model selection, the request each sends, and how each reads its reply.
- `src/citywalk.rs` — ingest settings and the decisions made when a meeting
  is published (endpoint, headers, meeting type, payload fields, the stored minutes read as
  JSON with `serde_json`, and the service's reply).
- `src/text.rs` — the string operations above, specified over `Seq<char>`.

`app/` holds what Verus does not check: float-to-PCM conversion, HTTP with
`reqwest`, serde parses into the reply types, JSON assembly of the payload, and the settings
file.
