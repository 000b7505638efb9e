//! Speech-to-text request logic and meeting ingest decisions, with their contracts.
pub mod text;
pub mod wav;
pub mod transcription;
pub mod deepgram;
pub mod groq;
pub mod citywalk;
