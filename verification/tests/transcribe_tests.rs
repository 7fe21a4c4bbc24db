use base64::Engine;
use blueprint_core::error::{AiError, UpstreamKind};
use blueprint_core::provider::{HttpOutcome, completion_from_outcome};
use blueprint_core::transcribe::{resolve_voice, transcription_request};

fn keys(voice: &str, ai: &str, groq: &str) -> (String, String, String) {
    (voice.to_string(), ai.to_string(), groq.to_string())
}

#[test]
fn groq_transcription_request_shape() {
    let (voice, ai, groq) = keys("groq", "", "gk-123");
    let config = resolve_voice(&voice, &ai, &groq).unwrap();
    assert!(config.groq);
    assert_eq!(config.api_key, "gk-123");

    let audio: Vec<u8> = vec![0x1a, 0x45, 0xdf, 0xa3, 0x00, 0x42];
    let encoded = base64::engine::general_purpose::STANDARD.encode(&audio);
    let req = transcription_request(&config, &encoded).unwrap();
    assert_eq!(req.url, "https://api.groq.com/openai/v1/audio/transcriptions");
    assert_eq!(req.model, "whisper-large-v3-turbo");
    assert_eq!(req.api_key, "gk-123");
    assert_eq!(req.file_name, "audio.webm");
    assert_eq!(req.mime_type, "audio/webm");
    assert_eq!(req.language, "ru");
    // the decode really decodes: the bytes round-trip
    assert_eq!(req.audio, audio);
}

#[test]
fn groq_transcript_is_read_from_text_field() {
    let r = completion_from_outcome(
        UpstreamKind::Whisper,
        HttpOutcome::Status { code: 200, body: "{\"text\":\"привет\"}".to_string() },
    )
    .unwrap();
    assert_eq!(r, "привет");
}

#[test]
fn openai_is_the_default_voice_provider() {
    let (voice, ai, groq) = keys("", "sk-openai", "gk");
    let config = resolve_voice(&voice, &ai, &groq).unwrap();
    assert!(!config.groq);
    assert_eq!(config.api_key, "sk-openai");
    let encoded = base64::engine::general_purpose::STANDARD.encode([1u8, 2, 3]);
    let req = transcription_request(&config, &encoded).unwrap();
    assert_eq!(req.url, "https://api.openai.com/v1/audio/transcriptions");
    assert_eq!(req.model, "whisper-1");
}

#[test]
fn missing_groq_key_names_the_groq_setting() {
    let (voice, ai, groq) = keys("groq", "sk-openai", "");
    let e = resolve_voice(&voice, &ai, &groq).err().unwrap();
    assert_eq!(e, AiError::MissingVoiceCredential { groq: true });
    assert_eq!(
        e.message(),
        "Groq API ключ не настроен. Добавьте его в Настройки → Голосовой ввод."
    );
}

#[test]
fn missing_openai_voice_key() {
    let (voice, ai, groq) = keys("openai", "", "gk");
    let e = resolve_voice(&voice, &ai, &groq).err().unwrap();
    assert_eq!(e, AiError::MissingVoiceCredential { groq: false });
    assert_eq!(e.message(), "API ключ не настроен");
}

#[test]
fn malformed_base64_is_a_decode_error() {
    let (voice, ai, groq) = keys("groq", "", "gk");
    let config = resolve_voice(&voice, &ai, &groq).unwrap();
    let e = transcription_request(&config, "не base64 вовсе!").err().unwrap();
    assert_eq!(e, AiError::InvalidAudio);
    assert_eq!(e.message(), "Некорректные аудиоданные: ожидается base64");
}

#[test]
fn missing_transcript_text_is_empty() {
    let r = completion_from_outcome(
        UpstreamKind::Whisper,
        HttpOutcome::Status { code: 200, body: "{}".to_string() },
    )
    .unwrap();
    assert_eq!(r, "");
}

#[test]
fn whisper_upstream_error_label() {
    let e = completion_from_outcome(
        UpstreamKind::Whisper,
        HttpOutcome::Status { code: 429, body: "rate limited".to_string() },
    )
    .err()
    .unwrap();
    assert_eq!(e.message(), "Whisper API ошибка 429: rate limited");
}
