//! The transcription adapter: selects a speech-to-text provider, decodes the
//! caller's base64 audio, and prepares the multipart upload; the `text`
//! field of the response is the transcript.

use vstd::prelude::*;
use crate::error::AiError;
use crate::text::str_eq;

verus! {

/// What base64's standard-alphabet decode yields on a given text: `None`
/// exactly where the text is not valid standard base64.
pub uninterp spec fn base64_decode(s: Seq<char>) -> Option<Seq<u8>>;

/// Relies on `base64::Engine::decode` with the `STANDARD` engine: decodes
/// the text, or fails exactly when it is not valid standard base64.
#[verifier::external_body]
fn decode_base64(s: &str) -> (r: Option<Vec<u8>>)
    ensures
        match r {
            Some(b) => base64_decode(s@) == Some(b@),
            None => base64_decode(s@) is None,
        },
{
    match base64::Engine::decode(&base64::engine::general_purpose::STANDARD, s) {
        Ok(b) => Some(b),
        Err(_) => None,
    }
}

/// The speech-to-text provider and credential one transcription runs with.
#[derive(Debug, Clone, PartialEq)]
pub struct TranscriptionConfig {
    pub groq: bool,
    pub api_key: String,
}

/// Whether a stored voice-provider value selects Groq; every other value
/// (the default included) selects OpenAI.
pub open spec fn is_groq(provider: Seq<char>) -> bool {
    provider == "groq"@
}

/// The key a voice provider is billed against.
pub open spec fn voice_key(groq: bool, ai_api_key: Seq<char>, groq_api_key: Seq<char>) -> Seq<
    char,
> {
    if groq {
        groq_api_key
    } else {
        ai_api_key
    }
}

/// Resolve the transcription configuration from the persisted voice provider
/// and the two stored keys. Fails exactly when the selected provider's key
/// is empty.
pub fn resolve_voice(
    voice_provider: &String,
    ai_api_key: &String,
    groq_api_key: &String,
) -> (r: Result<TranscriptionConfig, AiError>)
    ensures
        r is Ok <==> voice_key(is_groq(voice_provider@), ai_api_key@, groq_api_key@).len() > 0,
        r matches Ok(c) ==> c.groq == is_groq(voice_provider@) && c.api_key@ == voice_key(
            is_groq(voice_provider@),
            ai_api_key@,
            groq_api_key@,
        ),
        r matches Err(e) ==> e == (AiError::MissingVoiceCredential {
            groq: is_groq(voice_provider@),
        }),
{
    let groq = str_eq(voice_provider.as_str(), "groq");
    let api_key = if groq {
        groq_api_key.clone()
    } else {
        ai_api_key.clone()
    };
    if api_key.as_str().is_empty() {
        Err(AiError::MissingVoiceCredential { groq })
    } else {
        Ok(TranscriptionConfig { groq, api_key })
    }
}

/// One transcription upload, ready for a single multipart POST: the
/// endpoint, the bearer credential, the fixed form fields and the audio.
#[derive(Debug, PartialEq)]
pub struct TranscriptionRequest {
    pub url: String,
    pub api_key: String,
    pub model: String,
    pub file_name: String,
    pub mime_type: String,
    pub language: String,
    pub audio: Vec<u8>,
}

/// The transcription endpoint of each speech-to-text provider.
pub open spec fn transcription_endpoint(groq: bool) -> Seq<char> {
    if groq {
        "https://api.groq.com/openai/v1/audio/transcriptions"@
    } else {
        "https://api.openai.com/v1/audio/transcriptions"@
    }
}

/// The fixed model identifier of each speech-to-text provider.
pub open spec fn transcription_model(groq: bool) -> Seq<char> {
    if groq {
        "whisper-large-v3-turbo"@
    } else {
        "whisper-1"@
    }
}

/// Decode the caller's base64 audio and prepare the upload: the provider's
/// endpoint and model, the fixed `audio.webm` file name, MIME type and
/// language hint, and the decoded bytes. Fails exactly on malformed base64.
pub fn transcription_request(config: &TranscriptionConfig, audio_base64: &str) -> (r: Result<
    TranscriptionRequest,
    AiError,
>)
    ensures
        match base64_decode(audio_base64@) {
            Some(bytes) => r matches Ok(req) && req.url@ == transcription_endpoint(config.groq)
                && req.api_key@ == config.api_key@ && req.model@ == transcription_model(
                config.groq,
            ) && req.file_name@ == "audio.webm"@ && req.mime_type@ == "audio/webm"@
                && req.language@ == "ru"@ && req.audio@ == bytes,
            None => r matches Err(e) && e == AiError::InvalidAudio,
        },
{
    let audio = match decode_base64(audio_base64) {
        Some(b) => b,
        None => {
            return Err(AiError::InvalidAudio);
        },
    };
    let url = if config.groq {
        "https://api.groq.com/openai/v1/audio/transcriptions".to_owned()
    } else {
        "https://api.openai.com/v1/audio/transcriptions".to_owned()
    };
    let model = if config.groq {
        "whisper-large-v3-turbo".to_owned()
    } else {
        "whisper-1".to_owned()
    };
    Ok(
        TranscriptionRequest {
            url,
            api_key: config.api_key.clone(),
            model,
            file_name: "audio.webm".to_owned(),
            mime_type: "audio/webm".to_owned(),
            language: "ru".to_owned(),
            audio,
        },
    )
}

} // verus!
