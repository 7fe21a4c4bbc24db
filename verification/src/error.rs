//! The failure taxonomy of the protocol: missing credentials, upstream HTTP
//! failures, timeouts and bad audio input. Every failure renders to one
//! human-readable message for the caller.

use vstd::prelude::*;
use crate::text::{dec_rep, decimal_string};

verus! {

/// Which upstream API a failure came from; it only selects the label used in
/// the rendered message.
#[derive(Debug, Clone, Copy, PartialEq, Eq)]
pub enum UpstreamKind {
    OpenAiCompatible,
    Anthropic,
    Gemini,
    Whisper,
}

/// A failed orchestration call. Unparseable completion text is deliberately
/// not here: it degrades to a plain reply instead of failing.
#[derive(Debug, PartialEq)]
pub enum AiError {
    /// No API key is stored and the resolved chat provider needs one.
    MissingCredential,
    /// No API key is stored for the selected speech-to-text provider.
    MissingVoiceCredential { groq: bool },
    /// The provider answered with a non-success HTTP status.
    Upstream { kind: UpstreamKind, status: u16, body: String },
    /// The HTTP call outlived its bound.
    Timeout,
    /// The audio input was not valid base64.
    InvalidAudio,
    /// The provider answered success, but its body was not a JSON document.
    UnreadableReply { kind: UpstreamKind },
}

/// The message label of each upstream API.
pub open spec fn kind_label(kind: UpstreamKind) -> Seq<char> {
    match kind {
        UpstreamKind::OpenAiCompatible => "AI"@,
        UpstreamKind::Anthropic => "Anthropic"@,
        UpstreamKind::Gemini => "Gemini"@,
        UpstreamKind::Whisper => "Whisper"@,
    }
}

/// The human-readable rendering of a failure.
pub open spec fn error_message(e: AiError) -> Seq<char> {
    match e {
        AiError::MissingCredential => "API ключ не настроен. Перейди в Настройки и добавь ключ."@,
        AiError::MissingVoiceCredential { groq } => if groq {
            "Groq API ключ не настроен. Добавьте его в Настройки → Голосовой ввод."@
        } else {
            "API ключ не настроен"@
        },
        AiError::Upstream { kind, status, body } => kind_label(kind) + " API ошибка "@ + dec_rep(
            status as nat,
        ) + ": "@ + body@,
        AiError::Timeout => "AI API: превышено время ожидания ответа"@,
        AiError::InvalidAudio => "Некорректные аудиоданные: ожидается base64"@,
        AiError::UnreadableReply { kind } => kind_label(kind)
            + " API: ответ не является JSON-документом"@,
    }
}

fn kind_label_str(kind: UpstreamKind) -> (r: &'static str)
    ensures
        r@ == kind_label(kind),
{
    match kind {
        UpstreamKind::OpenAiCompatible => "AI",
        UpstreamKind::Anthropic => "Anthropic",
        UpstreamKind::Gemini => "Gemini",
        UpstreamKind::Whisper => "Whisper",
    }
}

impl AiError {
    /// Render this failure as the single message the caller surfaces.
    pub fn message(&self) -> (r: String)
        ensures
            r@ == error_message(*self),
    {
        match self {
            AiError::MissingCredential => "API ключ не настроен. Перейди в Настройки и добавь ключ.".to_owned(),
            AiError::MissingVoiceCredential { groq } => {
                if *groq {
                    "Groq API ключ не настроен. Добавьте его в Настройки → Голосовой ввод.".to_owned()
                } else {
                    "API ключ не настроен".to_owned()
                }
            },
            AiError::Upstream { kind, status, body } => {
                let mut m = kind_label_str(*kind).to_owned();
                m.append(" API ошибка ");
                let digits = decimal_string(*status as u64);
                m.append(digits.as_str());
                m.append(": ");
                m.append(body.as_str());
                m
            },
            AiError::Timeout => "AI API: превышено время ожидания ответа".to_owned(),
            AiError::InvalidAudio => "Некорректные аудиоданные: ожидается base64".to_owned(),
            AiError::UnreadableReply { kind } => {
                let mut m = kind_label_str(*kind).to_owned();
                m.append(" API: ответ не является JSON-документом");
                m
            },
        }
    }
}

} // verus!
