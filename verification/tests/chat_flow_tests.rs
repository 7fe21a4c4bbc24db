use blueprint_core::chat::{AiMessage, ChatInput, finish_chat, prepare_chat, prepare_chat_on};
use blueprint_core::error::{AiError, UpstreamKind};
use blueprint_core::prompt::Date;
use blueprint_core::provider::HttpOutcome;
use blueprint_core::settings::{StoredSettings, resolve};

fn stored_openai(key: &str) -> StoredSettings {
    StoredSettings {
        ai_provider: "openai".to_string(),
        ai_model: "gpt-4o-mini".to_string(),
        ai_base_url: "".to_string(),
        ai_api_key: key.to_string(),
    }
}

fn user_input(text: &str) -> ChatInput {
    ChatInput {
        messages: vec![AiMessage { role: "user".to_string(), content: text.to_string() }],
        provider: None,
        model: None,
        base_url: None,
    }
}

#[test]
fn missing_key_fails_before_any_request() {
    let r = prepare_chat(user_input("привет"), &stored_openai(""));
    let e = r.err().unwrap();
    assert_eq!(e, AiError::MissingCredential);
    assert_eq!(
        e.message(),
        "API ключ не настроен. Перейди в Настройки и добавь ключ."
    );
}

#[test]
fn missing_key_is_allowed_for_local_provider() {
    let mut s = stored_openai("");
    s.ai_provider = "local".to_string();
    assert!(prepare_chat(user_input("привет"), &s).is_ok());
}

#[test]
fn resolve_prefers_explicit_arguments() {
    let s = StoredSettings {
        ai_provider: "openai".to_string(),
        ai_model: "stored-model".to_string(),
        ai_base_url: "http://stored".to_string(),
        ai_api_key: "stored-key".to_string(),
    };
    let c = resolve(
        Some("gemini".to_string()),
        Some("explicit-model".to_string()),
        None,
        &s,
    )
    .unwrap();
    assert_eq!(c.provider, "gemini");
    assert_eq!(c.model, "explicit-model");
    assert_eq!(c.base_url, "http://stored");
    assert_eq!(c.api_key, "stored-key");
}

#[test]
fn resolve_never_takes_a_key_from_the_call() {
    let c = resolve(None, None, None, &stored_openai("the-stored-key")).unwrap();
    assert_eq!(c.api_key, "the-stored-key");
}

#[test]
fn end_to_end_add_client() {
    let today = Date { year: 2024, month: 11, day: 2 };
    let p = prepare_chat_on(user_input("создай клиента Иван"), &stored_openai("sk-test"), &today)
        .unwrap();
    assert_eq!(p.kind, UpstreamKind::OpenAiCompatible);
    assert_eq!(p.request.url, "https://api.openai.com/v1/chat/completions");

    // the upstream, mocked: an OpenAI envelope whose completion carries one action
    let completion =
        "{\"actions\":[{\"action\":\"add_client\",\"data\":{\"name\":\"Иван\"}}],\"message\":\"Добавил клиента\"}";
    let mut message = serde_json::Map::new();
    message.insert(
        "content".to_string(),
        serde_json::Value::String(completion.to_string()),
    );
    let mut choice = serde_json::Map::new();
    choice.insert("message".to_string(), serde_json::Value::Object(message));
    let mut envelope_map = serde_json::Map::new();
    envelope_map.insert(
        "choices".to_string(),
        serde_json::Value::Array(vec![serde_json::Value::Object(choice)]),
    );
    let envelope = serde_json::Value::Object(envelope_map).to_string();

    let r = finish_chat(p.kind, HttpOutcome::Status { code: 200, body: envelope }).unwrap();
    assert_eq!(r.content, "Добавил клиента");
    assert_eq!(r.actions.len(), 1);
    let action = &r.actions[0];
    assert_eq!(action.get("action").unwrap().as_str().unwrap(), "add_client");
    assert_eq!(
        action.get("data").unwrap().get("name").unwrap().as_str().unwrap(),
        "Иван"
    );
}

#[test]
fn upstream_error_carries_status_and_body() {
    let r = finish_chat(
        UpstreamKind::OpenAiCompatible,
        HttpOutcome::Status { code: 500, body: "boom".to_string() },
    );
    let e = r.err().unwrap();
    assert_eq!(
        e,
        AiError::Upstream { kind: UpstreamKind::OpenAiCompatible, status: 500, body: "boom".to_string() }
    );
    assert_eq!(e.message(), "AI API ошибка 500: boom");
}

#[test]
fn anthropic_error_label() {
    let e = finish_chat(
        UpstreamKind::Anthropic,
        HttpOutcome::Status { code: 404, body: "not found".to_string() },
    )
    .err()
    .unwrap();
    assert_eq!(e.message(), "Anthropic API ошибка 404: not found");
}

#[test]
fn timeout_is_fatal() {
    let e = finish_chat(UpstreamKind::Gemini, HttpOutcome::TimedOut).err().unwrap();
    assert_eq!(e, AiError::Timeout);
    assert_eq!(e.message(), "AI API: превышено время ожидания ответа");
}

#[test]
fn success_with_non_json_envelope_fails() {
    let e = finish_chat(
        UpstreamKind::OpenAiCompatible,
        HttpOutcome::Status { code: 200, body: "<html>gateway</html>".to_string() },
    )
    .err()
    .unwrap();
    assert_eq!(e, AiError::UnreadableReply { kind: UpstreamKind::OpenAiCompatible });
}

#[test]
fn missing_completion_text_is_an_empty_reply() {
    let r = finish_chat(
        UpstreamKind::OpenAiCompatible,
        HttpOutcome::Status { code: 200, body: "{\"choices\":[]}".to_string() },
    )
    .unwrap();
    assert_eq!(r.content, "");
    assert!(r.actions.is_empty());
}

#[test]
fn anthropic_completion_is_read_from_content_text() {
    let body = "{\"content\":[{\"type\":\"text\",\"text\":\"ответ\"}]}";
    let r = finish_chat(
        UpstreamKind::Anthropic,
        HttpOutcome::Status { code: 200, body: body.to_string() },
    )
    .unwrap();
    assert_eq!(r.content, "ответ");
}

#[test]
fn gemini_completion_is_read_from_candidates() {
    let body =
        "{\"candidates\":[{\"content\":{\"parts\":[{\"text\":\"ответ gemini\"}]}}]}";
    let r = finish_chat(
        UpstreamKind::Gemini,
        HttpOutcome::Status { code: 200, body: body.to_string() },
    )
    .unwrap();
    assert_eq!(r.content, "ответ gemini");
}

#[test]
fn status_299_counts_as_success_and_300_does_not() {
    let ok = finish_chat(
        UpstreamKind::OpenAiCompatible,
        HttpOutcome::Status { code: 299, body: "{}".to_string() },
    );
    assert!(ok.is_ok());
    let err = finish_chat(
        UpstreamKind::OpenAiCompatible,
        HttpOutcome::Status { code: 300, body: "{}".to_string() },
    );
    assert!(err.is_err());
}
