use blueprint_core::chat::{AiMessage, ChatInput, prepare_chat_on};
use blueprint_core::error::UpstreamKind;
use blueprint_core::json::JsonValue;
use blueprint_core::prompt::Date;
use blueprint_core::provider::HttpRequest;
use blueprint_core::settings::StoredSettings;

fn stored(provider: &str, base_url: &str, key: &str) -> StoredSettings {
    StoredSettings {
        ai_provider: provider.to_string(),
        ai_model: "test-model".to_string(),
        ai_base_url: base_url.to_string(),
        ai_api_key: key.to_string(),
    }
}

fn input(messages: Vec<(&str, &str)>) -> ChatInput {
    ChatInput {
        messages: messages
            .into_iter()
            .map(|(role, content)| AiMessage { role: role.to_string(), content: content.to_string() })
            .collect(),
        provider: None,
        model: None,
        base_url: None,
    }
}

fn prepare(provider: &str, base_url: &str, key: &str, messages: Vec<(&str, &str)>) -> (UpstreamKind, HttpRequest) {
    let today = Date { year: 2024, month: 5, day: 17 };
    let p = prepare_chat_on(input(messages), &stored(provider, base_url, key), &today).unwrap();
    (p.kind, p.request)
}

fn array_items(v: &JsonValue) -> Vec<&JsonValue> {
    let mut items = Vec::new();
    let mut i = 0;
    while let Some(e) = v.at(i) {
        items.push(e);
        i += 1;
    }
    items
}

#[test]
fn anthropic_body_has_top_level_system_and_no_system_role() {
    let (kind, req) = prepare(
        "anthropic",
        "",
        "sk-ant",
        vec![("user", "привет"), ("assistant", "здравствуйте"), ("user", "создай заметку")],
    );
    assert_eq!(kind, UpstreamKind::Anthropic);
    assert_eq!(req.url, "https://api.anthropic.com/v1/messages");
    let system = req.body.get("system").unwrap().as_str().unwrap();
    assert!(system.starts_with("Ты Blueprint"));
    assert!(system.ends_with("Текущая дата: 2024-05-17"));
    let messages = req.body.get("messages").unwrap();
    let items = array_items(messages);
    assert_eq!(items.len(), 3);
    for m in &items {
        let role = m.get("role").unwrap().as_str().unwrap();
        assert_ne!(role, "system");
    }
    assert_eq!(items[0].get("role").unwrap().as_str().unwrap(), "user");
    assert_eq!(items[1].get("role").unwrap().as_str().unwrap(), "assistant");
    assert_eq!(
        req.headers,
        vec![
            ("x-api-key".to_string(), "sk-ant".to_string()),
            ("anthropic-version".to_string(), "2023-06-01".to_string()),
        ]
    );
}

#[test]
fn gemini_remaps_assistant_to_model() {
    let (kind, req) = prepare(
        "gemini",
        "",
        "g-key",
        vec![("user", "раз"), ("assistant", "два"), ("user", "три")],
    );
    assert_eq!(kind, UpstreamKind::Gemini);
    assert_eq!(
        req.url,
        "https://generativelanguage.googleapis.com/v1beta/models/test-model:generateContent?key=g-key"
    );
    assert!(req.headers.is_empty());
    let contents = req.body.get("contents").unwrap();
    let items = array_items(contents);
    assert_eq!(items.len(), 3);
    assert_eq!(items[0].get("role").unwrap().as_str().unwrap(), "user");
    assert_eq!(items[1].get("role").unwrap().as_str().unwrap(), "model");
    assert_eq!(items[2].get("role").unwrap().as_str().unwrap(), "user");
    let part = items[1].get("parts").unwrap().at(0).unwrap();
    assert_eq!(part.get("text").unwrap().as_str().unwrap(), "два");
    let sys = req.body.get("system_instruction").unwrap();
    let sys_text = sys.get("parts").unwrap().at(0).unwrap().get("text").unwrap();
    assert!(sys_text.as_str().unwrap().starts_with("Ты Blueprint"));
}

#[test]
fn local_provider_uses_base_url_with_trailing_slash_stripped() {
    let (kind, req) = prepare("local", "http://x/y/", "", vec![("user", "hi")]);
    assert_eq!(kind, UpstreamKind::OpenAiCompatible);
    assert_eq!(req.url, "http://x/y/v1/chat/completions");
    // no key: no bearer header
    assert!(req.headers.is_empty());
}

#[test]
fn local_provider_without_trailing_slash() {
    let (_, req) = prepare("local", "http://x/y", "", vec![("user", "hi")]);
    assert_eq!(req.url, "http://x/y/v1/chat/completions");
}

#[test]
fn local_provider_without_base_url_goes_to_openai() {
    let (_, req) = prepare("local", "", "", vec![("user", "hi")]);
    assert_eq!(req.url, "https://api.openai.com/v1/chat/completions");
}

#[test]
fn openai_request_shape() {
    let (kind, req) = prepare("openai", "", "sk-test", vec![("user", "привет")]);
    assert_eq!(kind, UpstreamKind::OpenAiCompatible);
    assert_eq!(req.url, "https://api.openai.com/v1/chat/completions");
    assert_eq!(
        req.headers,
        vec![("Authorization".to_string(), "Bearer sk-test".to_string())]
    );
    assert_eq!(
        req.body.get("model").unwrap(),
        &JsonValue::Str("test-model".to_string())
    );
    assert_eq!(
        req.body.get("temperature").unwrap(),
        &JsonValue::Num("0.3".to_string())
    );
    assert_eq!(
        req.body.get("max_tokens").unwrap(),
        &JsonValue::Num("4096".to_string())
    );
    let items = array_items(req.body.get("messages").unwrap());
    assert_eq!(items.len(), 2);
    assert_eq!(items[0].get("role").unwrap().as_str().unwrap(), "system");
    assert!(items[0]
        .get("content")
        .unwrap()
        .as_str()
        .unwrap()
        .ends_with("Текущая дата: 2024-05-17"));
    assert_eq!(items[1].get("role").unwrap().as_str().unwrap(), "user");
    assert_eq!(items[1].get("content").unwrap().as_str().unwrap(), "привет");
}

#[test]
fn unknown_provider_routes_to_openai_compatible() {
    let (kind, req) = prepare("whatever", "", "k", vec![("user", "hi")]);
    assert_eq!(kind, UpstreamKind::OpenAiCompatible);
    assert_eq!(req.url, "https://api.openai.com/v1/chat/completions");
}

#[test]
fn foreign_role_is_normalized_to_user() {
    let (_, req) = prepare("anthropic", "", "k", vec![("system", "sneaky"), ("tool", "x")]);
    let items = array_items(req.body.get("messages").unwrap());
    assert_eq!(items.len(), 2);
    assert_eq!(items[0].get("role").unwrap().as_str().unwrap(), "user");
    assert_eq!(items[1].get("role").unwrap().as_str().unwrap(), "user");
}
