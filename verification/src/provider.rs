//! The provider adapters: each translates a normalized conversation plus
//! system instruction into one provider's wire format, and reads the
//! completion text back out of that provider's response shape.
//!
//! The adapters build the request; the HTTP call itself is the caller's
//! (one bounded POST, no retries). A non-success status is a fatal
//! [`AiError::Upstream`]; a missing or null completion text is an empty
//! reply, not a failure.

use vstd::prelude::*;
use crate::error::{AiError, UpstreamKind};
use crate::json::{
    JsonVal, JsonValue, json_parse, json_view_arr, json_view_obj, lemma_json_view_arr,
    lemma_json_view_obj, lookup_fields, obj_get, arr_get, parse_json, str_of,
};
use crate::settings::ProviderConfig;
use crate::text::{str_eq, strip_trailing_slashes, strip_trailing_slashes_spec};

verus! {

/// Who said a message: the caller or the model.
#[derive(Debug, Clone, Copy, PartialEq, Eq, Structural)]
pub enum Role {
    User,
    Assistant,
}

/// One turn of the normalized conversation handed to an adapter.
#[derive(Debug, Clone, PartialEq)]
pub struct ConversationMessage {
    pub role: Role,
    pub content: String,
}

/// Mathematical model of a [`ConversationMessage`].
pub struct MessageVal {
    pub role: Role,
    pub content: Seq<char>,
}

impl View for ConversationMessage {
    type V = MessageVal;

    open spec fn view(&self) -> MessageVal {
        MessageVal { role: self.role, content: self.content@ }
    }
}

impl DeepView for ConversationMessage {
    type V = MessageVal;

    open spec fn deep_view(&self) -> MessageVal {
        self.view()
    }
}

/// The wire name of a role for the OpenAI-compatible and Anthropic formats.
pub open spec fn role_text(r: Role) -> Seq<char> {
    match r {
        Role::User => "user"@,
        Role::Assistant => "assistant"@,
    }
}

fn role_str(r: Role) -> (s: &'static str)
    ensures
        s@ == role_text(r),
{
    match r {
        Role::User => "user",
        Role::Assistant => "assistant",
    }
}

/// Routing: `anthropic` and `gemini` go to their dedicated adapters; every
/// other provider id is served by the OpenAI-compatible adapter.
pub open spec fn provider_kind(p: Seq<char>) -> UpstreamKind {
    if p == "anthropic"@ {
        UpstreamKind::Anthropic
    } else if p == "gemini"@ {
        UpstreamKind::Gemini
    } else {
        UpstreamKind::OpenAiCompatible
    }
}

/// Select the adapter a provider id routes to.
pub fn select_provider(p: &str) -> (r: UpstreamKind)
    ensures
        r == provider_kind(p@),
{
    if str_eq(p, "anthropic") {
        UpstreamKind::Anthropic
    } else if str_eq(p, "gemini") {
        UpstreamKind::Gemini
    } else {
        UpstreamKind::OpenAiCompatible
    }
}

/// One provider request, ready for a single HTTP POST: the endpoint, the
/// authentication headers, and the JSON body.
#[derive(Debug)]
pub struct HttpRequest {
    pub url: String,
    pub headers: Vec<(String, String)>,
    pub body: JsonValue,
}

/// A `{role, content}` message object.
pub open spec fn chat_msg_json(role: Seq<char>, content: Seq<char>) -> JsonVal {
    JsonVal::Obj(seq![("role"@, JsonVal::Str(role)), ("content"@, JsonVal::Str(content))])
}

fn chat_msg_object(role: &str, content: &str) -> (r: JsonValue)
    ensures
        r@ == chat_msg_json(role@, content@),
{
    let mut fields: Vec<(String, JsonValue)> = Vec::new();
    fields.push(("role".to_owned(), JsonValue::Str(role.to_owned())));
    fields.push(("content".to_owned(), JsonValue::Str(content.to_owned())));
    let ghost fs = fields@;
    let r = JsonValue::Obj(fields);
    proof {
        lemma_json_view_obj(fs);
        assert(json_view_obj(fs) =~= seq![
            ("role"@, JsonVal::Str(role@)),
            ("content"@, JsonVal::Str(content@)),
        ]);
    }
    r
}

/// The OpenAI-compatible endpoint: a configured base URL (trailing slashes
/// stripped) for the self-hosted provider, else the public OpenAI one.
pub open spec fn openai_chat_endpoint(provider: Seq<char>, base_url: Seq<char>) -> Seq<char> {
    if provider == "local"@ && base_url.len() > 0 {
        strip_trailing_slashes_spec(base_url) + "/v1/chat/completions"@
    } else {
        "https://api.openai.com/v1/chat/completions"@
    }
}

/// The bearer-token header list: empty exactly when no key is configured.
pub open spec fn bearer_headers(api_key: Seq<char>) -> Seq<(Seq<char>, Seq<char>)> {
    if api_key.len() == 0 {
        Seq::empty()
    } else {
        seq![("Authorization"@, "Bearer "@ + api_key)]
    }
}

fn build_bearer_headers(api_key: &str) -> (r: Vec<(String, String)>)
    ensures
        r.deep_view() == bearer_headers(api_key@),
{
    let mut headers: Vec<(String, String)> = Vec::new();
    if !api_key.is_empty() {
        let mut bearer = "Bearer ".to_owned();
        bearer.append(api_key);
        headers.push(("Authorization".to_owned(), bearer));
    }
    proof {
        assert(headers.deep_view() =~= bearer_headers(api_key@));
    }
    headers
}

/// The message list of the OpenAI-compatible body: the system instruction
/// first, then the conversation in order.
pub open spec fn openai_messages_json(system: Seq<char>, ms: Seq<MessageVal>) -> Seq<JsonVal> {
    seq![chat_msg_json("system"@, system)] + ms.map_values(
        |m: MessageVal| chat_msg_json(role_text(m.role), m.content),
    )
}

/// The OpenAI-compatible request body.
pub open spec fn openai_chat_body(model: Seq<char>, system: Seq<char>, ms: Seq<MessageVal>) -> JsonVal {
    JsonVal::Obj(
        seq![
            ("model"@, JsonVal::Str(model)),
            ("messages"@, JsonVal::Arr(openai_messages_json(system, ms))),
            ("temperature"@, JsonVal::Num("0.3"@)),
            ("max_tokens"@, JsonVal::Num("4096"@)),
        ],
    )
}

/// Build the OpenAI-compatible chat request.
pub fn openai_request(
    config: &ProviderConfig,
    system_prompt: &str,
    messages: &Vec<ConversationMessage>,
) -> (r: HttpRequest)
    ensures
        r.url@ == openai_chat_endpoint(config.provider@, config.base_url@),
        r.headers.deep_view() == bearer_headers(config.api_key@),
        r.body@ == openai_chat_body(config.model@, system_prompt@, messages.deep_view()),
{
    let url = if str_eq(config.provider.as_str(), "local") && !config.base_url.as_str().is_empty() {
        let mut u = strip_trailing_slashes(config.base_url.as_str());
        u.append("/v1/chat/completions");
        u
    } else {
        "https://api.openai.com/v1/chat/completions".to_owned()
    };
    let headers = build_bearer_headers(config.api_key.as_str());

    let ghost mv = messages.deep_view();
    let mut items: Vec<JsonValue> = Vec::new();
    items.push(chat_msg_object("system", system_prompt));
    proof {
        lemma_json_view_arr(items@);
        assert(json_view_arr(items@) =~= openai_messages_json(system_prompt@, mv.take(0)));
    }
    let n = messages.len();
    let mut i: usize = 0;
    while i < n
        invariant
            i <= n,
            n == messages@.len(),
            mv == messages.deep_view(),
            mv.len() == n,
            json_view_arr(items@) == openai_messages_json(system_prompt@, mv.take(i as int)),
        decreases n - i,
    {
        let ghost items_before = items@;
        let m = &messages[i];
        let obj = chat_msg_object(role_str(m.role), m.content.as_str());
        let ghost gobj = obj;
        items.push(obj);
        proof {
            crate::json::lemma_json_view_arr_push(items_before, gobj);
            assert(json_view_arr(items@) =~= openai_messages_json(
                system_prompt@,
                mv.take(i + 1),
            ));
        }
        i = i + 1;
    }
    proof {
        assert(mv.take(n as int) =~= mv);
    }

    let mut fields: Vec<(String, JsonValue)> = Vec::new();
    fields.push(("model".to_owned(), JsonValue::Str(config.model.clone())));
    fields.push(("messages".to_owned(), JsonValue::Arr(items)));
    fields.push(("temperature".to_owned(), JsonValue::Num("0.3".to_owned())));
    fields.push(("max_tokens".to_owned(), JsonValue::Num("4096".to_owned())));
    let ghost fs = fields@;
    let body = JsonValue::Obj(fields);
    proof {
        lemma_json_view_obj(fs);
        assert(json_view_obj(fs) =~= seq![
            ("model"@, JsonVal::Str(config.model@)),
            ("messages"@, JsonVal::Arr(openai_messages_json(system_prompt@, mv))),
            ("temperature"@, JsonVal::Num("0.3"@)),
            ("max_tokens"@, JsonVal::Num("4096"@)),
        ]);
    }
    HttpRequest { url, headers, body }
}

/// The Anthropic message list: the conversation alone; the system
/// instruction travels in the top-level `system` field instead.
pub open spec fn anthropic_messages_json(ms: Seq<MessageVal>) -> Seq<JsonVal> {
    ms.map_values(|m: MessageVal| chat_msg_json(role_text(m.role), m.content))
}

/// The Anthropic request body.
pub open spec fn anthropic_chat_body(model: Seq<char>, system: Seq<char>, ms: Seq<MessageVal>) -> JsonVal {
    JsonVal::Obj(
        seq![
            ("model"@, JsonVal::Str(model)),
            ("system"@, JsonVal::Str(system)),
            ("messages"@, JsonVal::Arr(anthropic_messages_json(ms))),
            ("max_tokens"@, JsonVal::Num("4096"@)),
        ],
    )
}

/// The Anthropic authentication headers.
pub open spec fn anthropic_headers(api_key: Seq<char>) -> Seq<(Seq<char>, Seq<char>)> {
    seq![("x-api-key"@, api_key), ("anthropic-version"@, "2023-06-01"@)]
}

/// Build the Anthropic chat request.
pub fn anthropic_request(
    config: &ProviderConfig,
    system_prompt: &str,
    messages: &Vec<ConversationMessage>,
) -> (r: HttpRequest)
    ensures
        r.url@ == "https://api.anthropic.com/v1/messages"@,
        r.headers.deep_view() == anthropic_headers(config.api_key@),
        r.body@ == anthropic_chat_body(config.model@, system_prompt@, messages.deep_view()),
{
    let url = "https://api.anthropic.com/v1/messages".to_owned();
    let mut headers: Vec<(String, String)> = Vec::new();
    headers.push(("x-api-key".to_owned(), config.api_key.clone()));
    headers.push(("anthropic-version".to_owned(), "2023-06-01".to_owned()));
    proof {
        assert(headers.deep_view() =~= anthropic_headers(config.api_key@));
    }

    let ghost mv = messages.deep_view();
    let mut items: Vec<JsonValue> = Vec::new();
    proof {
        assert(json_view_arr(items@) =~= anthropic_messages_json(mv.take(0)));
    }
    let n = messages.len();
    let mut i: usize = 0;
    while i < n
        invariant
            i <= n,
            n == messages@.len(),
            mv == messages.deep_view(),
            mv.len() == n,
            json_view_arr(items@) == anthropic_messages_json(mv.take(i as int)),
        decreases n - i,
    {
        let m = &messages[i];
        let ghost items_before = items@;
        let obj = chat_msg_object(role_str(m.role), m.content.as_str());
        let ghost gobj = obj;
        items.push(obj);
        proof {
            crate::json::lemma_json_view_arr_push(items_before, gobj);
            assert(json_view_arr(items@) =~= anthropic_messages_json(mv.take(i + 1)));
        }
        i = i + 1;
    }
    proof {
        assert(mv.take(n as int) =~= mv);
    }

    let mut fields: Vec<(String, JsonValue)> = Vec::new();
    fields.push(("model".to_owned(), JsonValue::Str(config.model.clone())));
    fields.push(("system".to_owned(), JsonValue::Str(system_prompt.to_owned())));
    fields.push(("messages".to_owned(), JsonValue::Arr(items)));
    fields.push(("max_tokens".to_owned(), JsonValue::Num("4096".to_owned())));
    let ghost fs = fields@;
    let body = JsonValue::Obj(fields);
    proof {
        lemma_json_view_obj(fs);
        assert(json_view_obj(fs) =~= seq![
            ("model"@, JsonVal::Str(config.model@)),
            ("system"@, JsonVal::Str(system_prompt@)),
            ("messages"@, JsonVal::Arr(anthropic_messages_json(mv))),
            ("max_tokens"@, JsonVal::Num("4096"@)),
        ]);
    }
    HttpRequest { url, headers, body }
}

/// The wire name of a role in the Gemini format: the model's own turns are
/// `model`, everything else is `user`.
pub open spec fn gemini_role_text(r: Role) -> Seq<char> {
    match r {
        Role::Assistant => "model"@,
        Role::User => "user"@,
    }
}

fn gemini_role_str(r: Role) -> (s: &'static str)
    ensures
        s@ == gemini_role_text(r),
{
    match r {
        Role::Assistant => "model",
        Role::User => "user",
    }
}

/// A `{text}` part object.
pub open spec fn text_part_json(text: Seq<char>) -> JsonVal {
    JsonVal::Obj(seq![("text"@, JsonVal::Str(text))])
}

fn text_part_object(text: &str) -> (r: JsonValue)
    ensures
        r@ == text_part_json(text@),
{
    let mut fields: Vec<(String, JsonValue)> = Vec::new();
    fields.push(("text".to_owned(), JsonValue::Str(text.to_owned())));
    let ghost fs = fields@;
    let r = JsonValue::Obj(fields);
    proof {
        lemma_json_view_obj(fs);
        assert(json_view_obj(fs) =~= seq![("text"@, JsonVal::Str(text@))]);
    }
    r
}

/// A single-part parts list.
pub open spec fn one_part_json(text: Seq<char>) -> JsonVal {
    JsonVal::Arr(seq![text_part_json(text)])
}

fn one_part_array(text: &str) -> (r: JsonValue)
    ensures
        r@ == one_part_json(text@),
{
    let mut items: Vec<JsonValue> = Vec::new();
    items.push(text_part_object(text));
    let ghost iv = items@;
    let r = JsonValue::Arr(items);
    proof {
        lemma_json_view_arr(iv);
        assert(json_view_arr(iv) =~= seq![text_part_json(text@)]);
    }
    r
}

/// The Gemini `contents` list: one entry per conversation turn.
pub open spec fn gemini_contents_json(ms: Seq<MessageVal>) -> Seq<JsonVal> {
    ms.map_values(|m: MessageVal| gemini_msg_json(m))
}

/// A Gemini content entry: the remapped role and a single text part.
pub open spec fn gemini_msg_json(m: MessageVal) -> JsonVal {
    JsonVal::Obj(
        seq![
            ("role"@, JsonVal::Str(gemini_role_text(m.role))),
            ("parts"@, one_part_json(m.content)),
        ],
    )
}

fn gemini_msg_object(role: Role, content: &str) -> (r: JsonValue)
    ensures
        (r@ == gemini_msg_json(MessageVal { role, content: content@ })),
{
    let mut fields: Vec<(String, JsonValue)> = Vec::new();
    fields.push(("role".to_owned(), JsonValue::Str(gemini_role_str(role).to_owned())));
    fields.push(("parts".to_owned(), one_part_array(content)));
    let ghost fs = fields@;
    let r = JsonValue::Obj(fields);
    proof {
        lemma_json_view_obj(fs);
        assert(json_view_obj(fs) =~= seq![
            ("role"@, JsonVal::Str(gemini_role_text(role))),
            ("parts"@, one_part_json(content@)),
        ]);
    }
    r
}

/// The Gemini request body: the system instruction as a parts object, the
/// conversation as `contents`, and the fixed generation settings.
pub open spec fn gemini_chat_body(system: Seq<char>, ms: Seq<MessageVal>) -> JsonVal {
    JsonVal::Obj(
        seq![
            (
                "system_instruction"@,
                JsonVal::Obj(seq![("parts"@, one_part_json(system))]),
            ),
            ("contents"@, JsonVal::Arr(gemini_contents_json(ms))),
            (
                "generationConfig"@,
                JsonVal::Obj(
                    seq![
                        ("maxOutputTokens"@, JsonVal::Num("4096"@)),
                        ("temperature"@, JsonVal::Num("0.3"@)),
                    ],
                ),
            ),
        ],
    )
}

/// The Gemini endpoint, which carries the model and the API key.
pub open spec fn gemini_endpoint(model: Seq<char>, api_key: Seq<char>) -> Seq<char> {
    "https://generativelanguage.googleapis.com/v1beta/models/"@ + model + ":generateContent?key="@
        + api_key
}

/// Build the Gemini chat request; authentication travels in the URL, so the
/// header list is empty.
pub fn gemini_request(
    config: &ProviderConfig,
    system_prompt: &str,
    messages: &Vec<ConversationMessage>,
) -> (r: HttpRequest)
    ensures
        r.url@ == gemini_endpoint(config.model@, config.api_key@),
        r.headers.deep_view() == Seq::<(Seq<char>, Seq<char>)>::empty(),
        r.body@ == gemini_chat_body(system_prompt@, messages.deep_view()),
{
    let mut url = "https://generativelanguage.googleapis.com/v1beta/models/".to_owned();
    url.append(config.model.as_str());
    url.append(":generateContent?key=");
    url.append(config.api_key.as_str());
    let headers: Vec<(String, String)> = Vec::new();
    proof {
        assert(headers.deep_view() =~= Seq::<(Seq<char>, Seq<char>)>::empty());
    }

    let ghost mv = messages.deep_view();
    let mut items: Vec<JsonValue> = Vec::new();
    proof {
        assert(json_view_arr(items@) =~= gemini_contents_json(mv.take(0)));
    }
    let n = messages.len();
    let mut i: usize = 0;
    while i < n
        invariant
            i <= n,
            n == messages@.len(),
            mv == messages.deep_view(),
            mv.len() == n,
            json_view_arr(items@) == gemini_contents_json(mv.take(i as int)),
        decreases n - i,
    {
        let m = &messages[i];
        let ghost items_before = items@;
        let obj = gemini_msg_object(m.role, m.content.as_str());
        let ghost gobj = obj;
        items.push(obj);
        proof {
            crate::json::lemma_json_view_arr_push(items_before, gobj);
            assert(json_view_arr(items@) =~= gemini_contents_json(mv.take(i + 1)));
        }
        i = i + 1;
    }
    proof {
        assert(mv.take(n as int) =~= mv);
    }

    let mut sys_fields: Vec<(String, JsonValue)> = Vec::new();
    sys_fields.push(("parts".to_owned(), one_part_array(system_prompt)));
    let ghost sfs = sys_fields@;
    let system_instruction = JsonValue::Obj(sys_fields);
    proof {
        lemma_json_view_obj(sfs);
        assert(json_view_obj(sfs) =~= seq![("parts"@, one_part_json(system_prompt@))]);
    }

    let mut gen_fields: Vec<(String, JsonValue)> = Vec::new();
    gen_fields.push(("maxOutputTokens".to_owned(), JsonValue::Num("4096".to_owned())));
    gen_fields.push(("temperature".to_owned(), JsonValue::Num("0.3".to_owned())));
    let ghost gfs = gen_fields@;
    let generation_config = JsonValue::Obj(gen_fields);
    proof {
        lemma_json_view_obj(gfs);
        assert(json_view_obj(gfs) =~= seq![
            ("maxOutputTokens"@, JsonVal::Num("4096"@)),
            ("temperature"@, JsonVal::Num("0.3"@)),
        ]);
    }

    let mut fields: Vec<(String, JsonValue)> = Vec::new();
    fields.push(("system_instruction".to_owned(), system_instruction));
    fields.push(("contents".to_owned(), JsonValue::Arr(items)));
    fields.push(("generationConfig".to_owned(), generation_config));
    let ghost fs = fields@;
    let body = JsonValue::Obj(fields);
    proof {
        lemma_json_view_obj(fs);
        assert(json_view_obj(fs) =~= seq![
            (
                "system_instruction"@,
                JsonVal::Obj(seq![("parts"@, one_part_json(system_prompt@))]),
            ),
            ("contents"@, JsonVal::Arr(gemini_contents_json(mv))),
            (
                "generationConfig"@,
                JsonVal::Obj(
                    seq![
                        ("maxOutputTokens"@, JsonVal::Num("4096"@)),
                        ("temperature"@, JsonVal::Num("0.3"@)),
                    ],
                ),
            ),
        ]);
    }
    HttpRequest { url, headers, body }
}

/// The view of an optional borrowed value.
pub open spec fn opt_view(o: Option<&JsonValue>) -> Option<JsonVal> {
    match o {
        Some(v) => Some(v@),
        None => None,
    }
}

/// Field lookup lifted over a missing value.
pub open spec fn opt_field(o: Option<JsonVal>, key: Seq<char>) -> Option<JsonVal> {
    match o {
        Some(v) => obj_get(v, key),
        None => None,
    }
}

/// Element lookup lifted over a missing value.
pub open spec fn opt_index(o: Option<JsonVal>, i: int) -> Option<JsonVal> {
    match o {
        Some(v) => arr_get(v, i),
        None => None,
    }
}

/// The text of an optional string value; anything else is the empty reply.
pub open spec fn text_or_empty(o: Option<JsonVal>) -> Seq<char> {
    match str_of(o) {
        Some(s) => s,
        None => Seq::empty(),
    }
}

fn field<'a>(o: Option<&'a JsonValue>, key: &str) -> (r: Option<&'a JsonValue>)
    ensures
        opt_view(r) == opt_field(opt_view(o), key@),
{
    match o {
        Some(v) => v.get(key),
        None => None,
    }
}

fn element<'a>(o: Option<&'a JsonValue>, i: usize) -> (r: Option<&'a JsonValue>)
    ensures
        opt_view(r) == opt_index(opt_view(o), i as int),
{
    match o {
        Some(v) => v.at(i),
        None => None,
    }
}

fn string_or_empty(o: Option<&JsonValue>) -> (r: String)
    ensures
        r@ == text_or_empty(opt_view(o)),
{
    match o {
        Some(v) => match v.as_str() {
            Some(s) => s.to_owned(),
            None => String::new(),
        },
        None => String::new(),
    }
}

/// Where each provider keeps the completion text in its response document; a
/// missing or non-string field is the empty reply, never a failure.
pub open spec fn completion_text(kind: UpstreamKind, v: JsonVal) -> Seq<char> {
    match kind {
        UpstreamKind::OpenAiCompatible => text_or_empty(
            opt_field(
                opt_field(opt_index(obj_get(v, "choices"@), 0), "message"@),
                "content"@,
            ),
        ),
        UpstreamKind::Anthropic => text_or_empty(
            opt_field(opt_index(obj_get(v, "content"@), 0), "text"@),
        ),
        UpstreamKind::Gemini => text_or_empty(
            opt_field(
                opt_index(
                    opt_field(
                        opt_field(opt_index(obj_get(v, "candidates"@), 0), "content"@),
                        "parts"@,
                    ),
                    0,
                ),
                "text"@,
            ),
        ),
        UpstreamKind::Whisper => text_or_empty(obj_get(v, "text"@)),
    }
}

/// Read the completion text out of a provider's response document.
pub fn completion_text_of(kind: UpstreamKind, v: &JsonValue) -> (r: String)
    ensures
        r@ == completion_text(kind, v@),
{
    match kind {
        UpstreamKind::OpenAiCompatible => {
            let c = field(field(element(v.get("choices"), 0), "message"), "content");
            string_or_empty(c)
        },
        UpstreamKind::Anthropic => {
            let c = field(element(v.get("content"), 0), "text");
            string_or_empty(c)
        },
        UpstreamKind::Gemini => {
            let c = field(
                element(field(field(element(v.get("candidates"), 0), "content"), "parts"), 0),
                "text",
            );
            string_or_empty(c)
        },
        UpstreamKind::Whisper => string_or_empty(v.get("text")),
    }
}

proof fn lemma_wire_names_distinct()
    ensures
        "model"@ != "system"@,
        "model"@ != "messages"@,
        "system"@ != "messages"@,
        "user"@ != "system"@,
        "assistant"@ != "system"@,
        "system_instruction"@ != "contents"@,
        "model"@ != "user"@,
{
    reveal_strlit("model");
    reveal_strlit("system");
    reveal_strlit("messages");
    reveal_strlit("user");
    reveal_strlit("assistant");
    reveal_strlit("system_instruction");
    reveal_strlit("contents");
    assert("model"@.len() == 5);
    assert("system"@.len() == 6);
    assert("messages"@.len() == 8);
    assert("user"@.len() == 4);
    assert("assistant"@.len() == 9);
    assert("system_instruction"@.len() == 18);
    assert("contents"@.len() == 8);
}

/// The Anthropic request keeps the system instruction in a top-level
/// `system` field, and no message of its message list carries a `system`
/// role.
pub proof fn lemma_anthropic_system_separated(
    model: Seq<char>,
    system: Seq<char>,
    ms: Seq<MessageVal>,
)
    ensures
        obj_get(anthropic_chat_body(model, system, ms), "system"@) == Some(JsonVal::Str(system)),
        obj_get(anthropic_chat_body(model, system, ms), "messages"@) == Some(
            JsonVal::Arr(anthropic_messages_json(ms)),
        ),
        anthropic_messages_json(ms).len() == ms.len(),
        forall|i: int|
            0 <= i < ms.len() ==> str_of(
                obj_get(#[trigger] anthropic_messages_json(ms)[i], "role"@),
            ) != Some("system"@),
{
    lemma_wire_names_distinct();
    let body = anthropic_chat_body(model, system, ms);
    let fs = seq![
        ("model"@, JsonVal::Str(model)),
        ("system"@, JsonVal::Str(system)),
        ("messages"@, JsonVal::Arr(anthropic_messages_json(ms))),
        ("max_tokens"@, JsonVal::Num("4096"@)),
    ];
    let fs1 = fs.drop_first();
    let fs2 = fs1.drop_first();
    assert(fs[0] == ("model"@, JsonVal::Str(model)));
    assert(fs[1] == ("system"@, JsonVal::Str(system)));
    assert(fs[2] == ("messages"@, JsonVal::Arr(anthropic_messages_json(ms))));
    assert(fs1[0] == fs[1]);
    assert(fs1[1] == fs[2]);
    assert(fs2[0] == fs[2]);
    assert(fs[0].0 != "system"@);
    assert(lookup_fields(fs, "system"@) == lookup_fields(fs1, "system"@));
    assert(fs1[0].0 == "system"@);
    assert(lookup_fields(fs1, "system"@) == Some(JsonVal::Str(system)));
    assert(obj_get(body, "system"@) == Some(JsonVal::Str(system)));
    assert(fs[0].0 != "messages"@);
    assert(lookup_fields(fs, "messages"@) == lookup_fields(fs1, "messages"@));
    assert(fs1[0].0 != "messages"@);
    assert(lookup_fields(fs1, "messages"@) == lookup_fields(fs2, "messages"@));
    assert(fs2[0].0 == "messages"@);
    assert(lookup_fields(fs2, "messages"@) == Some(JsonVal::Arr(anthropic_messages_json(ms))));
    assert(obj_get(body, "messages"@) == Some(JsonVal::Arr(anthropic_messages_json(ms))));
    assert forall|i: int| 0 <= i < ms.len() implies str_of(
        obj_get(#[trigger] anthropic_messages_json(ms)[i], "role"@),
    ) != Some("system"@) by {
        let entry = anthropic_messages_json(ms)[i];
        assert(entry == chat_msg_json(role_text(ms[i].role), ms[i].content));
        assert(obj_get(entry, "role"@) == Some(JsonVal::Str(role_text(ms[i].role))));
        assert(role_text(ms[i].role) != "system"@);
    }
}

/// Every assistant turn of a Gemini request is remapped to the `model` role,
/// and every other turn to `user`.
pub proof fn lemma_gemini_role_remap(system: Seq<char>, ms: Seq<MessageVal>)
    ensures
        obj_get(gemini_chat_body(system, ms), "contents"@) == Some(
            JsonVal::Arr(gemini_contents_json(ms)),
        ),
        gemini_contents_json(ms).len() == ms.len(),
        forall|i: int|
            0 <= i < ms.len() ==> str_of(
                obj_get(#[trigger] gemini_contents_json(ms)[i], "role"@),
            ) == Some(gemini_role_text(ms[i].role)),
        forall|i: int|
            0 <= i < ms.len() ==> (gemini_role_text(ms[i].role) == "model"@ <==> ms[i].role
                is Assistant),
{
    lemma_wire_names_distinct();
    let body = gemini_chat_body(system, ms);
    let contents = gemini_contents_json(ms);
    let fs = seq![
        ("system_instruction"@, JsonVal::Obj(seq![("parts"@, one_part_json(system))])),
        ("contents"@, JsonVal::Arr(contents)),
        (
            "generationConfig"@,
            JsonVal::Obj(
                seq![
                    ("maxOutputTokens"@, JsonVal::Num("4096"@)),
                    ("temperature"@, JsonVal::Num("0.3"@)),
                ],
            ),
        ),
    ];
    let fs1 = fs.drop_first();
    assert(fs[0] == (
        "system_instruction"@,
        JsonVal::Obj(seq![("parts"@, one_part_json(system))]),
    ));
    assert(fs[1] == ("contents"@, JsonVal::Arr(contents)));
    assert(fs1[0] == fs[1]);
    assert(fs[0].0 != "contents"@);
    assert(lookup_fields(fs, "contents"@) == lookup_fields(fs1, "contents"@));
    assert(fs1[0].0 == "contents"@);
    assert(lookup_fields(fs1, "contents"@) == Some(JsonVal::Arr(contents)));
    assert(obj_get(body, "contents"@) == Some(JsonVal::Arr(contents)));
    assert forall|i: int| 0 <= i < ms.len() implies str_of(
        obj_get(#[trigger] contents[i], "role"@),
    ) == Some(gemini_role_text(ms[i].role)) by {
        let entry = contents[i];
        assert(entry == gemini_msg_json(ms[i]));
        assert(obj_get(entry, "role"@) == Some(JsonVal::Str(gemini_role_text(ms[i].role))));
    }
    assert forall|i: int|
        0 <= i < ms.len() implies (gemini_role_text(ms[i].role) == "model"@ <==> ms[i].role
        is Assistant) by {
        assert("model"@ != "user"@);
    }
}

/// What one HTTP POST came to: a status with its body, or no answer within
/// the time bound.
#[derive(Debug, PartialEq)]
pub enum HttpOutcome {
    Status { code: u16, body: String },
    TimedOut,
}

/// The success range of HTTP statuses.
pub open spec fn is_success_status(code: u16) -> bool {
    200 <= code < 300
}

/// Digest the outcome of a provider call: a timeout and a non-success status
/// are fatal, with the status and body carried verbatim; on success the
/// completion text is read from the provider's response shape.
pub fn completion_from_outcome(kind: UpstreamKind, outcome: HttpOutcome) -> (r: Result<
    String,
    AiError,
>)
    ensures
        match outcome {
            HttpOutcome::TimedOut => r matches Err(e) && e == AiError::Timeout,
            HttpOutcome::Status { code, body } => {
                if !is_success_status(code) {
                    r matches Err(e) && e == (AiError::Upstream { kind, status: code, body })
                } else {
                    match json_parse(body@) {
                        Some(v) => r matches Ok(t) && t@ == completion_text(kind, v),
                        None => r matches Err(e) && e == (AiError::UnreadableReply { kind }),
                    }
                }
            },
        },
{
    match outcome {
        HttpOutcome::TimedOut => Err(AiError::Timeout),
        HttpOutcome::Status { code, body } => {
            if !(200 <= code && code < 300) {
                return Err(AiError::Upstream { kind, status: code, body });
            }
            match parse_json(body.as_str()) {
                Some(v) => Ok(completion_text_of(kind, &v)),
                None => Err(AiError::UnreadableReply { kind }),
            }
        },
    }
}

} // verus!
