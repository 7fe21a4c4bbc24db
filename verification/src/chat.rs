//! The chat orchestrator: resolves the call's configuration, builds the
//! system instruction, prepares the selected provider's request, and turns
//! the provider's answer into the caller's result.
//!
//! The single HTTP POST between [`prepare_chat`] and [`finish_chat`] belongs
//! to the caller; everything around it is pure. A failed resolution aborts
//! the call before any request exists.

use vstd::prelude::*;
use crate::error::{AiError, UpstreamKind};
use crate::extract::{ChatResponse, extract, extract_spec};
use crate::json::json_parse;
use crate::prompt::{Date, build_system_prompt, system_prompt_text, today_utc};
use crate::provider::{
    ConversationMessage, HttpOutcome, HttpRequest, MessageVal, Role, anthropic_chat_body,
    anthropic_headers, anthropic_request, bearer_headers, completion_from_outcome,
    completion_text, gemini_chat_body, gemini_endpoint, gemini_request, is_success_status,
    openai_chat_body, openai_chat_endpoint, openai_request, provider_kind, select_provider,
};
use crate::settings::{StoredSettings, missing_credential, override_or, resolve};
use crate::text::str_eq;

verus! {

/// One caller-supplied conversation turn, the role still free text.
#[derive(Debug, Clone, PartialEq)]
pub struct AiMessage {
    pub role: String,
    pub content: String,
}

/// One chat call as the caller hands it in: the conversation so far and the
/// optional per-call overrides. The API key is deliberately absent.
#[derive(Debug, PartialEq)]
pub struct ChatInput {
    pub messages: Vec<AiMessage>,
    pub provider: Option<String>,
    pub model: Option<String>,
    pub base_url: Option<String>,
}

/// How a free-text role is read: the model's own turns are `assistant`,
/// everything else speaks for the caller.
pub open spec fn parsed_role(role: Seq<char>) -> Role {
    if role == "assistant"@ {
        Role::Assistant
    } else {
        Role::User
    }
}

/// The normalized view of a caller-supplied message list.
pub open spec fn normalized(msgs: Seq<AiMessage>) -> Seq<MessageVal> {
    msgs.map_values(
        |m: AiMessage| MessageVal { role: parsed_role(m.role@), content: m.content@ },
    )
}

/// Normalize the caller's messages: parse each role, keep each content.
pub fn normalize_messages(msgs: &Vec<AiMessage>) -> (r: Vec<ConversationMessage>)
    ensures
        r.deep_view() == normalized(msgs@),
{
    let mut out: Vec<ConversationMessage> = Vec::new();
    let n = msgs.len();
    let mut i: usize = 0;
    proof {
        assert(out.deep_view() =~= normalized(msgs@.take(0)));
    }
    while i < n
        invariant
            i <= n,
            n == msgs@.len(),
            out@.len() == i,
            out.deep_view() == normalized(msgs@.take(i as int)),
        decreases n - i,
    {
        let m = &msgs[i];
        let role = if str_eq(m.role.as_str(), "assistant") {
            Role::Assistant
        } else {
            Role::User
        };
        let ghost prev = out.deep_view();
        out.push(ConversationMessage { role, content: m.content.clone() });
        proof {
            let cur = out.deep_view();
            assert(cur.len() == i + 1);
            assert forall|k: int| 0 <= k < i + 1 implies cur[k] == normalized(
                msgs@.take(i + 1),
            )[k] by {
                if k < i {
                    assert(cur[k] == prev[k]);
                    assert(prev[k] == normalized(msgs@.take(i as int))[k]);
                    assert(msgs@.take(i as int)[k] == msgs@.take(i + 1)[k]);
                } else {
                    assert(cur[k] == out@[k].deep_view());
                }
            }
            assert(out.deep_view() =~= normalized(msgs@.take(i + 1)));
        }
        i = i + 1;
    }
    proof {
        assert(msgs@.take(n as int) =~= msgs@);
    }
    out
}

/// A chat request ready to be sent, with the adapter that must read its
/// answer.
#[derive(Debug)]
pub struct PreparedChat {
    pub kind: UpstreamKind,
    pub request: HttpRequest,
}

/// What a prepared request must look like for a resolved call on a given
/// date: the selected adapter's endpoint, headers and body, built from the
/// resolved model, the instruction for that date, and the normalized
/// conversation.
pub open spec fn prepared_for(
    p: PreparedChat,
    input: ChatInput,
    stored: StoredSettings,
    today: Date,
) -> bool {
    let provider = override_or(input.provider, stored.ai_provider@);
    let model = override_or(input.model, stored.ai_model@);
    let base_url = override_or(input.base_url, stored.ai_base_url@);
    let key = stored.ai_api_key@;
    let system = system_prompt_text(today);
    let ms = normalized(input.messages@);
    &&& p.kind == provider_kind(provider)
    &&& match p.kind {
        UpstreamKind::Anthropic => p.request.url@ == "https://api.anthropic.com/v1/messages"@
            && p.request.headers.deep_view() == anthropic_headers(key) && p.request.body@
            == anthropic_chat_body(model, system, ms),
        UpstreamKind::Gemini => p.request.url@ == gemini_endpoint(model, key)
            && p.request.headers.deep_view() == Seq::<(Seq<char>, Seq<char>)>::empty()
            && p.request.body@ == gemini_chat_body(system, ms),
        UpstreamKind::OpenAiCompatible => p.request.url@ == openai_chat_endpoint(
            provider,
            base_url,
        ) && p.request.headers.deep_view() == bearer_headers(key) && p.request.body@
            == openai_chat_body(model, system, ms),
        UpstreamKind::Whisper => false,
    }
}

/// Prepare one chat call for a given date: resolve the configuration, build
/// the instruction, and translate the conversation into the selected
/// provider's wire format. Fails exactly when the credential rule does, and
/// then no request exists to be sent.
pub fn prepare_chat_on(input: ChatInput, stored: &StoredSettings, today: &Date) -> (r: Result<
    PreparedChat,
    AiError,
>)
    ensures
        r is Ok <==> !missing_credential(
            stored.ai_api_key@,
            override_or(input.provider, stored.ai_provider@),
        ),
        r matches Ok(p) ==> prepared_for(p, input, *stored, *today),
        r matches Err(e) ==> e == AiError::MissingCredential,
{
    let ChatInput { messages, provider, model, base_url } = input;
    let config = match resolve(provider, model, base_url, stored) {
        Ok(c) => c,
        Err(e) => {
            return Err(e);
        },
    };
    let system_prompt = build_system_prompt(today);
    let conversation = normalize_messages(&messages);
    let kind = select_provider(config.provider.as_str());
    let request = match kind {
        UpstreamKind::Anthropic => anthropic_request(
            &config,
            system_prompt.as_str(),
            &conversation,
        ),
        UpstreamKind::Gemini => gemini_request(&config, system_prompt.as_str(), &conversation),
        _ => openai_request(&config, system_prompt.as_str(), &conversation),
    };
    Ok(PreparedChat { kind, request })
}

/// Prepare one chat call for today. The clock is read once, here; whatever
/// date it gave, the request is the prepared one for that date.
pub fn prepare_chat(input: ChatInput, stored: &StoredSettings) -> (r: Result<
    PreparedChat,
    AiError,
>)
    ensures
        r is Ok <==> !missing_credential(
            stored.ai_api_key@,
            override_or(input.provider, stored.ai_provider@),
        ),
        r matches Ok(p) ==> exists|d: Date| d.wf() && prepared_for(p, input, *stored, d),
        r matches Err(e) ==> e == AiError::MissingCredential,
{
    let today = today_utc();
    let ghost gtoday = today;
    let r = prepare_chat_on(input, stored, &today);
    proof {
        if r is Ok {
            assert(prepared_for(r->Ok_0, input, *stored, gtoday));
        }
    }
    r
}

/// Turn the provider's answer into the caller's result: a timeout or a
/// non-success status propagates as the originating error; a successful
/// completion is read out of the provider's response shape and its text
/// parsed into the reply and the action list, which itself never fails.
pub fn finish_chat(kind: UpstreamKind, outcome: HttpOutcome) -> (r: Result<ChatResponse, AiError>)
    ensures
        match outcome {
            HttpOutcome::TimedOut => r matches Err(e) && e == AiError::Timeout,
            HttpOutcome::Status { code, body } => {
                if !is_success_status(code) {
                    r matches Err(e) && e == (AiError::Upstream { kind, status: code, body })
                } else {
                    match json_parse(body@) {
                        Some(v) => r matches Ok(resp) && resp@ == extract_spec(
                            completion_text(kind, v),
                        ),
                        None => r matches Err(e) && e == (AiError::UnreadableReply { kind }),
                    }
                }
            },
        },
{
    match completion_from_outcome(kind, outcome) {
        Ok(text) => Ok(extract(text.as_str())),
        Err(e) => Err(e),
    }
}

} // verus!
