//! The settings resolver: merges explicit call-time overrides with the
//! persisted defaults, and guards the credential rule.
//!
//! The persisted store itself lives outside this library; callers hand in a
//! snapshot of the keys the resolver reads. The API key is never accepted as
//! a call argument — it always comes from the snapshot.

use vstd::prelude::*;
use crate::error::AiError;
use crate::text::str_eq;

verus! {

/// The full catalogue of persisted settings keys, as the surrounding
/// application stores them.
#[derive(Debug, Clone, PartialEq)]
pub struct AppSettings {
    pub theme: String,
    pub overlay_hotkey: String,
    pub voice_hotkey: String,
    pub overlay_position: String,
    pub notify_days_before: String,
    pub ai_provider: String,
    pub ai_model: String,
    pub ai_base_url: String,
}

/// A snapshot of the persisted keys the resolver reads; a missing key is the
/// empty string.
#[derive(Debug, Clone, PartialEq)]
pub struct StoredSettings {
    pub ai_provider: String,
    pub ai_model: String,
    pub ai_base_url: String,
    pub ai_api_key: String,
}

/// The provider configuration one orchestration call runs with.
#[derive(Debug, Clone, PartialEq)]
pub struct ProviderConfig {
    pub provider: String,
    pub model: String,
    pub base_url: String,
    pub api_key: String,
}

/// An explicit call argument wins; otherwise the persisted value is used.
pub open spec fn override_or(explicit: Option<String>, stored: Seq<char>) -> Seq<char> {
    match explicit {
        Some(s) => s@,
        None => stored,
    }
}

/// Whether a resolved call is missing its credential: no key stored and the
/// provider is not the self-hosted one.
pub open spec fn missing_credential(api_key: Seq<char>, provider: Seq<char>) -> bool {
    api_key.len() == 0 && provider != "local"@
}

/// Resolve the configuration of one call: each field is the explicit
/// argument where given, else the persisted value; the API key always comes
/// from the store. Fails exactly when the key is empty and the resolved
/// provider is not `local`.
pub fn resolve(
    provider: Option<String>,
    model: Option<String>,
    base_url: Option<String>,
    stored: &StoredSettings,
) -> (r: Result<ProviderConfig, AiError>)
    ensures
        r is Ok <==> !missing_credential(
            stored.ai_api_key@,
            override_or(provider, stored.ai_provider@),
        ),
        r matches Ok(c) ==> c.provider@ == override_or(provider, stored.ai_provider@)
            && c.model@ == override_or(model, stored.ai_model@) && c.base_url@ == override_or(
            base_url,
            stored.ai_base_url@,
        ) && c.api_key@ == stored.ai_api_key@,
        r matches Err(e) ==> e == AiError::MissingCredential,
{
    let provider = match provider {
        Some(p) => p,
        None => stored.ai_provider.clone(),
    };
    let api_key = stored.ai_api_key.clone();
    if api_key.as_str().is_empty() && !str_eq(provider.as_str(), "local") {
        return Err(AiError::MissingCredential);
    }
    let model = match model {
        Some(m) => m,
        None => stored.ai_model.clone(),
    };
    let base_url = match base_url {
        Some(b) => b,
        None => stored.ai_base_url.clone(),
    };
    Ok(ProviderConfig { provider, model, base_url, api_key })
}

} // verus!
