//! Providers, routing policies and the router's configuration.

use vstd::prelude::*;
use vstd::string::*;

use crate::error::{RouterError, RouterErrorView};
use crate::text::{
    law_trim_end_slashes_absorbs, law_trim_end_slashes_shape, trim_end_slashes, trim_trailing_slashes,
};

verus! {

/// The API shape of an upstream provider; it decides the endpoint path.
#[derive(Debug, Clone, Copy, PartialEq, Eq, Structural)]
pub enum ProviderKind {
    /// OpenAI-shaped chat-completions endpoint (vLLM, Mistral, xAI, Groq, Together,
    /// Fireworks, DeepSeek, llmkit, OpenRouter, ...).
    OpenAI,
    /// Anthropic Messages API.
    Anthropic,
}

/// How a request is spread over the configured providers.
#[derive(Debug, Clone, Copy, PartialEq, Eq, Structural)]
pub enum RoutingPolicy {
    /// Providers are tried one after another, in order.
    Sequential,
    /// The first providers are fired at once; the first answer wins.
    Hedged,
}

/// One upstream provider endpoint.
#[derive(Debug, Clone)]
pub struct Provider {
    pub name: String,
    pub kind: ProviderKind,
    pub base_url: String,
    pub api_key: String,
    /// Hard ceiling on per-request latency, in milliseconds.
    pub timeout_ms: u64,
    /// Weight in weighted round-robin; ignored by the sequential and hedged policies.
    pub weight: u32,
}

/// What the router is built from.
#[derive(Debug, Clone)]
pub struct RouterConfig {
    pub providers: Vec<Provider>,
    pub policy: RoutingPolicy,
    /// Number of providers fired at once under the hedged policy, clamped to
    /// `[1, providers.len()]` when a request starts.
    pub hedge_k: usize,
}

/// The timeout a provider gets when none is given: thirty seconds.
pub open spec fn spec_default_timeout_ms() -> u64 {
    30_000
}

/// The weight a provider gets when none is given.
pub open spec fn spec_default_weight() -> u32 {
    1
}

/// The timeout a provider gets when none is given.
pub fn default_timeout_ms() -> (r: u64)
    ensures
        r == spec_default_timeout_ms(),
{
    30_000
}

/// Whether a timeout equals the default (and so need not be written out).
pub fn is_default_timeout(t: &u64) -> (r: bool)
    ensures
        r == (*t == spec_default_timeout_ms()),
{
    *t == 30_000
}

/// The weight a provider gets when none is given.
pub fn default_weight() -> (r: u32)
    ensures
        r == spec_default_weight(),
{
    1
}

/// Whether a weight equals the default (and so need not be written out).
pub fn is_default_weight(w: &u32) -> (r: bool)
    ensures
        r == (*w == spec_default_weight()),
{
    *w == 1
}

/// What a serialised provider holds for a timeout: nothing when it is the default.
pub open spec fn written_timeout(t: u64) -> Option<u64> {
    if t == spec_default_timeout_ms() { None } else { Some(t) }
}

/// The timeout read back from what was written, the default filling a gap.
pub open spec fn read_timeout(o: Option<u64>) -> u64 {
    match o {
        Some(t) => t,
        None => spec_default_timeout_ms(),
    }
}

/// What a serialised provider holds for a weight: nothing when it is the default.
pub open spec fn written_weight(w: u32) -> Option<u32> {
    if w == spec_default_weight() { None } else { Some(w) }
}

/// The weight read back from what was written, the default filling a gap.
pub open spec fn read_weight(o: Option<u32>) -> u32 {
    match o {
        Some(w) => w,
        None => spec_default_weight(),
    }
}

/// Leaving a default timeout or weight out when writing, and filling the gap
/// with the default when reading, gives back every value unchanged.
pub proof fn law_defaults_round_trip(t: u64, w: u32)
    ensures
        read_timeout(written_timeout(t)) == t,
        read_weight(written_weight(w)) == w,
{
}

impl RouterConfig {
    /// A configuration is usable when it names at least one provider.
    pub fn validate(&self) -> (r: Result<(), RouterError>)
        ensures
            r is Ok <==> self.providers.len() > 0,
            r matches Err(e) ==> e@ == RouterErrorView::NoProviders,
    {
        if self.providers.len() == 0 {
            return Err(RouterError::NoProviders);
        }
        Ok(())
    }
}

/// The path that a provider kind's endpoint lives under.
pub open spec fn endpoint_path(kind: ProviderKind) -> Seq<char> {
    match kind {
        ProviderKind::OpenAI => "/chat/completions"@,
        ProviderKind::Anthropic => "/messages"@,
    }
}

/// The request URL: the base URL without trailing slashes, then the endpoint path.
pub open spec fn request_url(base_url: Seq<char>, kind: ProviderKind) -> Seq<char> {
    trim_end_slashes(base_url) + endpoint_path(kind)
}

/// The URL a chat request to this provider goes to.
pub fn build_url(provider: &Provider) -> (r: String)
    ensures
        r@ == request_url(provider.base_url@, provider.kind),
{
    let base = trim_trailing_slashes(provider.base_url.as_str());
    let mut out = base.to_owned();
    match provider.kind {
        ProviderKind::OpenAI => out.append("/chat/completions"),
        ProviderKind::Anthropic => out.append("/messages"),
    }
    out
}

/// Trailing slashes on a base URL make no difference to the request URL, and the
/// endpoint path always follows the base without a doubled slash.
pub proof fn law_url_ignores_trailing_slashes(base: Seq<char>, k: nat, kind: ProviderKind)
    ensures
        request_url(base + Seq::new(k, |i: int| '/'), kind) == request_url(base, kind),
        trim_end_slashes(base).len() == 0 || trim_end_slashes(base).last() != '/',
{
    law_trim_end_slashes_absorbs(base, k);
    law_trim_end_slashes_shape(base);
}

/// The request URL is the base URL kept character for character up to its
/// trailing slashes (the first `k` characters, where everything from `k` on is
/// `'/'` and the character before `k`, if any, is not), followed by
/// `/chat/completions` for OpenAI or `/messages` for Anthropic.
pub proof fn law_request_url_keeps_base(base: Seq<char>, kind: ProviderKind)
    ensures
        ({
            let k = trim_end_slashes(base).len();
            &&& k <= base.len()
            &&& forall|i: int| k <= i < base.len() ==> base[i] == '/'
            &&& k == 0 || base[k - 1] != '/'
            &&& kind == ProviderKind::OpenAI ==> request_url(base, kind) == base.take(k as int)
                + "/chat/completions"@
            &&& kind == ProviderKind::Anthropic ==> request_url(base, kind) == base.take(k as int)
                + "/messages"@
        }),
{
    law_trim_end_slashes_shape(base);
}

/// The value of the `authorization` header sent to a provider.
pub open spec fn bearer_value(api_key: Seq<char>) -> Seq<char> {
    "Bearer "@ + api_key
}

/// The `authorization` value is the seven characters `"Bearer "` followed by the
/// API key unchanged.
pub proof fn law_bearer_keeps_key(api_key: Seq<char>)
    ensures
        bearer_value(api_key).len() == api_key.len() + 7,
        bearer_value(api_key).take(7) == "Bearer "@,
        bearer_value(api_key).skip(7) == api_key,
{
    reveal_strlit("Bearer ");
    assert(bearer_value(api_key).take(7) =~= "Bearer "@);
    assert(bearer_value(api_key).skip(7) =~= api_key);
}

/// A timeout or weight given explicitly is kept as it is, whatever its value;
/// only an absent one becomes the default (30000 ms, weight 1).
pub proof fn law_given_values_kept(t: u64, w: u32)
    ensures
        read_timeout(Some(t)) == t,
        read_timeout(None) == 30_000,
        read_weight(Some(w)) == w,
        read_weight(None) == 1,
{
}

/// The value of the `authorization` header sent to this provider.
pub fn authorization_value(provider: &Provider) -> (r: String)
    ensures
        r@ == bearer_value(provider.api_key@),
{
    let mut out = "Bearer ".to_owned();
    out.append(provider.api_key.as_str());
    out
}

} // verus!
