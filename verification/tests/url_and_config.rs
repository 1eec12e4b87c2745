use f3dx_router::config::{
    authorization_value, default_timeout_ms, default_weight, is_default_timeout, is_default_weight,
};
use f3dx_router::{build_url, Provider, ProviderKind, RouterConfig, RouterError, RoutingPolicy};

fn provider(name: &str, kind: ProviderKind, base_url: &str, api_key: &str) -> Provider {
    Provider {
        name: name.into(),
        kind,
        base_url: base_url.into(),
        api_key: api_key.into(),
        timeout_ms: 30_000,
        weight: 1,
    }
}

#[test]
fn empty_providers_fails_validation() {
    let cfg = RouterConfig {
        providers: vec![],
        policy: RoutingPolicy::Sequential,
        hedge_k: 2,
    };
    assert!(matches!(cfg.validate(), Err(RouterError::NoProviders)));
}

#[test]
fn one_provider_passes_validation() {
    let cfg = RouterConfig {
        providers: vec![provider("p", ProviderKind::OpenAI, "https://x", "k")],
        policy: RoutingPolicy::Hedged,
        hedge_k: 0,
    };
    assert!(cfg.validate().is_ok());
}

#[test]
fn build_url_openai() {
    let p = Provider {
        name: "test".into(),
        kind: ProviderKind::OpenAI,
        base_url: "https://api.openai.com/v1".into(),
        api_key: "sk-test".into(),
        timeout_ms: 30_000,
        weight: 1,
    };
    assert_eq!(build_url(&p), "https://api.openai.com/v1/chat/completions");
}

#[test]
fn build_url_strips_trailing_slash() {
    let p = Provider {
        name: "test".into(),
        kind: ProviderKind::OpenAI,
        base_url: "https://api.openai.com/v1/".into(),
        api_key: "sk-test".into(),
        timeout_ms: 30_000,
        weight: 1,
    };
    assert_eq!(build_url(&p), "https://api.openai.com/v1/chat/completions");
}

#[test]
fn build_url_anthropic() {
    let p = Provider {
        name: "anthropic".into(),
        kind: ProviderKind::Anthropic,
        base_url: "https://api.anthropic.com/v1".into(),
        api_key: "sk-ant".into(),
        timeout_ms: 30_000,
        weight: 1,
    };
    assert_eq!(build_url(&p), "https://api.anthropic.com/v1/messages");
}

#[test]
fn build_url_strips_every_trailing_slash() {
    let p = provider("x", ProviderKind::Anthropic, "https://h/v1///", "k");
    assert_eq!(build_url(&p), "https://h/v1/messages");
    let q = provider("x", ProviderKind::Anthropic, "https://h/v1", "k");
    assert_eq!(build_url(&p), build_url(&q));
}

#[test]
fn build_url_of_slashes_only() {
    let p = provider("x", ProviderKind::OpenAI, "///", "k");
    assert_eq!(build_url(&p), "/chat/completions");
    let q = provider("x", ProviderKind::OpenAI, "", "k");
    assert_eq!(build_url(&q), "/chat/completions");
}

#[test]
fn build_url_keeps_inner_slashes_and_unicode() {
    let p = provider("x", ProviderKind::OpenAI, "https://hôte.example/a//b/", "k");
    assert_eq!(build_url(&p), "https://hôte.example/a//b/chat/completions");
}

#[test]
fn authorization_is_bearer_key() {
    let p = provider("x", ProviderKind::OpenAI, "https://h", "sk-123");
    assert_eq!(authorization_value(&p), "Bearer sk-123");
}

#[test]
fn defaults_and_their_tests() {
    assert_eq!(default_timeout_ms(), 30_000);
    assert_eq!(default_weight(), 1);
    assert!(is_default_timeout(&30_000));
    assert!(!is_default_timeout(&29_999));
    assert!(is_default_weight(&1));
    assert!(!is_default_weight(&2));
    assert!(is_default_timeout(&default_timeout_ms()));
    assert!(is_default_weight(&default_weight()));
}
