use f3dx_router::bridge::{
    parse_kind, parse_policy, parse_request_body, provider_from_fields, router_config, BridgeError,
    ProviderField, ProviderFields,
};
use f3dx_router::{Provider, ProviderKind, RouterError, RoutingPolicy};

fn fields(name: Option<&str>, kind: Option<&str>, base: Option<&str>, key: Option<&str>) -> ProviderFields {
    ProviderFields {
        name: name.map(|s| s.to_string()),
        kind: kind.map(|s| s.to_string()),
        base_url: base.map(|s| s.to_string()),
        api_key: key.map(|s| s.to_string()),
        timeout_ms: None,
        weight: None,
    }
}

#[test]
fn kinds_are_read_case_insensitively() {
    assert_eq!(parse_kind("openai").unwrap(), ProviderKind::OpenAI);
    assert_eq!(parse_kind("OpenAI").unwrap(), ProviderKind::OpenAI);
    assert_eq!(parse_kind("ANTHROPIC").unwrap(), ProviderKind::Anthropic);
    let e = parse_kind("Mistral").unwrap_err();
    assert!(matches!(&e, BridgeError::UnknownKind(s) if s == "mistral"));
    assert_eq!(e.message(), "unknown provider kind \"mistral\"; expected openai|anthropic");
    assert!(e.raises_value_error());
}

#[test]
fn policies_are_read_case_insensitively() {
    assert_eq!(parse_policy("sequential").unwrap(), RoutingPolicy::Sequential);
    assert_eq!(parse_policy("Hedged").unwrap(), RoutingPolicy::Hedged);
    let e = parse_policy("WeightedRR").unwrap_err();
    assert_eq!(e.message(), "unknown policy \"weightedrr\"; expected sequential|hedged");
}

#[test]
fn entry_defaults_fill_timeout_and_weight() {
    let p = provider_from_fields(fields(Some("o"), Some("OPENAI"), Some("https://x"), Some("sk"))).unwrap();
    assert_eq!(p.name, "o");
    assert_eq!(p.kind, ProviderKind::OpenAI);
    assert_eq!(p.base_url, "https://x");
    assert_eq!(p.api_key, "sk");
    assert_eq!(p.timeout_ms, 30_000);
    assert_eq!(p.weight, 1);
}

#[test]
fn entry_keeps_given_timeout_and_weight() {
    let mut f = fields(Some("o"), Some("anthropic"), Some("u"), Some("k"));
    f.timeout_ms = Some(5);
    f.weight = Some(9);
    let p = provider_from_fields(f).unwrap();
    assert_eq!(p.timeout_ms, 5);
    assert_eq!(p.weight, 9);
    assert_eq!(p.kind, ProviderKind::Anthropic);
}

#[test]
fn first_missing_key_is_reported() {
    let e = provider_from_fields(fields(None, None, None, None)).unwrap_err();
    assert!(matches!(e, BridgeError::MissingField(ProviderField::Name)));
    assert_eq!(e.message(), "provider missing 'name'");
    let e = provider_from_fields(fields(Some("n"), None, None, Some("k"))).unwrap_err();
    assert_eq!(e.message(), "provider missing 'kind'");
    let e = provider_from_fields(fields(Some("n"), Some("bogus"), None, Some("k"))).unwrap_err();
    assert_eq!(e.message(), "provider missing 'base_url'");
    let e = provider_from_fields(fields(Some("n"), Some("bogus"), Some("u"), None)).unwrap_err();
    assert_eq!(e.message(), "provider missing 'api_key'");
    let e = provider_from_fields(fields(Some("n"), Some("bogus"), Some("u"), Some("k"))).unwrap_err();
    assert!(matches!(e, BridgeError::UnknownKind(_)));
}

fn one_provider() -> Vec<Provider> {
    vec![provider_from_fields(fields(Some("o"), Some("openai"), Some("u"), Some("k"))).unwrap()]
}

#[test]
fn config_from_binding_arguments() {
    let c = router_config(one_provider(), "HEDGED", 3).unwrap();
    assert_eq!(c.policy, RoutingPolicy::Hedged);
    assert_eq!(c.hedge_k, 3);
    assert_eq!(c.providers.len(), 1);
    let e = router_config(one_provider(), "random", 3).unwrap_err();
    assert!(matches!(e, BridgeError::UnknownPolicy(_)));
    let e = router_config(vec![], "sequential", 2).unwrap_err();
    assert!(matches!(e, BridgeError::Router(RouterError::NoProviders)));
    assert_eq!(e.message(), "no providers configured");
    assert!(!e.raises_value_error());
    let e = router_config(vec![], "nope", 2).unwrap_err();
    assert!(matches!(e, BridgeError::UnknownPolicy(_)));
}

#[test]
fn request_body_is_parsed_as_json() {
    let v = parse_request_body("{\"model\": \"m\", \"n\": 2}").unwrap();
    assert_eq!(v["model"], "m");
    assert_eq!(v["n"], 2);
    let e = parse_request_body("{\"model\": ").unwrap_err();
    assert!(matches!(&e, BridgeError::InvalidBody(m) if !m.is_empty()));
    assert!(e.raises_value_error());
    assert_eq!(e.message(), serde_json::from_str::<serde_json::Value>("{\"model\": ").unwrap_err().to_string());
}

#[test]
fn entry_written_from_a_provider_reads_back() {
    let original = Provider {
        name: "mistral".into(),
        kind: ProviderKind::Anthropic,
        base_url: "https://m/v1".into(),
        api_key: "key".into(),
        timeout_ms: 30_000,
        weight: 4,
    };
    let entry = ProviderFields {
        name: Some(original.name.clone()),
        kind: Some("anthropic".into()),
        base_url: Some(original.base_url.clone()),
        api_key: Some(original.api_key.clone()),
        timeout_ms: None,
        weight: Some(4),
    };
    let back = provider_from_fields(entry).unwrap();
    assert_eq!(back.name, original.name);
    assert_eq!(back.kind, original.kind);
    assert_eq!(back.base_url, original.base_url);
    assert_eq!(back.api_key, original.api_key);
    assert_eq!(back.timeout_ms, original.timeout_ms);
    assert_eq!(back.weight, original.weight);
}

#[test]
fn labels_read_back() {
    assert_eq!(parse_kind("openai").unwrap(), ProviderKind::OpenAI);
    assert_eq!(parse_kind("anthropic").unwrap(), ProviderKind::Anthropic);
    assert_eq!(parse_policy("sequential").unwrap(), RoutingPolicy::Sequential);
    assert_eq!(parse_policy("hedged").unwrap(), RoutingPolicy::Hedged);
}
