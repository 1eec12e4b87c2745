use f3dx_router::routing::{hedge_fan_out, Attempt, HedgedRun, HedgedStep, SequentialRun, SequentialStep};
use f3dx_router::status::{classify_status, failure_for_status, status_is_success, StatusClass};
use f3dx_router::text::{ascii_lowercase, debug_list_text, push_decimal, trim_trailing_slashes};
use f3dx_router::{Provider, ProviderKind, RouterConfig, RouterError, RoutingPolicy};

fn provider(name: &str) -> Provider {
    Provider {
        name: name.into(),
        kind: ProviderKind::OpenAI,
        base_url: "https://h".into(),
        api_key: "k".into(),
        timeout_ms: 30_000,
        weight: 1,
    }
}

fn config(names: &[&str], policy: RoutingPolicy, hedge_k: usize) -> RouterConfig {
    RouterConfig {
        providers: names.iter().map(|n| provider(n)).collect(),
        policy,
        hedge_k,
    }
}

fn soft(text: &str) -> Attempt {
    Attempt::Failed(RouterError::Http(text.into()))
}

fn hard(name: &str, status: u16) -> Attempt {
    Attempt::Failed(RouterError::HardFailure {
        provider: name.into(),
        status,
        body: "no".into(),
    })
}

#[test]
fn status_classes() {
    assert_eq!(classify_status(200), StatusClass::Success);
    assert_eq!(classify_status(299), StatusClass::Success);
    assert_eq!(classify_status(429), StatusClass::Soft);
    assert_eq!(classify_status(500), StatusClass::Soft);
    assert_eq!(classify_status(599), StatusClass::Soft);
    assert_eq!(classify_status(400), StatusClass::Hard);
    assert_eq!(classify_status(401), StatusClass::Hard);
    assert_eq!(classify_status(404), StatusClass::Hard);
    assert_eq!(classify_status(408), StatusClass::Hard);
    assert_eq!(classify_status(300), StatusClass::Hard);
    assert_eq!(classify_status(199), StatusClass::Hard);
    assert_eq!(classify_status(600), StatusClass::Hard);
    assert!(status_is_success(204));
    assert!(!status_is_success(300));
}

#[test]
fn soft_status_becomes_one_cause() {
    let e = failure_for_status(&provider("groq"), 503, "busy".into());
    match &e {
        RouterError::AllExhausted { causes } => assert_eq!(causes, &vec!["groq -> 503 busy".to_string()]),
        other => panic!("unexpected {:?}", other),
    }
    assert_eq!(e.message(), "all providers exhausted: [\"groq -> 503 busy\"]");
}

#[test]
fn hard_status_carries_the_answer() {
    let e = failure_for_status(&provider("oai"), 401, "bad key".into());
    match &e {
        RouterError::HardFailure { provider, status, body } => {
            assert_eq!(provider, "oai");
            assert_eq!(*status, 401);
            assert_eq!(body, "bad key");
        }
        other => panic!("unexpected {:?}", other),
    }
    assert_eq!(e.message(), "hard failure on provider \"oai\": 401 bad key");
}

#[test]
fn error_messages() {
    assert_eq!(RouterError::NoProviders.message(), "no providers configured");
    assert_eq!(RouterError::Http("timed out".into()).message(), "http: timed out");
    assert_eq!(RouterError::Json("eof".into()).message(), "json: eof");
    let e = RouterError::AllExhausted { causes: vec![] };
    assert_eq!(e.message(), "all providers exhausted: []");
    let e = RouterError::AllExhausted { causes: vec!["a\"b".into(), "c\nd".into()] };
    assert_eq!(e.message(), format!("all providers exhausted: {:?}", vec!["a\"b", "c\nd"]));
    let e = RouterError::HardFailure { provider: "q\"x".into(), status: 0, body: "".into() };
    assert_eq!(e.message(), "hard failure on provider \"q\\\"x\": 0 ");
}

#[test]
fn text_helpers() {
    assert_eq!(ascii_lowercase("OpenAI-ÄB"), "openai-Äb");
    assert_eq!(trim_trailing_slashes("a/b//"), "a/b");
    assert_eq!(trim_trailing_slashes(""), "");
    let mut s = String::from("n=");
    push_decimal(&mut s, 65535);
    assert_eq!(s, "n=65535");
    let mut z = String::new();
    push_decimal(&mut z, 0);
    assert_eq!(z, "0");
    assert_eq!(debug_list_text(&vec!["x".into(), "y".into()]), "[\"x\", \"y\"]");
}

#[test]
fn sequential_walks_providers_in_order_until_success() {
    let cfg = config(&["a", "b", "c"], RoutingPolicy::Sequential, 2);
    let (mut run, step) = SequentialRun::start(&cfg);
    assert!(matches!(step, SequentialStep::Try(0)));
    assert!(matches!(run.on_attempt(&cfg, soft("reset")), SequentialStep::Try(1)));
    assert_eq!(run.in_flight(), 1);
    assert!(matches!(run.on_attempt(&cfg, soft("reset")), SequentialStep::Try(2)));
    assert!(matches!(run.on_attempt(&cfg, Attempt::Succeeded), SequentialStep::Finish));
}

#[test]
fn sequential_stops_at_hard_failure() {
    let cfg = config(&["a", "b", "c"], RoutingPolicy::Sequential, 2);
    let (mut run, _) = SequentialRun::start(&cfg);
    assert!(matches!(run.on_attempt(&cfg, soft("reset")), SequentialStep::Try(1)));
    match run.on_attempt(&cfg, hard("b", 403)) {
        SequentialStep::Fail(RouterError::HardFailure { provider, status, .. }) => {
            assert_eq!(provider, "b");
            assert_eq!(status, 403);
        }
        other => panic!("unexpected {:?}", other),
    }
}

#[test]
fn sequential_exhaustion_lists_every_provider() {
    let cfg = config(&["a", "b"], RoutingPolicy::Sequential, 2);
    let (mut run, _) = SequentialRun::start(&cfg);
    let first = failure_for_status(&cfg.providers[0], 429, "slow down".into());
    assert!(matches!(run.on_attempt(&cfg, Attempt::Failed(first)), SequentialStep::Try(1)));
    match run.on_attempt(&cfg, soft("connection reset")) {
        SequentialStep::Fail(e) => {
            match &e {
                RouterError::AllExhausted { causes } => assert_eq!(
                    causes,
                    &vec![
                        "a: all providers exhausted: [\"a -> 429 slow down\"]".to_string(),
                        "b: http: connection reset".to_string(),
                    ]
                ),
                other => panic!("unexpected {:?}", other),
            }
        }
        other => panic!("unexpected {:?}", other),
    }
}

#[test]
fn sequential_without_providers_is_exhausted() {
    let cfg = config(&[], RoutingPolicy::Sequential, 2);
    let (_, step) = SequentialRun::start(&cfg);
    match step {
        SequentialStep::Fail(RouterError::AllExhausted { causes }) => assert!(causes.is_empty()),
        other => panic!("unexpected {:?}", other),
    }
}

#[test]
fn hedge_fan_out_is_clamped() {
    assert_eq!(hedge_fan_out(0, 3), 1);
    assert_eq!(hedge_fan_out(2, 3), 2);
    assert_eq!(hedge_fan_out(5, 3), 3);
    assert_eq!(hedge_fan_out(1, 1), 1);
}

#[test]
fn hedged_first_success_wins() {
    let cfg = config(&["a", "b", "c"], RoutingPolicy::Hedged, 2);
    let (mut run, k) = HedgedRun::start(&cfg);
    assert_eq!(k, 2);
    assert_eq!(run.outstanding(), 2);
    assert!(matches!(run.on_attempt(soft("reset")), HedgedStep::Wait));
    assert!(matches!(run.on_attempt(Attempt::Succeeded), HedgedStep::Finish));
}

#[test]
fn hedged_hard_failure_wins_over_waiting() {
    let cfg = config(&["a", "b"], RoutingPolicy::Hedged, 2);
    let (mut run, _) = HedgedRun::start(&cfg);
    assert!(matches!(run.on_attempt(hard("b", 400)), HedgedStep::Fail(RouterError::HardFailure { .. })));
}

#[test]
fn hedged_exhaustion_collects_messages_in_completion_order() {
    let cfg = config(&["a", "b", "c"], RoutingPolicy::Hedged, 7);
    let (mut run, k) = HedgedRun::start(&cfg);
    assert_eq!(k, 3);
    assert!(matches!(run.on_attempt(soft("one")), HedgedStep::Wait));
    let second = failure_for_status(&cfg.providers[2], 502, "gw".into());
    assert!(matches!(run.on_attempt(Attempt::Failed(second)), HedgedStep::Wait));
    match run.on_attempt(soft("three")) {
        HedgedStep::Fail(RouterError::AllExhausted { causes }) => assert_eq!(
            causes,
            vec![
                "http: one".to_string(),
                "all providers exhausted: [\"c -> 502 gw\"]".to_string(),
                "http: three".to_string(),
            ]
        ),
        other => panic!("unexpected {:?}", other),
    }
}

#[test]
fn request_timeout_status_is_hard() {
    let e = failure_for_status(&provider("oai"), 408, "late".into());
    assert!(matches!(e, RouterError::HardFailure { status: 408, .. }));
}
