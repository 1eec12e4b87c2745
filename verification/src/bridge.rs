//! What the Python binding decides: reading provider entries, policy names and
//! request bodies into the router's own values, and the errors it raises.

use vstd::prelude::*;
use vstd::string::*;

use crate::config::{
    default_timeout_ms, default_weight, law_defaults_round_trip, read_timeout, read_weight,
    written_timeout, written_weight, Provider, ProviderKind, RouterConfig, RoutingPolicy,
};
use crate::error::{error_message, RouterError, RouterErrorView};
use crate::text::{ascii_lower, ascii_lowercase, debug_quoted, debug_text, law_ascii_lower_idempotent};

verus! {

/// A required key of a provider entry.
#[derive(Debug, Clone, Copy, PartialEq, Eq, Structural)]
pub enum ProviderField {
    Name,
    Kind,
    BaseUrl,
    ApiKey,
}

/// The key under which a field is looked up in a provider entry.
pub open spec fn field_key(f: ProviderField) -> Seq<char> {
    match f {
        ProviderField::Name => "name"@,
        ProviderField::Kind => "kind"@,
        ProviderField::BaseUrl => "base_url"@,
        ProviderField::ApiKey => "api_key"@,
    }
}

/// Why the binding refuses its input.
#[derive(Debug)]
pub enum BridgeError {
    /// A provider entry lacks a required key.
    MissingField(ProviderField),
    /// A provider kind other than `openai` or `anthropic` (held lower-cased).
    UnknownKind(String),
    /// A policy other than `sequential` or `hedged` (held lower-cased).
    UnknownPolicy(String),
    /// The request body is not JSON; the text is the parser's description.
    InvalidBody(String),
    /// The router refused the configuration or the request failed.
    Router(RouterError),
}

/// The mathematical value of a [`BridgeError`].
pub enum BridgeErrorView {
    MissingField(ProviderField),
    UnknownKind(Seq<char>),
    UnknownPolicy(Seq<char>),
    InvalidBody(Seq<char>),
    Router(RouterErrorView),
}

impl View for BridgeError {
    type V = BridgeErrorView;

    open spec fn view(&self) -> BridgeErrorView {
        match self {
            BridgeError::MissingField(f) => BridgeErrorView::MissingField(*f),
            BridgeError::UnknownKind(s) => BridgeErrorView::UnknownKind(s@),
            BridgeError::UnknownPolicy(s) => BridgeErrorView::UnknownPolicy(s@),
            BridgeError::InvalidBody(s) => BridgeErrorView::InvalidBody(s@),
            BridgeError::Router(e) => BridgeErrorView::Router(e@),
        }
    }
}

/// The text of a binding error, as the Python exception carries it.
pub open spec fn bridge_message(e: BridgeErrorView) -> Seq<char> {
    match e {
        BridgeErrorView::MissingField(f) => "provider missing '"@ + field_key(f) + "'"@,
        BridgeErrorView::UnknownKind(s) => "unknown provider kind "@ + debug_quoted(s)
            + "; expected openai|anthropic"@,
        BridgeErrorView::UnknownPolicy(s) => "unknown policy "@ + debug_quoted(s)
            + "; expected sequential|hedged"@,
        BridgeErrorView::InvalidBody(s) => s,
        BridgeErrorView::Router(r) => error_message(r),
    }
}

/// Whether the error is raised in Python as `ValueError` (otherwise `RuntimeError`).
pub open spec fn is_value_error(e: BridgeErrorView) -> bool {
    !(e is Router)
}

impl BridgeError {
    /// The text the Python exception carries.
    pub fn message(&self) -> (r: String)
        ensures
            r@ == bridge_message(self@),
    {
        match self {
            BridgeError::MissingField(f) => {
                let mut out = "provider missing '".to_owned();
                match f {
                    ProviderField::Name => out.append("name"),
                    ProviderField::Kind => out.append("kind"),
                    ProviderField::BaseUrl => out.append("base_url"),
                    ProviderField::ApiKey => out.append("api_key"),
                }
                out.append("'");
                out
            },
            BridgeError::UnknownKind(s) => {
                let mut out = "unknown provider kind ".to_owned();
                let q = debug_text(s.as_str());
                out.append(q.as_str());
                out.append("; expected openai|anthropic");
                out
            },
            BridgeError::UnknownPolicy(s) => {
                let mut out = "unknown policy ".to_owned();
                let q = debug_text(s.as_str());
                out.append(q.as_str());
                out.append("; expected sequential|hedged");
                out
            },
            BridgeError::InvalidBody(s) => s.as_str().to_owned(),
            BridgeError::Router(e) => e.message(),
        }
    }

    /// Whether the error is raised in Python as `ValueError` rather than `RuntimeError`.
    pub fn raises_value_error(&self) -> (r: bool)
        ensures
            r == is_value_error(self@),
    {
        match self {
            BridgeError::Router(_) => false,
            _ => true,
        }
    }
}

fn same_text(a: &String, lit: &str) -> (r: bool)
    ensures
        r == (a@ == lit@),
{
    *a == lit.to_owned()
}

/// The provider kind a name denotes, case-insensitively.
pub open spec fn kind_named(s: Seq<char>) -> Option<ProviderKind> {
    if ascii_lower(s) == "openai"@ {
        Some(ProviderKind::OpenAI)
    } else if ascii_lower(s) == "anthropic"@ {
        Some(ProviderKind::Anthropic)
    } else {
        None
    }
}

/// Reads a provider kind name, ignoring ASCII case.
pub fn parse_kind(s: &str) -> (r: Result<ProviderKind, BridgeError>)
    ensures
        r is Ok <==> kind_named(s@) is Some,
        r matches Ok(k) ==> kind_named(s@) == Some(k),
        r matches Err(e) ==> e@ == BridgeErrorView::UnknownKind(ascii_lower(s@)),
{
    let lowered = ascii_lowercase(s);
    if same_text(&lowered, "openai") {
        Ok(ProviderKind::OpenAI)
    } else if same_text(&lowered, "anthropic") {
        Ok(ProviderKind::Anthropic)
    } else {
        Err(BridgeError::UnknownKind(lowered))
    }
}

/// The routing policy a name denotes, case-insensitively.
pub open spec fn policy_named(s: Seq<char>) -> Option<RoutingPolicy> {
    if ascii_lower(s) == "sequential"@ {
        Some(RoutingPolicy::Sequential)
    } else if ascii_lower(s) == "hedged"@ {
        Some(RoutingPolicy::Hedged)
    } else {
        None
    }
}

/// Reads a routing policy name, ignoring ASCII case.
pub fn parse_policy(s: &str) -> (r: Result<RoutingPolicy, BridgeError>)
    ensures
        r is Ok <==> policy_named(s@) is Some,
        r matches Ok(p) ==> policy_named(s@) == Some(p),
        r matches Err(e) ==> e@ == BridgeErrorView::UnknownPolicy(ascii_lower(s@)),
{
    let lowered = ascii_lowercase(s);
    if same_text(&lowered, "sequential") {
        Ok(RoutingPolicy::Sequential)
    } else if same_text(&lowered, "hedged") {
        Ok(RoutingPolicy::Hedged)
    } else {
        Err(BridgeError::UnknownPolicy(lowered))
    }
}

/// The keys of one provider entry, each as given or absent.
#[derive(Debug)]
pub struct ProviderFields {
    pub name: Option<String>,
    pub kind: Option<String>,
    pub base_url: Option<String>,
    pub api_key: Option<String>,
    pub timeout_ms: Option<u64>,
    pub weight: Option<u32>,
}

/// The mathematical value of a [`ProviderFields`].
pub struct ProviderFieldsView {
    pub name: Option<Seq<char>>,
    pub kind: Option<Seq<char>>,
    pub base_url: Option<Seq<char>>,
    pub api_key: Option<Seq<char>>,
    pub timeout_ms: Option<u64>,
    pub weight: Option<u32>,
}

/// The view of an optional string.
pub open spec fn opt_text(o: Option<String>) -> Option<Seq<char>> {
    match o {
        Some(s) => Some(s@),
        None => None,
    }
}

impl View for ProviderFields {
    type V = ProviderFieldsView;

    open spec fn view(&self) -> ProviderFieldsView {
        ProviderFieldsView {
            name: opt_text(self.name),
            kind: opt_text(self.kind),
            base_url: opt_text(self.base_url),
            api_key: opt_text(self.api_key),
            timeout_ms: self.timeout_ms,
            weight: self.weight,
        }
    }
}

/// The first problem with a provider entry, if any: the first missing key in
/// the order name, kind, base_url, api_key, then an unknown kind.
pub open spec fn entry_error(f: ProviderFieldsView) -> Option<BridgeErrorView> {
    if f.name is None {
        Some(BridgeErrorView::MissingField(ProviderField::Name))
    } else if f.kind is None {
        Some(BridgeErrorView::MissingField(ProviderField::Kind))
    } else if f.base_url is None {
        Some(BridgeErrorView::MissingField(ProviderField::BaseUrl))
    } else if f.api_key is None {
        Some(BridgeErrorView::MissingField(ProviderField::ApiKey))
    } else if kind_named(f.kind->0) is None {
        Some(BridgeErrorView::UnknownKind(ascii_lower(f.kind->0)))
    } else {
        None
    }
}

/// The provider holds what a well-formed entry gives: its texts, its kind, and
/// its timeout and weight with the defaults filling the gaps.
pub open spec fn provider_from_entry(p: Provider, f: ProviderFieldsView) -> bool {
    &&& f.name == Some(p.name@)
    &&& f.base_url == Some(p.base_url@)
    &&& f.api_key == Some(p.api_key@)
    &&& f.kind matches Some(k) && kind_named(k) == Some(p.kind)
    &&& p.timeout_ms == read_timeout(f.timeout_ms)
    &&& p.weight == read_weight(f.weight)
}

/// Reads one provider entry.
pub fn provider_from_fields(fields: ProviderFields) -> (r: Result<Provider, BridgeError>)
    ensures
        r is Ok <==> entry_error(fields@) is None,
        r matches Err(e) ==> Some(e@) == entry_error(fields@),
        r matches Ok(p) ==> provider_from_entry(p, fields@),
{
    let ghost f = fields@;
    let name = match fields.name {
        Some(n) => n,
        None => return Err(BridgeError::MissingField(ProviderField::Name)),
    };
    let kind_text = match fields.kind {
        Some(k) => k,
        None => return Err(BridgeError::MissingField(ProviderField::Kind)),
    };
    let base_url = match fields.base_url {
        Some(b) => b,
        None => return Err(BridgeError::MissingField(ProviderField::BaseUrl)),
    };
    let api_key = match fields.api_key {
        Some(a) => a,
        None => return Err(BridgeError::MissingField(ProviderField::ApiKey)),
    };
    let timeout_ms = match fields.timeout_ms {
        Some(t) => t,
        None => default_timeout_ms(),
    };
    let weight = match fields.weight {
        Some(w) => w,
        None => default_weight(),
    };
    let kind = match parse_kind(kind_text.as_str()) {
        Ok(k) => k,
        Err(e) => return Err(e),
    };
    Ok(Provider { name, kind, base_url, api_key, timeout_ms, weight })
}

/// Builds the router configuration from the binding's arguments, once the
/// provider entries have been read: the policy name is read, then the
/// configuration is validated.
pub fn router_config(providers: Vec<Provider>, policy: &str, hedge_k: usize) -> (r: Result<RouterConfig, BridgeError>)
    ensures
        r is Ok <==> policy_named(policy@) is Some && providers.len() > 0,
        r matches Ok(c) ==> {
            &&& c.providers@ == providers@
            &&& policy_named(policy@) == Some(c.policy)
            &&& c.hedge_k == hedge_k
        },
        r matches Err(e) ==> {
            ||| policy_named(policy@) is None && e@ == BridgeErrorView::UnknownPolicy(ascii_lower(policy@))
            ||| policy_named(policy@) is Some && providers.len() == 0
                && e@ == BridgeErrorView::Router(RouterErrorView::NoProviders)
        },
{
    let policy = match parse_policy(policy) {
        Ok(p) => p,
        Err(e) => return Err(e),
    };
    let config = RouterConfig { providers, policy, hedge_k };
    match config.validate() {
        Ok(()) => Ok(config),
        Err(e) => Err(BridgeError::Router(e)),
    }
}

/// Reading a kind or policy name does not depend on ASCII case.
pub proof fn law_names_ignore_case(s: Seq<char>)
    ensures
        kind_named(ascii_lower(s)) == kind_named(s),
        policy_named(ascii_lower(s)) == policy_named(s),
{
    law_ascii_lower_idempotent(s);
}

/// The lower-case name of a provider kind, as the serialised form writes it.
pub open spec fn kind_label(k: ProviderKind) -> Seq<char> {
    match k {
        ProviderKind::OpenAI => "openai"@,
        ProviderKind::Anthropic => "anthropic"@,
    }
}

/// The lower-case name of a routing policy, as the serialised form writes it.
pub open spec fn policy_label(p: RoutingPolicy) -> Seq<char> {
    match p {
        RoutingPolicy::Sequential => "sequential"@,
        RoutingPolicy::Hedged => "hedged"@,
    }
}

/// Every kind and policy is read back from its lower-case name.
pub proof fn law_labels_read_back(k: ProviderKind, p: RoutingPolicy)
    ensures
        kind_named(kind_label(k)) == Some(k),
        policy_named(policy_label(p)) == Some(p),
{
    reveal_strlit("openai");
    reveal_strlit("anthropic");
    reveal_strlit("sequential");
    reveal_strlit("hedged");
    assert(ascii_lower("openai"@) =~= "openai"@);
    assert(ascii_lower("anthropic"@) =~= "anthropic"@);
    assert(ascii_lower("sequential"@) =~= "sequential"@);
    assert(ascii_lower("hedged"@) =~= "hedged"@);
    assert("openai"@ != "anthropic"@);
    assert("sequential"@ != "hedged"@);
}

/// The entry that describes a provider: its texts, its kind's lower-case name,
/// and its timeout and weight left out where they are the defaults.
pub open spec fn entry_of(p: Provider) -> ProviderFieldsView {
    ProviderFieldsView {
        name: Some(p.name@),
        kind: Some(kind_label(p.kind)),
        base_url: Some(p.base_url@),
        api_key: Some(p.api_key@),
        timeout_ms: written_timeout(p.timeout_ms),
        weight: written_weight(p.weight),
    }
}

/// A provider read from an entry holds the entry's texts unchanged, keeps a given
/// timeout and weight as they are (whatever their value), and takes 30000 ms and
/// weight 1 only where they are absent.
pub proof fn law_entry_values_kept(p: Provider, f: ProviderFieldsView)
    requires
        provider_from_entry(p, f),
    ensures
        f.name == Some(p.name@),
        f.base_url == Some(p.base_url@),
        f.api_key == Some(p.api_key@),
        f.timeout_ms matches Some(t) ==> p.timeout_ms == t,
        f.timeout_ms is None ==> p.timeout_ms == 30_000,
        f.weight matches Some(w) ==> p.weight == w,
        f.weight is None ==> p.weight == 1,
{
}

/// The problems of an entry are reported in a fixed order: a missing `name`
/// first, then `kind`, `base_url`, `api_key`, and an unknown kind only when all
/// four are present; an entry with the four keys and a known kind is accepted.
pub proof fn law_entry_error_order(f: ProviderFieldsView)
    ensures
        f.name is None ==> entry_error(f) == Some(BridgeErrorView::MissingField(ProviderField::Name)),
        f.name is Some && f.kind is None ==> entry_error(f) == Some(
            BridgeErrorView::MissingField(ProviderField::Kind),
        ),
        f.name is Some && f.kind is Some && f.base_url is None ==> entry_error(f) == Some(
            BridgeErrorView::MissingField(ProviderField::BaseUrl),
        ),
        f.name is Some && f.kind is Some && f.base_url is Some && f.api_key is None ==> entry_error(f)
            == Some(BridgeErrorView::MissingField(ProviderField::ApiKey)),
        f.name is Some && f.kind is Some && f.base_url is Some && f.api_key is Some ==> (entry_error(f)
            is None <==> (ascii_lower(f.kind->0) == "openai"@ || ascii_lower(f.kind->0) == "anthropic"@)),
{
}

/// Only a name that lower-cases to a kind's or policy's label denotes it.
pub proof fn law_names_are_labels(s: Seq<char>)
    ensures
        kind_named(s) matches Some(k) ==> ascii_lower(s) == kind_label(k),
        policy_named(s) matches Some(p) ==> ascii_lower(s) == policy_label(p),
        ascii_lower(s) == "openai"@ <==> kind_named(s) == Some(ProviderKind::OpenAI),
        ascii_lower(s) == "sequential"@ <==> policy_named(s) == Some(RoutingPolicy::Sequential),
{
    reveal_strlit("openai");
    reveal_strlit("anthropic");
    reveal_strlit("sequential");
    reveal_strlit("hedged");
    assert("openai"@.len() != "anthropic"@.len());
    assert("sequential"@.len() != "hedged"@.len());
}

/// Reading the entry that describes a provider gives back that provider.
pub proof fn law_entry_round_trip(p: Provider)
    ensures
        entry_error(entry_of(p)) is None,
        provider_from_entry(p, entry_of(p)),
{
    law_labels_read_back(p.kind, RoutingPolicy::Sequential);
    law_defaults_round_trip(p.timeout_ms, p.weight);
}

#[verifier::external_type_specification]
#[verifier::external_body]
pub struct ExJsonValue(serde_json::Value);

/// What `serde_json::from_str::<serde_json::Value>` makes of a text: the
/// document's value, or the parser's description of why the text is not one.
pub uninterp spec fn json_parse(text: Seq<char>) -> Result<serde_json::Value, Seq<char>>;

/// Whether a text is one JSON document, as `serde_json::from_str` accepts it.
pub open spec fn json_text_parses(text: Seq<char>) -> bool {
    json_parse(text) is Ok
}

/// `serde_json::from_str::<serde_json::Value>`, its error rendered by
/// `<serde_json::Error as Display>` (`to_string`). The outcome depends on the
/// text alone and is named `json_parse`; what value or text it is is not
/// stated beyond that name.
#[verifier::external_body]
fn json_from_str(text: &str) -> (r: Result<serde_json::Value, String>)
    ensures
        match r {
            Ok(v) => json_parse(text@) == Ok::<serde_json::Value, Seq<char>>(v),
            Err(m) => json_parse(text@) == Err::<serde_json::Value, Seq<char>>(m@),
        },
{
    serde_json::from_str(text).map_err(|e: serde_json::Error| e.to_string())
}

/// Turns the parser's outcome into the binding's: a value passes through
/// unchanged, an error becomes `InvalidBody` carrying the parser's text.
pub fn body_from_parse(parsed: Result<serde_json::Value, String>) -> (r: Result<serde_json::Value, BridgeError>)
    ensures
        match parsed {
            Ok(v) => r matches Ok(w) && w == v,
            Err(m) => r matches Err(e) && e@ == BridgeErrorView::InvalidBody(m@),
        },
{
    match parsed {
        Ok(v) => Ok(v),
        Err(m) => Err(BridgeError::InvalidBody(m)),
    }
}

/// Parses the JSON request body handed to `chat_completions`: the document's
/// value, which is forwarded upstream unchanged, or `InvalidBody` with the
/// parser's text.
pub fn parse_request_body(body_json: &str) -> (r: Result<serde_json::Value, BridgeError>)
    ensures
        r is Ok <==> json_text_parses(body_json@),
        r matches Ok(v) ==> json_parse(body_json@) == Ok::<serde_json::Value, Seq<char>>(v),
        r matches Err(e) ==> json_parse(body_json@) matches Err(m) && e@ == BridgeErrorView::InvalidBody(m),
{
    body_from_parse(json_from_str(body_json))
}

} // verus!
