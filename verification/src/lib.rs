//! In-process router for LLM providers.
//!
//! A request is routed to upstream providers under a policy:
//! - sequential: providers are tried in order; a soft failure (429, 5xx,
//!   transport errors) moves on to the next one, a hard failure (any other
//!   non-2xx answer) is returned at once;
//! - hedged: the first `hedge_k` providers (clamped to `[1, n]`) are fired at
//!   once and the first answer that is not a soft failure decides.
//!
//! The policies are state machines ([`routing`]): the caller performs each
//! attempt and hands its outcome back. [`config`] holds the configuration and
//! the request URL, [`status`] the failure model, [`error`] the error type and
//! its text, [`bridge`] what the Python binding decides, and [`text`] the
//! character-level helpers they share.

pub mod bridge;
pub mod config;
pub mod error;
pub mod routing;
pub mod status;
pub mod text;

pub use config::{build_url, Provider, ProviderKind, RouterConfig, RoutingPolicy};
pub use error::RouterError;
