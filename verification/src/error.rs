//! The router's error type and the text it renders.

use vstd::prelude::*;
use vstd::string::*;

use crate::text::{debug_list, debug_list_text, debug_quoted, debug_text, decimal, push_decimal};

verus! {

/// Why a request through the router failed.
#[derive(Debug)]
pub enum RouterError {
    /// Every provider that was tried failed softly; one cause per failure.
    AllExhausted { causes: Vec<String> },
    /// A provider answered with a status that retrying elsewhere cannot fix.
    HardFailure { provider: String, status: u16, body: String },
    /// The HTTP transport failed; the text is the transport's own description.
    Http(String),
    /// A body could not be read as JSON; the text is the parser's description.
    Json(String),
    /// The configuration names no provider.
    NoProviders,
}

/// The mathematical value of a [`RouterError`].
pub enum RouterErrorView {
    AllExhausted { causes: Seq<Seq<char>> },
    HardFailure { provider: Seq<char>, status: u16, body: Seq<char> },
    Http(Seq<char>),
    Json(Seq<char>),
    NoProviders,
}

impl View for RouterError {
    type V = RouterErrorView;

    open spec fn view(&self) -> RouterErrorView {
        match self {
            RouterError::AllExhausted { causes } => RouterErrorView::AllExhausted {
                causes: causes.deep_view(),
            },
            RouterError::HardFailure { provider, status, body } => RouterErrorView::HardFailure {
                provider: provider@,
                status: *status,
                body: body@,
            },
            RouterError::Http(m) => RouterErrorView::Http(m@),
            RouterError::Json(m) => RouterErrorView::Json(m@),
            RouterError::NoProviders => RouterErrorView::NoProviders,
        }
    }
}

/// The text that describes an error, word for word as the router reports it.
pub open spec fn error_message(e: RouterErrorView) -> Seq<char> {
    match e {
        RouterErrorView::AllExhausted { causes } => "all providers exhausted: "@ + debug_list(causes),
        RouterErrorView::HardFailure { provider, status, body } => "hard failure on provider "@
            + debug_quoted(provider) + ": "@ + decimal(status as nat) + " "@ + body,
        RouterErrorView::Http(m) => "http: "@ + m,
        RouterErrorView::Json(m) => "json: "@ + m,
        RouterErrorView::NoProviders => "no providers configured"@,
    }
}

impl RouterError {
    /// The text that describes the error.
    pub fn message(&self) -> (r: String)
        ensures
            r@ == error_message(self@),
    {
        match self {
            RouterError::AllExhausted { causes } => {
                let mut out = "all providers exhausted: ".to_owned();
                let list = debug_list_text(causes);
                out.append(list.as_str());
                out
            },
            RouterError::HardFailure { provider, status, body } => {
                let mut out = "hard failure on provider ".to_owned();
                let quoted = debug_text(provider.as_str());
                out.append(quoted.as_str());
                out.append(": ");
                push_decimal(&mut out, *status as u64);
                out.append(" ");
                out.append(body.as_str());
                out
            },
            RouterError::Http(m) => {
                let mut out = "http: ".to_owned();
                out.append(m.as_str());
                out
            },
            RouterError::Json(m) => {
                let mut out = "json: ".to_owned();
                out.append(m.as_str());
                out
            },
            RouterError::NoProviders => "no providers configured".to_owned(),
        }
    }
}

} // verus!
