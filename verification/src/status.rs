//! The failure model: how an upstream HTTP status decides what the router does next.

use vstd::prelude::*;
use vstd::string::*;

use crate::config::Provider;
use crate::error::{RouterError, RouterErrorView};
use crate::text::{decimal, push_decimal};

verus! {

/// How an upstream answer is treated.
#[derive(Debug, Clone, Copy, PartialEq, Eq, Structural)]
pub enum StatusClass {
    /// A 2xx answer: its body is the response.
    Success,
    /// 429 or 5xx: the next provider may be tried.
    Soft,
    /// Any other status: retrying elsewhere with the same payload will not help.
    Hard,
}

/// Whether a status is in the 2xx range.
pub open spec fn is_success_status(status: u16) -> bool {
    200 <= status && status < 300
}

/// The class of an upstream status.
pub open spec fn status_class(status: u16) -> StatusClass {
    if is_success_status(status) {
        StatusClass::Success
    } else if status == 429 || (500 <= status && status < 600) {
        StatusClass::Soft
    } else {
        StatusClass::Hard
    }
}

/// Classifies an upstream status.
pub fn classify_status(status: u16) -> (r: StatusClass)
    ensures
        r == status_class(status),
{
    if 200 <= status && status < 300 {
        StatusClass::Success
    } else if status == 429 || (500 <= status && status < 600) {
        StatusClass::Soft
    } else {
        StatusClass::Hard
    }
}

/// Whether a status is in the 2xx range, as `StatusCode::is_success` tells it.
pub fn status_is_success(status: u16) -> (r: bool)
    ensures
        r == is_success_status(status),
{
    200 <= status && status < 300
}

/// Every status falls in exactly one class; 429 and all of 5xx are soft;
/// every other 4xx is hard, and so is any non-2xx status outside 4xx and 5xx.
pub proof fn law_failure_model(status: u16)
    ensures
        is_success_status(status) <==> status_class(status) == StatusClass::Success,
        status_class(status) == StatusClass::Success <==> 200 <= status && status < 300,
        (status == 429 || (500 <= status && status < 600)) ==> status_class(
            status,
        ) == StatusClass::Soft,
        (400 <= status && status < 500 && status != 429) ==> status_class(status)
            == StatusClass::Hard,
        (!is_success_status(status) && !(400 <= status && status < 600)) ==> status_class(status)
            == StatusClass::Hard,
{
}

/// The single cause recorded for a soft failure: `"<name> -> <status> <body>"`.
pub open spec fn soft_cause(name: Seq<char>, status: u16, body: Seq<char>) -> Seq<char> {
    name + " -> "@ + decimal(status as nat) + " "@ + body
}

/// The error that a non-2xx answer of a provider becomes.
pub open spec fn status_failure(name: Seq<char>, status: u16, body: Seq<char>) -> RouterErrorView {
    if status_class(status) == StatusClass::Soft {
        RouterErrorView::AllExhausted { causes: seq![soft_cause(name, status, body)] }
    } else {
        RouterErrorView::HardFailure { provider: name, status, body }
    }
}

/// The error that a non-2xx answer `status` with body text `body` from
/// `provider` becomes: a soft failure carries one cause, a hard one the answer.
pub fn failure_for_status(provider: &Provider, status: u16, body: String) -> (e: RouterError)
    requires
        !is_success_status(status),
    ensures
        e@ == status_failure(provider.name@, status, body@),
{
    if status == 429 || (500 <= status && status < 600) {
        let mut cause = provider.name.as_str().to_owned();
        cause.append(" -> ");
        push_decimal(&mut cause, status as u64);
        cause.append(" ");
        cause.append(body.as_str());
        let mut causes: Vec<String> = Vec::new();
        causes.push(cause);
        proof {
            assert(causes.deep_view() =~= seq![soft_cause(provider.name@, status, body@)]);
        }
        RouterError::AllExhausted { causes }
    } else {
        RouterError::HardFailure { provider: provider.name.as_str().to_owned(), status, body }
    }
}


/// A non-2xx answer becomes a soft failure exactly for 429 and 5xx: then it is
/// `AllExhausted` with the single cause `"<name> -> <status in decimal> <body>"`.
/// Every other non-2xx answer (every 4xx but 429 among them, 404 and 408
/// included) becomes `HardFailure` carrying the provider's name, the status and
/// the body unchanged.
pub proof fn law_failure_for_status(name: Seq<char>, status: u16, body: Seq<char>)
    requires
        !(200 <= status && status < 300),
    ensures
        (status == 429 || (500 <= status && status < 600)) ==> status_failure(name, status, body)
            == (RouterErrorView::AllExhausted {
            causes: seq![name + " -> "@ + decimal(status as nat) + " "@ + body],
        }),
        !(status == 429 || (500 <= status && status < 600)) ==> status_failure(name, status, body)
            == (RouterErrorView::HardFailure { provider: name, status: status, body: body }),
        (400 <= status && status < 500 && status != 429) ==> (status_failure(name, status, body)
            is HardFailure),
{
}

} // verus!
