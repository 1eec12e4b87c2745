//! The routing policies as state machines. The caller performs each upstream
//! attempt and hands its outcome back; the machine decides what happens next.

use vstd::prelude::*;
use vstd::string::*;

use crate::config::{Provider, RouterConfig};
use crate::error::{error_message, RouterError, RouterErrorView};

verus! {

/// The outcome of one attempt against one provider.
#[derive(Debug)]
pub enum Attempt {
    /// The provider answered with a response; the caller holds it.
    Succeeded,
    /// The attempt failed with this error.
    Failed(RouterError),
}

/// The mathematical value of an [`Attempt`].
pub enum AttemptView {
    Succeeded,
    Failed(RouterErrorView),
}

impl View for Attempt {
    type V = AttemptView;

    open spec fn view(&self) -> AttemptView {
        match self {
            Attempt::Succeeded => AttemptView::Succeeded,
            Attempt::Failed(e) => AttemptView::Failed(e@),
        }
    }
}

/// A failure that lets the policy move on: any failure but a hard one.
pub open spec fn is_soft_failure(a: AttemptView) -> bool {
    a matches AttemptView::Failed(e) && !(e is HardFailure)
}

/// The error of a failed attempt.
pub open spec fn failure_of(a: AttemptView) -> RouterErrorView {
    match a {
        AttemptView::Failed(e) => e,
        AttemptView::Succeeded => RouterErrorView::NoProviders,
    }
}

/// The names of the providers, in order.
pub open spec fn provider_names(providers: Seq<Provider>) -> Seq<Seq<char>> {
    providers.map_values(|p: Provider| p.name@)
}

// ---------------------------------------------------------------------------
// Sequential policy
// ---------------------------------------------------------------------------

/// A request being routed sequentially: the provider in flight and the causes
/// gathered from the soft failures so far.
#[derive(Debug)]
pub struct SequentialRun {
    next: usize,
    causes: Vec<String>,
}

/// The mathematical value of a [`SequentialRun`].
pub struct SequentialRunView {
    pub next: nat,
    pub causes: Seq<Seq<char>>,
}

impl View for SequentialRun {
    type V = SequentialRunView;

    closed spec fn view(&self) -> SequentialRunView {
        SequentialRunView { next: self.next as nat, causes: self.causes.deep_view() }
    }
}

/// What the caller does next under the sequential policy.
#[derive(Debug)]
pub enum SequentialStep {
    /// Send the request to the provider at this index.
    Try(usize),
    /// Return the response of the last attempt.
    Finish,
    /// Return this error.
    Fail(RouterError),
}

/// The mathematical value of a [`SequentialStep`].
pub enum SequentialStepView {
    Try(nat),
    Finish,
    Fail(RouterErrorView),
}

impl View for SequentialStep {
    type V = SequentialStepView;

    open spec fn view(&self) -> SequentialStepView {
        match self {
            SequentialStep::Try(i) => SequentialStepView::Try(*i as nat),
            SequentialStep::Finish => SequentialStepView::Finish,
            SequentialStep::Fail(e) => SequentialStepView::Fail(e@),
        }
    }
}

/// The cause recorded when a provider fails softly: `"<name>: <error message>"`.
pub open spec fn sequential_cause(name: Seq<char>, e: RouterErrorView) -> Seq<char> {
    name + ": "@ + error_message(e)
}

/// How a sequential run over `n` providers begins.
pub open spec fn sequential_start(n: nat) -> (SequentialRunView, SequentialStepView) {
    let run = SequentialRunView { next: 0, causes: Seq::empty() };
    if n == 0 {
        (run, SequentialStepView::Fail(RouterErrorView::AllExhausted { causes: Seq::empty() }))
    } else {
        (run, SequentialStepView::Try(0))
    }
}

/// One step of a sequential run: a success ends it, a hard failure ends it with
/// that failure, a soft failure records a cause and moves to the next provider,
/// or, after the last one, ends with all causes.
pub open spec fn sequential_next(
    names: Seq<Seq<char>>,
    run: SequentialRunView,
    a: AttemptView,
) -> (SequentialRunView, SequentialStepView) {
    match a {
        AttemptView::Succeeded => (run, SequentialStepView::Finish),
        AttemptView::Failed(e) => if e is HardFailure {
            (run, SequentialStepView::Fail(e))
        } else {
            let causes = run.causes.push(sequential_cause(names[run.next as int], e));
            let next = run.next + 1;
            let run2 = SequentialRunView { next, causes };
            if next < names.len() {
                (run2, SequentialStepView::Try(next))
            } else {
                (run2, SequentialStepView::Fail(RouterErrorView::AllExhausted { causes }))
            }
        },
    }
}

impl SequentialRun {
    /// Begins routing a request sequentially: the first provider is tried first.
    pub fn start(config: &RouterConfig) -> (res: (SequentialRun, SequentialStep))
        ensures
            (res.0@, res.1@) == sequential_start(config.providers.len() as nat),
    {
        let run = SequentialRun { next: 0, causes: Vec::new() };
        proof {
            assert(run@.causes =~= Seq::<Seq<char>>::empty());
        }
        if config.providers.len() == 0 {
            let causes: Vec<String> = Vec::new();
            proof {
                assert(causes.deep_view() =~= Seq::<Seq<char>>::empty());
            }
            (run, SequentialStep::Fail(RouterError::AllExhausted { causes }))
        } else {
            (run, SequentialStep::Try(0))
        }
    }

    /// The index of the provider whose attempt the run waits for.
    pub fn in_flight(&self) -> (r: usize)
        ensures
            r == self@.next,
    {
        self.next
    }

    /// Takes the outcome of the attempt against the provider in flight and
    /// decides what happens next.
    pub fn on_attempt(&mut self, config: &RouterConfig, attempt: Attempt) -> (step: SequentialStep)
        requires
            old(self)@.next < config.providers.len(),
        ensures
            (final(self)@, step@) == sequential_next(
                provider_names(config.providers@),
                old(self)@,
                attempt@,
            ),
    {
        let ghost names = provider_names(config.providers@);
        match attempt {
            Attempt::Succeeded => SequentialStep::Finish,
            Attempt::Failed(e) => {
                if let RouterError::HardFailure { .. } = e {
                    return SequentialStep::Fail(e);
                }
                let ghost old_causes = self.causes.deep_view();
                let mut cause = config.providers[self.next].name.as_str().to_owned();
                cause.append(": ");
                let text = e.message();
                cause.append(text.as_str());
                proof {
                    assert(names[self.next as int] == config.providers@[self.next as int].name@);
                }
                self.causes.push(cause);
                proof {
                    assert(self.causes.deep_view() =~= old_causes.push(
                        sequential_cause(names[old(self)@.next as int], e@),
                    ));
                }
                self.next = self.next + 1;
                if self.next < config.providers.len() {
                    SequentialStep::Try(self.next)
                } else {
                    let causes = self.causes.clone();
                    proof {
                        assert(causes.deep_view() =~= self.causes.deep_view());
                    }
                    SequentialStep::Fail(RouterError::AllExhausted { causes })
                }
            },
        }
    }
}


// ---------------------------------------------------------------------------
// Hedged policy
// ---------------------------------------------------------------------------

/// The number of providers fired at once: `hedge_k` clamped to `[1, n]`.
pub open spec fn hedge_width(hedge_k: nat, n: nat) -> nat {
    if hedge_k < 1 {
        1
    } else if hedge_k > n {
        n
    } else {
        hedge_k
    }
}

/// The number of providers fired at once for `n >= 1` providers.
pub fn hedge_fan_out(hedge_k: usize, n: usize) -> (r: usize)
    requires
        n >= 1,
    ensures
        r == hedge_width(hedge_k as nat, n as nat),
{
    if hedge_k < 1 {
        1
    } else if hedge_k > n {
        n
    } else {
        hedge_k
    }
}

/// A request being routed hedged: how many fired attempts are still
/// outstanding and the causes gathered from the soft failures so far.
#[derive(Debug)]
pub struct HedgedRun {
    outstanding: usize,
    causes: Vec<String>,
}

/// The mathematical value of a [`HedgedRun`].
pub struct HedgedRunView {
    pub outstanding: nat,
    pub causes: Seq<Seq<char>>,
}

impl View for HedgedRun {
    type V = HedgedRunView;

    closed spec fn view(&self) -> HedgedRunView {
        HedgedRunView { outstanding: self.outstanding as nat, causes: self.causes.deep_view() }
    }
}

/// What the caller does next under the hedged policy.
#[derive(Debug)]
pub enum HedgedStep {
    /// Wait for the next outstanding attempt to complete.
    Wait,
    /// Return the response of the last attempt (and drop the others).
    Finish,
    /// Return this error (and drop the other attempts).
    Fail(RouterError),
}

/// The mathematical value of a [`HedgedStep`].
pub enum HedgedStepView {
    Wait,
    Finish,
    Fail(RouterErrorView),
}

impl View for HedgedStep {
    type V = HedgedStepView;

    open spec fn view(&self) -> HedgedStepView {
        match self {
            HedgedStep::Wait => HedgedStepView::Wait,
            HedgedStep::Finish => HedgedStepView::Finish,
            HedgedStep::Fail(e) => HedgedStepView::Fail(e@),
        }
    }
}

/// How a hedged run begins: the first `hedge_width` providers are fired.
pub open spec fn hedged_start(hedge_k: nat, n: nat) -> (HedgedRunView, nat) {
    let k = hedge_width(hedge_k, n);
    (HedgedRunView { outstanding: k, causes: Seq::empty() }, k)
}

/// One completed attempt of a hedged run, in completion order: a success ends
/// it, a hard failure ends it with that failure, a soft failure records the
/// error's message and, once no attempt is outstanding, ends with all causes.
pub open spec fn hedged_next(run: HedgedRunView, a: AttemptView) -> (HedgedRunView, HedgedStepView) {
    match a {
        AttemptView::Succeeded => (run, HedgedStepView::Finish),
        AttemptView::Failed(e) => if e is HardFailure {
            (run, HedgedStepView::Fail(e))
        } else {
            let causes = run.causes.push(error_message(e));
            let outstanding = (run.outstanding - 1) as nat;
            let run2 = HedgedRunView { outstanding, causes };
            if outstanding == 0 {
                (run2, HedgedStepView::Fail(RouterErrorView::AllExhausted { causes }))
            } else {
                (run2, HedgedStepView::Wait)
            }
        },
    }
}

impl HedgedRun {
    /// Begins routing a request hedged; the caller fires providers
    /// `0 .. fan_out` at once, where `fan_out` is the second result.
    pub fn start(config: &RouterConfig) -> (res: (HedgedRun, usize))
        requires
            config.providers.len() >= 1,
        ensures
            (res.0@, res.1 as nat) == hedged_start(
                config.hedge_k as nat,
                config.providers.len() as nat,
            ),
    {
        let k = hedge_fan_out(config.hedge_k, config.providers.len());
        let run = HedgedRun { outstanding: k, causes: Vec::new() };
        proof {
            assert(run@.causes =~= Seq::<Seq<char>>::empty());
        }
        (run, k)
    }

    /// The number of fired attempts not yet handed back.
    pub fn outstanding(&self) -> (r: usize)
        ensures
            r == self@.outstanding,
    {
        self.outstanding
    }

    /// Takes the outcome of the next attempt to complete and decides what
    /// happens next.
    pub fn on_attempt(&mut self, attempt: Attempt) -> (step: HedgedStep)
        requires
            old(self)@.outstanding > 0,
        ensures
            (final(self)@, step@) == hedged_next(old(self)@, attempt@),
    {
        match attempt {
            Attempt::Succeeded => HedgedStep::Finish,
            Attempt::Failed(e) => {
                if let RouterError::HardFailure { .. } = e {
                    return HedgedStep::Fail(e);
                }
                let ghost old_causes = self.causes.deep_view();
                let text = e.message();
                self.causes.push(text);
                proof {
                    assert(self.causes.deep_view() =~= old_causes.push(error_message(e@)));
                }
                self.outstanding = self.outstanding - 1;
                if self.outstanding == 0 {
                    let causes = self.causes.clone();
                    proof {
                        assert(causes.deep_view() =~= self.causes.deep_view());
                    }
                    HedgedStep::Fail(RouterError::AllExhausted { causes })
                } else {
                    HedgedStep::Wait
                }
            },
        }
    }
}


// ---------------------------------------------------------------------------
// Whole runs
// ---------------------------------------------------------------------------

/// Every attempt in the sequence is a soft failure.
pub open spec fn all_soft(attempts: Seq<AttemptView>) -> bool {
    forall|i: int| 0 <= i < attempts.len() ==> #[trigger] is_soft_failure(attempts[i])
}

/// A sequential run fed the given attempt outcomes one after another, from its
/// start, for as long as it asks for another attempt.
pub open spec fn sequential_replay(
    names: Seq<Seq<char>>,
    attempts: Seq<AttemptView>,
) -> (SequentialRunView, SequentialStepView)
    decreases attempts.len(),
{
    if attempts.len() == 0 {
        sequential_start(names.len())
    } else {
        let prev = sequential_replay(names, attempts.drop_last());
        if prev.1 is Try {
            sequential_next(names, prev.0, attempts.last())
        } else {
            prev
        }
    }
}

/// The causes that a sequential run records for a sequence of soft failures,
/// the i-th attempt being against the i-th provider.
pub open spec fn sequential_causes(names: Seq<Seq<char>>, attempts: Seq<AttemptView>) -> Seq<Seq<char>> {
    Seq::new(attempts.len(), |i: int| sequential_cause(names[i], failure_of(attempts[i])))
}

/// A sequential run begins with the first provider and no cause; with no
/// provider at all it fails at once with `AllExhausted` and no cause.
pub proof fn law_sequential_start(n: nat)
    ensures
        sequential_start(n).0.next == 0,
        sequential_start(n).0.causes.len() == 0,
        n > 0 ==> sequential_start(n).1 == SequentialStepView::Try(0),
        n == 0 ==> sequential_start(n).1 == SequentialStepView::Fail(
            RouterErrorView::AllExhausted { causes: Seq::empty() },
        ),
{
}

/// Sequential routing tries the providers in their configured order, each once:
/// after `m` soft failures (fewer than there are providers) the run asks for
/// provider `m` and holds one cause per failure, in order.
pub proof fn law_sequential_tries_in_order(names: Seq<Seq<char>>, attempts: Seq<AttemptView>)
    requires
        all_soft(attempts),
        attempts.len() < names.len(),
    ensures
        sequential_replay(names, attempts).0.next == attempts.len(),
        sequential_replay(names, attempts).0.causes == sequential_causes(names, attempts),
        sequential_replay(names, attempts).1 == SequentialStepView::Try(attempts.len()),
    decreases attempts.len(),
{
    if attempts.len() > 0 {
        let prefix = attempts.drop_last();
        assert forall|i: int| 0 <= i < prefix.len() implies #[trigger] is_soft_failure(prefix[i]) by {
            assert(is_soft_failure(attempts[i]));
        }
        law_sequential_tries_in_order(names, prefix);
        assert(is_soft_failure(attempts[attempts.len() - 1]));
        assert(sequential_causes(names, attempts) =~= sequential_causes(names, prefix).push(
            sequential_cause(names[prefix.len() as int], failure_of(attempts.last())),
        ));
    } else {
        assert(sequential_causes(names, attempts) =~= Seq::<Seq<char>>::empty());
    }
}

/// When every provider fails softly, sequential routing fails with
/// `AllExhausted`, holding exactly one cause per provider, in provider order.
pub proof fn law_sequential_exhaustion(names: Seq<Seq<char>>, attempts: Seq<AttemptView>)
    requires
        all_soft(attempts),
        attempts.len() == names.len(),
        names.len() > 0,
    ensures
        sequential_replay(names, attempts).1 == SequentialStepView::Fail(
            RouterErrorView::AllExhausted { causes: sequential_causes(names, attempts) },
        ),
        sequential_causes(names, attempts).len() == names.len(),
{
    let prefix = attempts.drop_last();
    assert forall|i: int| 0 <= i < prefix.len() implies #[trigger] is_soft_failure(prefix[i]) by {
        assert(is_soft_failure(attempts[i]));
    }
    law_sequential_tries_in_order(names, prefix);
    assert(is_soft_failure(attempts[attempts.len() - 1]));
    assert(sequential_causes(names, attempts) =~= sequential_causes(names, prefix).push(
        sequential_cause(names[prefix.len() as int], failure_of(attempts.last())),
    ));
}

/// Sequential routing stops at the first attempt that is not a soft failure:
/// a success is returned, a hard failure bubbles up unchanged, and no later
/// provider is tried.
pub proof fn law_sequential_first_decisive(
    names: Seq<Seq<char>>,
    attempts: Seq<AttemptView>,
    m: nat,
)
    requires
        m < names.len(),
        m < attempts.len(),
        all_soft(attempts.take(m as int)),
        !is_soft_failure(attempts[m as int]),
    ensures
        sequential_replay(names, attempts).1 == (match attempts[m as int] {
            AttemptView::Succeeded => SequentialStepView::Finish,
            AttemptView::Failed(e) => SequentialStepView::Fail(e),
        }),
    decreases attempts.len(),
{
    let prefix = attempts.drop_last();
    if attempts.len() == m + 1 {
        assert(prefix =~= attempts.take(m as int));
        law_sequential_tries_in_order(names, prefix);
    } else {
        assert(prefix.take(m as int) =~= attempts.take(m as int));
        law_sequential_first_decisive(names, prefix, m);
    }
}

/// A hedged run fed the given completions one after another, from its start,
/// for as long as it waits for another.
pub open spec fn hedged_replay(hedge_k: nat, n: nat, attempts: Seq<AttemptView>) -> (
    HedgedRunView,
    HedgedStepView,
)
    decreases attempts.len(),
{
    if attempts.len() == 0 {
        (hedged_start(hedge_k, n).0, HedgedStepView::Wait)
    } else {
        let prev = hedged_replay(hedge_k, n, attempts.drop_last());
        if prev.1 is Wait {
            hedged_next(prev.0, attempts.last())
        } else {
            prev
        }
    }
}

/// The causes that a hedged run records for a sequence of soft failures, in
/// completion order: each error's own message.
pub open spec fn hedged_causes(attempts: Seq<AttemptView>) -> Seq<Seq<char>> {
    Seq::new(attempts.len(), |i: int| error_message(failure_of(attempts[i])))
}

/// Hedging fires at least one and at most all providers, and exactly
/// `hedge_k` of them when `hedge_k` is in that range.
pub proof fn law_hedge_width(hedge_k: nat, n: nat)
    requires
        n >= 1,
    ensures
        1 <= hedge_width(hedge_k, n) <= n,
        1 <= hedge_k <= n ==> hedge_width(hedge_k, n) == hedge_k,
{
}

/// A hedged run fires exactly as many providers as it then waits for: the
/// fan-out it starts with and its outstanding count are both `hedge_k` clamped
/// to `[1, n]`, and it starts with no cause.
pub proof fn law_hedged_start(hedge_k: nat, n: nat)
    requires
        n >= 1,
    ensures
        hedged_start(hedge_k, n).1 == hedged_start(hedge_k, n).0.outstanding,
        hedged_start(hedge_k, n).1 == (if hedge_k < 1 {
            1
        } else if hedge_k > n {
            n
        } else {
            hedge_k
        }),
        1 <= hedged_start(hedge_k, n).1 <= n,
        hedged_start(hedge_k, n).0.causes.len() == 0,
{
}

/// While fewer fired attempts than the fan-out have failed softly, a hedged
/// run keeps waiting, with one cause per failure in completion order.
pub proof fn law_hedged_waits(hedge_k: nat, n: nat, attempts: Seq<AttemptView>)
    requires
        n >= 1,
        all_soft(attempts),
        attempts.len() < hedge_width(hedge_k, n),
    ensures
        hedged_replay(hedge_k, n, attempts).0.outstanding == hedge_width(hedge_k, n)
            - attempts.len(),
        hedged_replay(hedge_k, n, attempts).0.causes == hedged_causes(attempts),
        hedged_replay(hedge_k, n, attempts).1 == HedgedStepView::Wait,
    decreases attempts.len(),
{
    if attempts.len() > 0 {
        let prefix = attempts.drop_last();
        assert forall|i: int| 0 <= i < prefix.len() implies #[trigger] is_soft_failure(prefix[i]) by {
            assert(is_soft_failure(attempts[i]));
        }
        law_hedged_waits(hedge_k, n, prefix);
        assert(is_soft_failure(attempts[attempts.len() - 1]));
        assert(hedged_causes(attempts) =~= hedged_causes(prefix).push(
            error_message(failure_of(attempts.last())),
        ));
    } else {
        assert(hedged_causes(attempts) =~= Seq::<Seq<char>>::empty());
    }
}

/// When every fired provider fails softly, hedged routing fails with
/// `AllExhausted`, holding one cause per fired provider.
pub proof fn law_hedged_exhaustion(hedge_k: nat, n: nat, attempts: Seq<AttemptView>)
    requires
        n >= 1,
        all_soft(attempts),
        attempts.len() == hedge_width(hedge_k, n),
    ensures
        hedged_replay(hedge_k, n, attempts).1 == HedgedStepView::Fail(
            RouterErrorView::AllExhausted { causes: hedged_causes(attempts) },
        ),
        hedged_causes(attempts).len() == hedge_width(hedge_k, n),
{
    let prefix = attempts.drop_last();
    assert forall|i: int| 0 <= i < prefix.len() implies #[trigger] is_soft_failure(prefix[i]) by {
        assert(is_soft_failure(attempts[i]));
    }
    law_hedged_waits(hedge_k, n, prefix);
    assert(is_soft_failure(attempts[attempts.len() - 1]));
    assert(hedged_causes(attempts) =~= hedged_causes(prefix).push(
        error_message(failure_of(attempts.last())),
    ));
}

/// Hedged routing returns the first completed attempt that is not a soft
/// failure: a success is returned, a hard failure bubbles up unchanged, and
/// later completions are ignored.
pub proof fn law_hedged_first_decisive(hedge_k: nat, n: nat, attempts: Seq<AttemptView>, m: nat)
    requires
        n >= 1,
        m < hedge_width(hedge_k, n),
        m < attempts.len(),
        all_soft(attempts.take(m as int)),
        !is_soft_failure(attempts[m as int]),
    ensures
        hedged_replay(hedge_k, n, attempts).1 == (match attempts[m as int] {
            AttemptView::Succeeded => HedgedStepView::Finish,
            AttemptView::Failed(e) => HedgedStepView::Fail(e),
        }),
    decreases attempts.len(),
{
    let prefix = attempts.drop_last();
    if attempts.len() == m + 1 {
        assert(prefix =~= attempts.take(m as int));
        law_hedged_waits(hedge_k, n, prefix);
    } else {
        assert(prefix.take(m as int) =~= attempts.take(m as int));
        law_hedged_first_decisive(hedge_k, n, prefix, m);
    }
}

} // verus!
