use vstd::prelude::*;
use vstd::string::StringExecFns;

verus! {

/// Why a single connection attempt, or a whole domain, failed.
#[derive(Clone, Copy, PartialEq, Eq, Structural, Debug)]
pub enum FailureKind {
    /// The domain name did not resolve to any address.
    Resolution,
    /// A TCP connection could not be opened, or timed out.
    Connection,
    /// The handshake ran, and the certificate verifier rejected the chain,
    /// or the negotiation itself failed.
    Handshake,
    /// A transport error interrupted an otherwise-connected handshake.
    Io,
}

/// A failure with the underlying detail message preserved for diagnosis.
pub struct Failure {
    pub kind: FailureKind,
    pub detail: String,
}

/// Mathematical model of a [`Failure`].
pub struct FailureView {
    pub kind: FailureKind,
    pub detail: Seq<char>,
}

impl View for Failure {
    type V = FailureView;

    open spec fn view(&self) -> FailureView {
        FailureView { kind: self.kind, detail: self.detail@ }
    }
}

impl Clone for Failure {
    fn clone(&self) -> (res: Self)
        ensures
            res@ == self@,
    {
        Failure { kind: self.kind, detail: self.detail.clone() }
    }
}

/// What one connection attempt to one address came to.
pub enum Outcome {
    Success,
    Failure(Failure),
}

/// Mathematical model of an [`Outcome`].
pub enum OutcomeView {
    Success,
    Failure(FailureView),
}

impl View for Outcome {
    type V = OutcomeView;

    open spec fn view(&self) -> OutcomeView {
        match self {
            Outcome::Success => OutcomeView::Success,
            Outcome::Failure(f) => OutcomeView::Failure(f@),
        }
    }
}

/// What checking one domain under one profile came to: either the name did
/// not resolve (with the resolver's detail), or every resolved address was
/// attempted, in order, each with its own outcome.
pub enum DomainResult {
    Unresolved(String),
    Attempted(Vec<Outcome>),
}

/// Mathematical model of a [`DomainResult`].
pub enum DomainResultView {
    Unresolved(Seq<char>),
    Attempted(Seq<OutcomeView>),
}

impl View for DomainResult {
    type V = DomainResultView;

    open spec fn view(&self) -> DomainResultView {
        match self {
            DomainResult::Unresolved(d) => DomainResultView::Unresolved(d@),
            DomainResult::Attempted(v) => DomainResultView::Attempted(outcome_views(v@)),
        }
    }
}

/// The models of a sequence of outcomes, element by element.
pub open spec fn outcome_views(v: Seq<Outcome>) -> Seq<OutcomeView> {
    v.map_values(|o: Outcome| o@)
}

/// Detail reported when resolution succeeds but yields no address at all.
pub open spec fn no_address_detail() -> Seq<char> {
    "no addresses resolved"@
}

/// The failure of the first failing attempt, if any.
pub open spec fn first_failure(outs: Seq<OutcomeView>) -> Option<FailureView>
    decreases outs.len(),
{
    if outs.len() == 0 {
        None
    } else if outs[0] is Failure {
        Some(outs[0]->0)
    } else {
        first_failure(outs.drop_first())
    }
}

/// The domain-level decision: an unresolved name is a resolution failure, an
/// empty address set is a resolution failure, and otherwise the domain fails
/// exactly when any address fails, reported with the first failing attempt's
/// detail.
pub open spec fn result_failure(r: DomainResultView) -> Option<FailureView> {
    match r {
        DomainResultView::Unresolved(detail) => Some(
            FailureView { kind: FailureKind::Resolution, detail },
        ),
        DomainResultView::Attempted(outs) => if outs.len() == 0 {
            Some(FailureView { kind: FailureKind::Resolution, detail: no_address_detail() })
        } else {
            first_failure(outs)
        },
    }
}

/// Whether a domain is reported as failing.
pub open spec fn domain_fails(r: DomainResultView) -> bool {
    result_failure(r) is Some
}

proof fn lemma_first_failure_at(outs: Seq<OutcomeView>, i: int)
    requires
        0 <= i < outs.len(),
        forall|j: int| 0 <= j < i ==> outs[j] is Success,
        outs[i] is Failure,
    ensures
        first_failure(outs) == Some(outs[i]->0),
    decreases i,
{
    if i > 0 {
        lemma_first_failure_at(outs.drop_first(), i - 1);
    }
}

proof fn lemma_first_failure_none(outs: Seq<OutcomeView>)
    requires
        forall|j: int| 0 <= j < outs.len() ==> outs[j] is Success,
    ensures
        first_failure(outs) is None,
    decreases outs.len(),
{
    if outs.len() > 0 {
        lemma_first_failure_none(outs.drop_first());
    }
}

/// Any failing address fails the whole domain, and the reported failure is
/// that of a failing address: the decision never invents a detail of its own.
pub proof fn lemma_any_failure_fails_domain(outs: Seq<OutcomeView>, i: int)
    requires
        0 <= i < outs.len(),
        outs[i] is Failure,
    ensures
        result_failure(DomainResultView::Attempted(outs)) is Some,
        exists|k: int|
            0 <= k < outs.len() && outs[k] is Failure && result_failure(
                DomainResultView::Attempted(outs),
            ) == Some(outs[k]->0),
    decreases outs.len(),
{
    if outs[0] is Failure {
        assert(first_failure(outs) == Some(outs[0]->0));
    } else {
        lemma_any_failure_fails_domain(outs.drop_first(), i - 1);
        let k0 = choose|k: int|
            0 <= k < outs.drop_first().len() && outs.drop_first()[k] is Failure && result_failure(
                DomainResultView::Attempted(outs.drop_first()),
            ) == Some(outs.drop_first()[k]->0);
        assert(outs[k0 + 1] is Failure);
        assert(result_failure(DomainResultView::Attempted(outs)) == Some(outs[k0 + 1]->0));
    }
}

/// A domain with at least one address, all of whose addresses pass, passes.
pub proof fn lemma_all_addresses_pass(outs: Seq<OutcomeView>)
    requires
        outs.len() > 0,
        forall|j: int| 0 <= j < outs.len() ==> outs[j] is Success,
    ensures
        !domain_fails(DomainResultView::Attempted(outs)),
{
    lemma_first_failure_none(outs);
}

/// An unresolvable name is reported as a resolution failure — the kind is
/// `Resolution`, distinct from a handshake failure — with the resolver's
/// detail preserved.
pub proof fn lemma_unresolved_is_resolution_failure(detail: Seq<char>)
    ensures
        result_failure(DomainResultView::Unresolved(detail)) == Some(
            FailureView { kind: FailureKind::Resolution, detail },
        ),
        result_failure(DomainResultView::Unresolved(detail)).unwrap().kind !is Handshake,
{
}

fn first_failing_attempt(outcomes: &Vec<Outcome>) -> (out: Option<Failure>)
    ensures
        match out {
            Some(f) => first_failure(outcome_views(outcomes@)) == Some(f@),
            None => first_failure(outcome_views(outcomes@)) is None,
        },
{
    let ghost outs = outcome_views(outcomes@);
    let mut i: usize = 0;
    while i < outcomes.len()
        invariant
            i <= outcomes@.len(),
            outs == outcome_views(outcomes@),
            forall|j: int| 0 <= j < i ==> outs[j] is Success,
        decreases outcomes@.len() - i,
    {
        match &outcomes[i] {
            Outcome::Failure(f) => {
                proof {
                    assert(outs[i as int] == OutcomeView::Failure(f@));
                    lemma_first_failure_at(outs, i as int);
                }
                return Some(f.clone());
            },
            Outcome::Success => {
                proof {
                    assert(outs[i as int] is Success);
                }
            },
        }
        i += 1;
    }
    proof {
        lemma_first_failure_none(outs);
    }
    None
}

/// Fold the outcomes of one domain under one profile into the domain-level
/// decision: `None` when the domain passes, and otherwise the failure to
/// report, exactly as [`result_failure`] states it.
pub fn domain_failure(result: DomainResult) -> (out: Option<Failure>)
    ensures
        match out {
            Some(f) => result_failure(result@) == Some(f@),
            None => result_failure(result@) is None,
        },
{
    match result {
        DomainResult::Unresolved(detail) => Some(
            Failure { kind: FailureKind::Resolution, detail },
        ),
        DomainResult::Attempted(outcomes) => {
            if outcomes.len() == 0 {
                Some(
                    Failure {
                        kind: FailureKind::Resolution,
                        detail: String::from_str("no addresses resolved"),
                    },
                )
            } else {
                first_failing_attempt(&outcomes)
            }
        },
    }
}

} // verus!
