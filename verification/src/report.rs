use vstd::prelude::*;
use vstd::string::StringExecFns;
use crate::outcome::DomainResult;
use crate::outcome::DomainResultView;
use crate::outcome::Failure;
use crate::outcome::FailureView;
use crate::outcome::domain_fails;
use crate::outcome::domain_failure;
use crate::outcome::result_failure;
use crate::profile::ProfileKind;

verus! {

/// Everything one check needs to be judged: the domain, the profile it ran
/// under, the run's day offset, and what the connector observed.
pub struct CheckView {
    pub domain: Seq<char>,
    pub profile: ProfileKind,
    pub days: u32,
    pub result: DomainResultView,
}

/// One diagnostic line of the report: a failing (domain, profile) pair with
/// the configured offset and the underlying failure.
pub struct ReportLineView {
    pub domain: Seq<char>,
    pub profile: ProfileKind,
    pub days: u32,
    pub failure: FailureView,
}

/// The line a check contributes to the report, if it fails.
pub open spec fn line_of(c: CheckView) -> Option<ReportLineView> {
    match result_failure(c.result) {
        Some(f) => Some(
            ReportLineView { domain: c.domain, profile: c.profile, days: c.days, failure: f },
        ),
        None => None,
    }
}

/// The lines a check contributes: one on failure, none on success.
pub open spec fn lines_of(c: CheckView) -> Seq<ReportLineView> {
    match line_of(c) {
        Some(l) => seq![l],
        None => Seq::empty(),
    }
}

/// The whole report of a run: the lines of its checks, in run order.
pub open spec fn report_of(cs: Seq<CheckView>) -> Seq<ReportLineView>
    decreases cs.len(),
{
    if cs.len() == 0 {
        Seq::empty()
    } else {
        lines_of(cs[0]) + report_of(cs.drop_first())
    }
}

/// Appending one check appends exactly its own lines.
pub proof fn lemma_report_of_push(cs: Seq<CheckView>, c: CheckView)
    ensures
        report_of(cs.push(c)) == report_of(cs) + lines_of(c),
    decreases cs.len(),
{
    if cs.len() == 0 {
        assert(cs.push(c)[0] == c);
        assert(cs.push(c).drop_first() =~= Seq::<CheckView>::empty());
        assert(report_of(cs.push(c)) == lines_of(c) + report_of(Seq::<CheckView>::empty()));
        assert(report_of(Seq::<CheckView>::empty()) =~= Seq::<ReportLineView>::empty());
        assert(report_of(cs.push(c)) =~= report_of(cs) + lines_of(c));
    } else {
        assert(cs.push(c)[0] == cs[0]);
        assert(cs.push(c).drop_first() =~= cs.drop_first().push(c));
        lemma_report_of_push(cs.drop_first(), c);
        assert(lines_of(cs[0]) + (report_of(cs.drop_first()) + lines_of(c)) =~= (lines_of(cs[0])
            + report_of(cs.drop_first())) + lines_of(c));
    }
}

/// The report of two runs back to back is the two reports back to back.
pub proof fn lemma_report_of_concat(a: Seq<CheckView>, b: Seq<CheckView>)
    ensures
        report_of(a + b) == report_of(a) + report_of(b),
    decreases a.len(),
{
    if a.len() == 0 {
        assert(a + b =~= b);
        assert(report_of(a) + report_of(b) =~= report_of(b));
    } else {
        assert((a + b)[0] == a[0]);
        assert((a + b).drop_first() =~= a.drop_first() + b);
        lemma_report_of_concat(a.drop_first(), b);
        assert(lines_of(a[0]) + (report_of(a.drop_first()) + report_of(b)) =~= (lines_of(a[0])
            + report_of(a.drop_first())) + report_of(b));
    }
}

/// The lines of the report contributed by the modern-defaults profile.
pub open spec fn modern_lines(ls: Seq<ReportLineView>) -> Seq<ReportLineView>
    decreases ls.len(),
{
    if ls.len() == 0 {
        Seq::empty()
    } else if ls[0].profile is ModernDefaults {
        seq![ls[0]] + modern_lines(ls.drop_first())
    } else {
        modern_lines(ls.drop_first())
    }
}

proof fn lemma_modern_lines_all_legacy(ls: Seq<ReportLineView>)
    requires
        forall|i: int| 0 <= i < ls.len() ==> ls[i].profile is Tls12Rsa,
    ensures
        modern_lines(ls) == Seq::<ReportLineView>::empty(),
    decreases ls.len(),
{
    if ls.len() > 0 {
        lemma_modern_lines_all_legacy(ls.drop_first());
    }
}

proof fn lemma_report_keeps_profiles(cs: Seq<CheckView>)
    ensures
        forall|j: int|
            0 <= j < report_of(cs).len() ==> exists|i: int|
                0 <= i < cs.len() && #[trigger] report_of(cs)[j].profile == cs[i].profile,
    decreases cs.len(),
{
    if cs.len() > 0 {
        lemma_report_keeps_profiles(cs.drop_first());
        assert forall|j: int| 0 <= j < report_of(cs).len() implies exists|i: int|
            0 <= i < cs.len() && #[trigger] report_of(cs)[j].profile == cs[i].profile by {
            if j < lines_of(cs[0]).len() {
                assert(report_of(cs)[j].profile == cs[0].profile);
            } else {
                let j0 = j - lines_of(cs[0]).len();
                assert(report_of(cs)[j] == report_of(cs.drop_first())[j0]);
                let i0 = choose|i: int|
                    0 <= i < cs.drop_first().len() && #[trigger] report_of(cs.drop_first())[j0].profile
                        == cs.drop_first()[i].profile;
                assert(report_of(cs)[j].profile == cs[i0 + 1].profile);
            }
        }
    }
}

/// Disabling the legacy profile does not alter what the modern-defaults
/// profile contributes: a run extended by legacy-profile checks reports
/// exactly the same modern-defaults lines as the run without them.
pub proof fn lemma_profile_independence(modern: Seq<CheckView>, legacy: Seq<CheckView>)
    requires
        forall|i: int| 0 <= i < legacy.len() ==> legacy[i].profile is Tls12Rsa,
    ensures
        modern_lines(report_of(modern + legacy)) == modern_lines(report_of(modern)),
{
    lemma_report_of_concat(modern, legacy);
    lemma_modern_lines_concat(report_of(modern), report_of(legacy));
    lemma_report_keeps_profiles(legacy);
    assert forall|j: int| 0 <= j < report_of(legacy).len() implies report_of(
        legacy,
    )[j].profile is Tls12Rsa by {
        let i0 = choose|i: int|
            0 <= i < legacy.len() && #[trigger] report_of(legacy)[j].profile == legacy[i].profile;
        assert(legacy[i0].profile is Tls12Rsa);
    }
    lemma_modern_lines_all_legacy(report_of(legacy));
    assert(modern_lines(report_of(modern)) + Seq::<ReportLineView>::empty() =~= modern_lines(
        report_of(modern),
    ));
}

proof fn lemma_modern_lines_concat(a: Seq<ReportLineView>, b: Seq<ReportLineView>)
    ensures
        modern_lines(a + b) == modern_lines(a) + modern_lines(b),
    decreases a.len(),
{
    if a.len() == 0 {
        assert(a + b =~= b);
        assert(modern_lines(a) + modern_lines(b) =~= modern_lines(b));
    } else {
        assert((a + b)[0] == a[0]);
        assert((a + b).drop_first() =~= a.drop_first() + b);
        lemma_modern_lines_concat(a.drop_first(), b);
        if a[0].profile is ModernDefaults {
            assert(seq![a[0]] + (modern_lines(a.drop_first()) + modern_lines(b)) =~= (seq![a[0]]
                + modern_lines(a.drop_first())) + modern_lines(b));
        }
    }
}

/// Checking is idempotent on the report side: a run that performs the same
/// check twice, with the same observed result, reports that check's
/// contribution twice over — the repetition changes nothing else.
pub proof fn lemma_check_idempotent(cs: Seq<CheckView>, c: CheckView)
    ensures
        report_of(cs.push(c).push(c)) == report_of(cs) + lines_of(c) + lines_of(c),
{
    lemma_report_of_push(cs, c);
    lemma_report_of_push(cs.push(c), c);
}

/// A run whose checks all pass reports nothing at all.
pub proof fn lemma_all_pass_empty_report(cs: Seq<CheckView>)
    requires
        forall|i: int| 0 <= i < cs.len() ==> !domain_fails(#[trigger] cs[i].result),
    ensures
        report_of(cs) == Seq::<ReportLineView>::empty(),
    decreases cs.len(),
{
    if cs.len() > 0 {
        assert(!domain_fails(cs[0].result));
        lemma_all_pass_empty_report(cs.drop_first());
        assert(lines_of(cs[0]) + Seq::<ReportLineView>::empty() =~= Seq::<
            ReportLineView,
        >::empty());
    }
}

/// A check whose domain did not resolve always lands in the report, tagged
/// as a resolution failure, so the run cannot conclude cleanly.
pub proof fn lemma_unresolved_reported(cs: Seq<CheckView>, i: int)
    requires
        0 <= i < cs.len(),
        cs[i].result is Unresolved,
    ensures
        report_of(cs).len() >= 1,
        exists|j: int|
            0 <= j < report_of(cs).len() && #[trigger] report_of(cs)[j].domain == cs[i].domain
                && report_of(cs)[j].failure.kind is Resolution,
{
    let prefix = cs.subrange(0, i);
    let rest = cs.subrange(i, cs.len() as int);
    assert(cs =~= prefix + rest);
    lemma_report_of_concat(prefix, rest);
    assert(rest[0] == cs[i]);
    assert(lines_of(rest[0]).len() == 1);
    let j = report_of(prefix).len() as int;
    assert(report_of(cs)[j] == report_of(rest)[0]);
    assert(report_of(rest)[0] == lines_of(cs[i])[0]);
    assert(report_of(cs)[j].domain == cs[i].domain && report_of(cs)[j].failure.kind is Resolution);
}

/// The run-wide rule in both directions: the report is non-empty — and the
/// run therefore exits with failure — exactly when some check's domain
/// failed under its profile.
pub proof fn lemma_reported_iff_some_failure(cs: Seq<CheckView>)
    ensures
        report_of(cs).len() > 0 <==> exists|i: int|
            0 <= i < cs.len() && domain_fails(#[trigger] cs[i].result),
    decreases cs.len(),
{
    if cs.len() > 0 {
        lemma_reported_iff_some_failure(cs.drop_first());
        if domain_fails(cs[0].result) {
            assert(lines_of(cs[0]).len() == 1);
            assert(report_of(cs).len() > 0);
            assert(0 <= 0 < cs.len() && domain_fails(cs[0].result));
        } else {
            assert(lines_of(cs[0]).len() == 0);
            assert(report_of(cs).len() == report_of(cs.drop_first()).len());
            if exists|i: int|
                0 <= i < cs.drop_first().len() && domain_fails(
                    #[trigger] cs.drop_first()[i].result,
                ) {
                let i0 = choose|i: int|
                    0 <= i < cs.drop_first().len() && domain_fails(
                        #[trigger] cs.drop_first()[i].result,
                    );
                assert(cs[i0 + 1] == cs.drop_first()[i0]);
                assert(domain_fails(cs[i0 + 1].result));
            }
            if exists|i: int| 0 <= i < cs.len() && domain_fails(#[trigger] cs[i].result) {
                let i1 = choose|i: int| 0 <= i < cs.len() && domain_fails(#[trigger] cs[i].result);
                if i1 > 0 {
                    assert(cs.drop_first()[i1 - 1] == cs[i1]);
                    assert(domain_fails(cs.drop_first()[i1 - 1].result));
                }
            }
        }
    }
}

/// One line of the printed report, with everything a diagnostic needs: the
/// domain, the profile it failed under, the configured offset and the
/// underlying failure.
pub struct FailureLine {
    pub domain: String,
    pub profile: ProfileKind,
    pub days: u32,
    pub failure: Failure,
}

impl View for FailureLine {
    type V = ReportLineView;

    open spec fn view(&self) -> ReportLineView {
        ReportLineView {
            domain: self.domain@,
            profile: self.profile,
            days: self.days,
            failure: self.failure@,
        }
    }
}

/// The models of a sequence of report lines, element by element.
pub open spec fn line_views(v: Seq<FailureLine>) -> Seq<ReportLineView> {
    v.map_values(|l: FailureLine| l@)
}

/// The run-wide report: every failure found so far, in run order. The run
/// passes exactly when it is empty.
pub struct RunReport {
    pub failures: Vec<FailureLine>,
}

impl View for RunReport {
    type V = Seq<ReportLineView>;

    open spec fn view(&self) -> Seq<ReportLineView> {
        line_views(self.failures@)
    }
}

impl RunReport {
    /// An empty report: nothing has failed yet.
    pub fn new() -> (r: RunReport)
        ensures
            r@ == Seq::<ReportLineView>::empty(),
    {
        let r = RunReport { failures: Vec::new() };
        proof {
            assert(r@ =~= Seq::<ReportLineView>::empty());
        }
        r
    }

    /// Fold one check into the report: a failing domain appends exactly its
    /// diagnostic line, a passing domain appends nothing.
    pub fn record(&mut self, domain: &str, profile: ProfileKind, days: u32, result: DomainResult)
        ensures
            final(self)@ == old(self)@ + lines_of(
                CheckView { domain: domain@, profile, days, result: result@ },
            ),
    {
        let ghost c = CheckView { domain: domain@, profile, days, result: result@ };
        let failure = domain_failure(result);
        match failure {
            Some(f) => {
                let line = FailureLine { domain: String::from_str(domain), profile, days, failure: f };
                proof {
                    assert(line@ == line_of(c).unwrap());
                }
                self.failures.push(line);
                proof {
                    assert(self@ =~= old(self)@ + lines_of(c));
                }
            },
            None => {
                proof {
                    assert(self@ =~= old(self)@ + lines_of(c));
                }
            },
        }
    }

    /// Whether every check folded in so far has passed.
    pub fn all_passed(&self) -> (ok: bool)
        ensures
            ok <==> self@.len() == 0,
    {
        self.failures.len() == 0
    }

    /// The process exit code the run derives: 0 when every domain passed
    /// under every exercised profile, 1 when anything failed.
    pub fn exit_code(&self) -> (code: i32)
        ensures
            code == if self@.len() == 0 { 0int } else { 1int },
    {
        if self.failures.len() == 0 {
            0
        } else {
            1
        }
    }
}

} // verus!
