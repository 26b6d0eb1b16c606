//! Aggregation of per-case outcomes: a failure of one case is recorded and
//! counted, and never disturbs the tally of any other case.

use vstd::prelude::*;
use vstd::string::StringExecFns;
use crate::catalog::BenchmarkCase;
use crate::errors::BenchError;
use crate::catalog::clear_result;
use crate::reporting::TimingReport;
use crate::reporting::dec_digits;
use crate::reporting::decimal_string;
use crate::reporting::path_for;
use crate::reporting::path_spec;
use crate::reporting::render;
use crate::reporting::report_text;
use crate::runner::range_error;
use crate::runner::run_case;

verus! {

/// What became of one case: recorded even when the case failed.
#[derive(Clone, Copy, Debug)]
pub struct CaseOutcome {
    pub case: BenchmarkCase,
    pub error: Option<BenchError>,
}

/// How many of the outcomes are failures.
pub open spec fn count_failed(s: Seq<CaseOutcome>) -> int
    decreases s.len(),
{
    if s.len() == 0 {
        0int
    } else {
        count_failed(s.drop_last()) + if s.last().error is Some {
            1int
        } else {
            0int
        }
    }
}

/// Failure isolation: recording one more outcome moves the failure tally
/// by one exactly when that outcome failed, and by nothing otherwise; the
/// outcomes already recorded are untouched.
pub proof fn lemma_record_isolated(s: Seq<CaseOutcome>, o: CaseOutcome)
    ensures
        count_failed(s.push(o)) == count_failed(s) + if o.error is Some {
            1int
        } else {
            0int
        },
{
    assert(s.push(o).drop_last() =~= s);
}

/// A sweep in which every case succeeded reports no failure.
pub proof fn lemma_all_success_counts_zero(s: Seq<CaseOutcome>)
    requires
        forall|j: int| 0 <= j < s.len() ==> s[j].error is None,
    ensures
        count_failed(s) == 0,
    decreases s.len(),
{
    if s.len() > 0 {
        lemma_all_success_counts_zero(s.drop_last());
    }
}

/// A failed case is counted once, and locally: replacing exactly that
/// case's outcome by a success lowers the tally by one, whatever the
/// other outcomes hold.
pub proof fn lemma_failure_counted_once(s: Seq<CaseOutcome>, i: int, o: CaseOutcome)
    requires
        0 <= i < s.len(),
        s[i].error is Some,
        o.error is None,
    ensures
        count_failed(s.update(i, o)) == count_failed(s) - 1,
    decreases s.len(),
{
    if i == s.len() - 1 {
        assert(s.update(i, o).drop_last() =~= s.drop_last());
    } else {
        lemma_failure_counted_once(s.drop_last(), i, o);
        assert(s.update(i, o).drop_last() =~= s.drop_last().update(i, o));
        assert(s.update(i, o).last() == s.last());
    }
}

/// Per-case isolation: in a sweep where exactly one case failed, the
/// tally reports exactly one failure — the other cases' records stand
/// untouched beside it.
pub proof fn lemma_single_failure_counts_one(s: Seq<CaseOutcome>, i: int)
    requires
        0 <= i < s.len(),
        s[i].error is Some,
        forall|j: int| 0 <= j < s.len() && j != i ==> s[j].error is None,
    ensures
        count_failed(s) == 1,
{
    let o = CaseOutcome { case: s[i].case, error: None };
    lemma_failure_counted_once(s, i, o);
    lemma_all_success_counts_zero(s.update(i, o));
}

/// The running record of a benchmark sweep.
pub struct RunSummary {
    pub outcomes: Vec<CaseOutcome>,
}

impl RunSummary {
    pub fn new() -> (r: RunSummary)
        ensures
            r.outcomes@.len() == 0,
    {
        RunSummary { outcomes: Vec::new() }
    }

    /// Appends one case's outcome, failed or not.
    pub fn record(&mut self, o: CaseOutcome)
        ensures
            final(self).outcomes@ == old(self).outcomes@.push(o),
    {
        self.outcomes.push(o);
    }

    /// How many recorded cases failed.
    pub fn failed_count(&self) -> (n: usize)
        ensures
            n as int == count_failed(self.outcomes@),
    {
        let mut n: usize = 0;
        let mut i: usize = 0;
        while i < self.outcomes.len()
            invariant
                0 <= i <= self.outcomes@.len(),
                n as int == count_failed(self.outcomes@.subrange(0, i as int)),
                n <= i,
            decreases self.outcomes@.len() - i,
        {
            proof {
                assert(self.outcomes@.subrange(0, i + 1).drop_last() =~= self.outcomes@.subrange(
                    0,
                    i as int,
                ));
            }
            if self.outcomes[i].error.is_some() {
                n = n + 1;
            }
            i = i + 1;
        }
        proof {
            assert(self.outcomes@.subrange(0, self.outcomes@.len() as int) =~= self.outcomes@);
        }
        n
    }

    /// Zero exactly when every recorded case succeeded; otherwise the
    /// failed-case count, saturated at the largest exit status.
    pub fn exit_code(&self) -> (r: u8)
        ensures
            r == 0 <==> count_failed(self.outcomes@) == 0,
            r as int == if count_failed(self.outcomes@) <= 255 {
                count_failed(self.outcomes@)
            } else {
                255int
            },
    {
        let n = self.failed_count();
        if n > 255 {
            255
        } else {
            n as u8
        }
    }

    /// The final summary line of a sweep.
    pub fn summary_line(&self) -> (s: String)
        ensures
            s@ == summary_text(self.outcomes@),
    {
        let mut s = String::new();
        s.append("cases run: ");
        let total = decimal_string(self.outcomes.len() as u128);
        s.append(total.as_str());
        s.append(", failed: ");
        let failed = self.failed_count();
        let failed_s = decimal_string(failed as u128);
        s.append(failed_s.as_str());
        s.append("\n");
        proof {
            assert(s@ =~= summary_text(self.outcomes@));
        }
        s
    }
}

/// One sweep step, prepared for writing: runs the case and renders its
/// report. Returns the case's output path, and either the full report text
/// or the error that befell the case.
pub fn prepare_case(case: BenchmarkCase, clear_a: u64, clear_b: u64) -> (r: (
    String,
    Result<String, BenchError>,
))
    ensures
        r.0@ == path_spec(case),
        r.1 is Ok <==> case.width.fits(clear_a) && case.width.fits(clear_b),
        r.1 matches Ok(text) ==> exists|rep: TimingReport|
            {
                &&& #[trigger] report_text(rep) == text@
                &&& rep.case == case
                &&& rep.result as int == clear_result(case.op, case.width, clear_a, clear_b)
                &&& rep.wf()
            },
        r.1 matches Err(e) ==> e == range_error(case, clear_a, clear_b),
{
    let path = path_for(case);
    match run_case(case, clear_a, clear_b) {
        Ok(rep) => {
            let text = render(&rep);
            proof {
                assert(report_text(rep) == text@);
            }
            (path, Ok(text))
        },
        Err(e) => (path, Err(e)),
    }
}

/// The text of the final summary line.
pub open spec fn summary_text(s: Seq<CaseOutcome>) -> Seq<char> {
    "cases run: "@ + dec_digits(s.len() as int) + ", failed: "@ + dec_digits(count_failed(s))
        + "\n"@
}

/// The text of one failed case's entry in the summary: the case identity
/// and the kind of error that befell it.
pub open spec fn failure_text(c: BenchmarkCase, e: BenchError) -> Seq<char> {
    c.width.name_spec() + "_"@ + c.op.name_spec() + ": "@ + e.kind_name_spec() + "\n"@
}

/// Renders a failed outcome's summary entry; nothing for a success.
pub fn failure_line(o: &CaseOutcome) -> (r: Option<String>)
    ensures
        r is Some <==> o.error is Some,
        r matches Some(s) ==> s@ == failure_text(o.case, o.error->0),
{
    match o.error {
        None => None,
        Some(e) => {
            let mut s = String::new();
            s.append(o.case.width.name());
            s.append("_");
            s.append(o.case.op.name());
            s.append(": ");
            s.append(e.kind_name());
            s.append("\n");
            proof {
                assert(s@ =~= failure_text(o.case, e));
            }
            Some(s)
        },
    }
}

} // verus!
