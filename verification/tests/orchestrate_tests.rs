use fhe_bench::catalog::BenchmarkCase;
use fhe_bench::catalog::catalog;
use fhe_bench::errors::BenchError;
use fhe_bench::orchestrate::CaseOutcome;
use fhe_bench::orchestrate::RunSummary;
use fhe_bench::orchestrate::failure_line;

fn outcome(case: BenchmarkCase, error: Option<BenchError>) -> CaseOutcome {
    CaseOutcome { case, error }
}

#[test]
fn all_cases_succeed() {
    let mut summary = RunSummary::new();
    for case in catalog() {
        summary.record(outcome(case, None));
    }
    assert_eq!(summary.failed_count(), 0);
    assert_eq!(summary.exit_code(), 0);
    assert_eq!(summary.summary_line(), "cases run: 12, failed: 0\n");
}

#[test]
fn one_io_failure_leaves_other_cases_untouched() {
    let mut summary = RunSummary::new();
    for (i, case) in catalog().into_iter().enumerate() {
        if i == 3 {
            summary.record(outcome(case, Some(BenchError::Io)));
        } else {
            summary.record(outcome(case, None));
        }
    }
    assert_eq!(summary.outcomes.len(), 12);
    assert_eq!(summary.failed_count(), 1);
    assert_ne!(summary.exit_code(), 0);
    assert_eq!(summary.exit_code(), 1);
    assert_eq!(summary.summary_line(), "cases run: 12, failed: 1\n");
}

#[test]
fn failure_lines_name_case_and_kind() {
    let cases = catalog();
    let ok = outcome(cases[0], None);
    assert!(failure_line(&ok).is_none());
    let io = outcome(cases[3], Some(BenchError::Io));
    assert_eq!(failure_line(&io).unwrap(), "u64_add: io error\n");
    let range = outcome(
        cases[0],
        Some(BenchError::Range { value: 300, width: cases[0].width }),
    );
    assert_eq!(failure_line(&range).unwrap(), "u8_add: range error\n");
}

#[test]
fn prepare_case_names_the_file_and_rejects_bad_operands() {
    let case = catalog()[8];
    let (path, prepared) = fhe_bench::orchestrate::prepare_case(case, 300, 5);
    assert_eq!(path, "benchmarks/benchmark_u8_mul.txt");
    assert_eq!(
        prepared.unwrap_err(),
        BenchError::Range { value: 300, width: case.width }
    );
}

#[test]
fn error_kind_names() {
    assert_eq!(BenchError::Config.kind_name(), "configuration error");
    assert_eq!(BenchError::BackendFatal.kind_name(), "backend fatal error");
    assert_eq!(BenchError::Io.kind_name(), "io error");
}
