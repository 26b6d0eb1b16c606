use fhe_bench::catalog::BenchmarkCase;
use fhe_bench::catalog::OperationKind;
use fhe_bench::catalog::Width;
use fhe_bench::reporting::TimingReport;
use fhe_bench::reporting::clamp_ns;
use fhe_bench::reporting::decimal_string;
use fhe_bench::reporting::render;

#[test]
fn decimal_rendering() {
    assert_eq!(decimal_string(0), "0");
    assert_eq!(decimal_string(7), "7");
    assert_eq!(decimal_string(10), "10");
    assert_eq!(decimal_string(12345), "12345");
    assert_eq!(decimal_string(u64::MAX as u128), "18446744073709551615");
}

#[test]
fn clamping_raw_measurements() {
    assert_eq!(clamp_ns(0), 0);
    assert_eq!(clamp_ns(123), 123);
    assert_eq!(clamp_ns(u64::MAX as u128), u64::MAX);
    assert_eq!(clamp_ns(u64::MAX as u128 + 1), u64::MAX);
}

#[test]
fn report_has_six_lines_and_exact_text() {
    let case = BenchmarkCase { width: Width::W8, op: OperationKind::Add };
    let rep = TimingReport::new(case, 2, 5, 6, 7, 8, 9, 100);
    let text = render(&rep);
    assert_eq!(
        text,
        "Time to generate keys: 5ns\n\
         Time to encrypt a: 6ns\n\
         Time to encrypt b: 7ns\n\
         Time to add: 8ns\n\
         Time to decrypt: 9ns\n\
         Total time: 100ns\n"
    );
    assert_eq!(text.lines().count(), 6);
}

#[test]
fn report_total_never_below_phase_sum() {
    let case = BenchmarkCase { width: Width::W16, op: OperationKind::Mul };
    let rep = TimingReport::new(case, 1, 10, 10, 10, 10, 10, 3);
    assert_eq!(rep.total_ns, 50);
    let rep = TimingReport::new(case, 1, 10, 10, 10, 10, 10, 51);
    assert_eq!(rep.total_ns, 51);
}

#[test]
fn report_keeps_case_and_result() {
    let case = BenchmarkCase { width: Width::W64, op: OperationKind::Sub };
    let rep = TimingReport::new(case, 41, 1, 2, 3, 4, 5, 15);
    assert_eq!(rep.case, case);
    assert_eq!(rep.result, 41);
    assert_eq!(rep.key_generation_ns, 1);
    assert_eq!(rep.decrypt_ns, 5);
    let text = render(&rep);
    assert!(text.contains("Time to sub: 4ns\n"));
    assert!(text.ends_with("Total time: 15ns\n"));
}
