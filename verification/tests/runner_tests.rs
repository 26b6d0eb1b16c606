use fhe_bench::catalog::BenchmarkCase;
use fhe_bench::catalog::OperationKind;
use fhe_bench::catalog::Width;
use fhe_bench::errors::BenchError;
use fhe_bench::runner::run_case;

#[test]
fn out_of_range_operand_a_is_rejected() {
    let case = BenchmarkCase { width: Width::W8, op: OperationKind::Add };
    let r = run_case(case, 300, 1);
    assert_eq!(r.unwrap_err(), BenchError::Range { value: 300, width: Width::W8 });
}

#[test]
fn out_of_range_operand_b_is_rejected() {
    let case = BenchmarkCase { width: Width::W8, op: OperationKind::Mul };
    let r = run_case(case, 1, 256);
    assert_eq!(r.unwrap_err(), BenchError::Range { value: 256, width: Width::W8 });
}

#[test]
fn out_of_range_sixteen_bit_operand_is_rejected() {
    let case = BenchmarkCase { width: Width::W16, op: OperationKind::Sub };
    let r = run_case(case, 70000, 70001);
    assert_eq!(r.unwrap_err(), BenchError::Range { value: 70000, width: Width::W16 });
}
