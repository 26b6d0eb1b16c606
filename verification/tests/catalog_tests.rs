use fhe_bench::catalog::BenchmarkCase;
use fhe_bench::catalog::OperationKind;
use fhe_bench::catalog::Width;
use fhe_bench::catalog::catalog;
use fhe_bench::catalog::clear_apply;
use fhe_bench::reporting::path_for;

#[test]
fn catalog_has_twelve_cases() {
    let c = catalog();
    assert_eq!(c.len(), 12);
}

#[test]
fn catalog_order_is_fixed() {
    let c = catalog();
    assert_eq!(c[0], BenchmarkCase { width: Width::W8, op: OperationKind::Add });
    assert_eq!(c[1], BenchmarkCase { width: Width::W16, op: OperationKind::Add });
    assert_eq!(c[3], BenchmarkCase { width: Width::W64, op: OperationKind::Add });
    assert_eq!(c[4], BenchmarkCase { width: Width::W8, op: OperationKind::Sub });
    assert_eq!(c[11], BenchmarkCase { width: Width::W64, op: OperationKind::Mul });
}

#[test]
fn catalog_paths_are_distinct() {
    let c = catalog();
    let paths: Vec<String> = c.iter().map(|case| path_for(*case)).collect();
    for i in 0..paths.len() {
        for j in 0..paths.len() {
            if i != j {
                assert_ne!(paths[i], paths[j]);
            }
        }
    }
}

#[test]
fn catalog_is_deterministic() {
    let first = catalog();
    let second = catalog();
    assert_eq!(first, second);
    for case in first {
        assert_eq!(path_for(case), path_for(case));
    }
}

#[test]
fn path_matches_documented_pattern() {
    let case = BenchmarkCase { width: Width::W8, op: OperationKind::Add };
    assert_eq!(path_for(case), "benchmarks/benchmark_u8_add.txt");
    let case = BenchmarkCase { width: Width::W32, op: OperationKind::Mul };
    assert_eq!(path_for(case), "benchmarks/benchmark_u32_mul.txt");
    let case = BenchmarkCase { width: Width::W64, op: OperationKind::Sub };
    assert_eq!(path_for(case), "benchmarks/benchmark_u64_sub.txt");
}

#[test]
fn clear_apply_wraps_on_add() {
    assert_eq!(clear_apply(OperationKind::Add, Width::W8, 200, 100), 44);
    assert_eq!(clear_apply(OperationKind::Add, Width::W16, 65535, 1), 0);
    assert_eq!(clear_apply(OperationKind::Add, Width::W64, u64::MAX, 1), 0);
}

#[test]
fn clear_apply_wraps_on_sub() {
    assert_eq!(clear_apply(OperationKind::Sub, Width::W8, 3, 5), 254);
    assert_eq!(clear_apply(OperationKind::Sub, Width::W32, 0, 1), 4294967295);
    assert_eq!(clear_apply(OperationKind::Sub, Width::W64, 7, 7), 0);
}

#[test]
fn clear_apply_wraps_on_mul() {
    assert_eq!(clear_apply(OperationKind::Mul, Width::W8, 16, 16), 0);
    assert_eq!(clear_apply(OperationKind::Mul, Width::W8, 15, 17), 255);
    assert_eq!(clear_apply(OperationKind::Mul, Width::W64, u64::MAX, 2), u64::MAX - 1);
}

#[test]
fn width_bounds() {
    assert_eq!(Width::W8.max_value(), 255);
    assert_eq!(Width::W16.max_value(), 65535);
    assert_eq!(Width::W32.max_value(), 4294967295);
    assert_eq!(Width::W64.max_value(), u64::MAX);
    assert!(Width::W8.fits_value(255));
    assert!(!Width::W8.fits_value(256));
}

#[test]
fn names_are_fixed() {
    assert_eq!(Width::W8.name(), "u8");
    assert_eq!(Width::W64.name(), "u64");
    assert_eq!(OperationKind::Add.name(), "add");
    assert_eq!(OperationKind::Mul.name(), "mul");
}
