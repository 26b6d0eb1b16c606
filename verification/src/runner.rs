//! Runs one benchmark case: validates the operands, generates keys,
//! encrypts, applies the case's operation homomorphically (installing the
//! case's server key as that step begins), decrypts, and assembles the
//! timing report.

use vstd::prelude::*;
use crate::backend;
use crate::backend::ServerKeyHandle;
use crate::catalog::BenchmarkCase;
use crate::catalog::OperationKind;
use crate::catalog::Width;
use crate::catalog::clear_result;
use crate::errors::BenchError;
use crate::reporting::TimingReport;
use crate::reporting::clamp_ns;

verus! {

fn apply_u8(op: OperationKind, a: backend::CtU8, b: backend::CtU8, sk: ServerKeyHandle) -> (r:
    backend::CtU8)
    requires
        a.pair() == b.pair(),
        a.pair() == sk.pair(),
    ensures
        r.plain() as int == clear_result(op, Width::W8, a.plain() as u64, b.plain() as u64),
        r.pair() == a.pair(),
{
    match op {
        OperationKind::Add => backend::add_u8(a, b, sk),
        OperationKind::Sub => backend::sub_u8(a, b, sk),
        OperationKind::Mul => backend::mul_u8(a, b, sk),
    }
}

fn apply_u16(op: OperationKind, a: backend::CtU16, b: backend::CtU16, sk: ServerKeyHandle) -> (r:
    backend::CtU16)
    requires
        a.pair() == b.pair(),
        a.pair() == sk.pair(),
    ensures
        r.plain() as int == clear_result(op, Width::W16, a.plain() as u64, b.plain() as u64),
        r.pair() == a.pair(),
{
    match op {
        OperationKind::Add => backend::add_u16(a, b, sk),
        OperationKind::Sub => backend::sub_u16(a, b, sk),
        OperationKind::Mul => backend::mul_u16(a, b, sk),
    }
}

fn apply_u32(op: OperationKind, a: backend::CtU32, b: backend::CtU32, sk: ServerKeyHandle) -> (r:
    backend::CtU32)
    requires
        a.pair() == b.pair(),
        a.pair() == sk.pair(),
    ensures
        r.plain() as int == clear_result(op, Width::W32, a.plain() as u64, b.plain() as u64),
        r.pair() == a.pair(),
{
    match op {
        OperationKind::Add => backend::add_u32(a, b, sk),
        OperationKind::Sub => backend::sub_u32(a, b, sk),
        OperationKind::Mul => backend::mul_u32(a, b, sk),
    }
}

fn apply_u64(op: OperationKind, a: backend::CtU64, b: backend::CtU64, sk: ServerKeyHandle) -> (r:
    backend::CtU64)
    requires
        a.pair() == b.pair(),
        a.pair() == sk.pair(),
    ensures
        r.plain() as int == clear_result(op, Width::W64, a.plain() as u64, b.plain() as u64),
        r.pair() == a.pair(),
{
    match op {
        OperationKind::Add => backend::add_u64(a, b, sk),
        OperationKind::Sub => backend::sub_u64(a, b, sk),
        OperationKind::Mul => backend::mul_u64(a, b, sk),
    }
}

/// The error a case reports when an operand is out of range: the first
/// offending operand, with the width it failed against.
pub open spec fn range_error(case: BenchmarkCase, clear_a: u64, clear_b: u64) -> BenchError {
    if !case.width.fits(clear_a) {
        BenchError::Range { value: clear_a, width: case.width }
    } else {
        BenchError::Range { value: clear_b, width: case.width }
    }
}

/// Runs one benchmark case on the two cleartext operands.
///
/// Rejects any operand that does not fit the case's width with a range
/// error, before touching the backend. Otherwise the run succeeds, and the
/// report carries the case, the modular result of the case's operation on
/// the operands, and the phase timings under the total-dominates invariant.
pub fn run_case(case: BenchmarkCase, clear_a: u64, clear_b: u64) -> (r: Result<
    TimingReport,
    BenchError,
>)
    ensures
        r is Ok <==> case.width.fits(clear_a) && case.width.fits(clear_b),
        r matches Ok(rep) ==> {
            &&& rep.case == case
            &&& rep.result as int == clear_result(case.op, case.width, clear_a, clear_b)
            &&& rep.wf()
        },
        r matches Err(e) ==> e == range_error(case, clear_a, clear_b),
{
    if !case.width.fits_value(clear_a) {
        return Err(BenchError::Range { value: clear_a, width: case.width });
    }
    if !case.width.fits_value(clear_b) {
        return Err(BenchError::Range { value: clear_b, width: case.width });
    }
    let total_start = backend::clock_now();

    let keygen_start = backend::clock_now();
    let (client_key, server_key) = backend::fhe_keygen();
    let key_generation_ns = clamp_ns(backend::elapsed_ns(&keygen_start));

    let result: u64;
    let encrypt_a_ns: u64;
    let encrypt_b_ns: u64;
    let operation_ns: u64;
    let decrypt_ns: u64;
    match case.width {
        Width::W8 => {
            let a = clear_a as u8;
            let b = clear_b as u8;
            let t = backend::clock_now();
            let ct_a = backend::encrypt_u8(a, &client_key);
            encrypt_a_ns = clamp_ns(backend::elapsed_ns(&t));
            let t = backend::clock_now();
            let ct_b = backend::encrypt_u8(b, &client_key);
            encrypt_b_ns = clamp_ns(backend::elapsed_ns(&t));
            let t = backend::clock_now();
            let ct_r = apply_u8(case.op, ct_a, ct_b, server_key);
            operation_ns = clamp_ns(backend::elapsed_ns(&t));
            let t = backend::clock_now();
            result = backend::decrypt_u8(&ct_r, &client_key) as u64;
            decrypt_ns = clamp_ns(backend::elapsed_ns(&t));
        },
        Width::W16 => {
            let a = clear_a as u16;
            let b = clear_b as u16;
            let t = backend::clock_now();
            let ct_a = backend::encrypt_u16(a, &client_key);
            encrypt_a_ns = clamp_ns(backend::elapsed_ns(&t));
            let t = backend::clock_now();
            let ct_b = backend::encrypt_u16(b, &client_key);
            encrypt_b_ns = clamp_ns(backend::elapsed_ns(&t));
            let t = backend::clock_now();
            let ct_r = apply_u16(case.op, ct_a, ct_b, server_key);
            operation_ns = clamp_ns(backend::elapsed_ns(&t));
            let t = backend::clock_now();
            result = backend::decrypt_u16(&ct_r, &client_key) as u64;
            decrypt_ns = clamp_ns(backend::elapsed_ns(&t));
        },
        Width::W32 => {
            let a = clear_a as u32;
            let b = clear_b as u32;
            let t = backend::clock_now();
            let ct_a = backend::encrypt_u32(a, &client_key);
            encrypt_a_ns = clamp_ns(backend::elapsed_ns(&t));
            let t = backend::clock_now();
            let ct_b = backend::encrypt_u32(b, &client_key);
            encrypt_b_ns = clamp_ns(backend::elapsed_ns(&t));
            let t = backend::clock_now();
            let ct_r = apply_u32(case.op, ct_a, ct_b, server_key);
            operation_ns = clamp_ns(backend::elapsed_ns(&t));
            let t = backend::clock_now();
            result = backend::decrypt_u32(&ct_r, &client_key) as u64;
            decrypt_ns = clamp_ns(backend::elapsed_ns(&t));
        },
        Width::W64 => {
            let t = backend::clock_now();
            let ct_a = backend::encrypt_u64(clear_a, &client_key);
            encrypt_a_ns = clamp_ns(backend::elapsed_ns(&t));
            let t = backend::clock_now();
            let ct_b = backend::encrypt_u64(clear_b, &client_key);
            encrypt_b_ns = clamp_ns(backend::elapsed_ns(&t));
            let t = backend::clock_now();
            let ct_r = apply_u64(case.op, ct_a, ct_b, server_key);
            operation_ns = clamp_ns(backend::elapsed_ns(&t));
            let t = backend::clock_now();
            result = backend::decrypt_u64(&ct_r, &client_key) as u64;
            decrypt_ns = clamp_ns(backend::elapsed_ns(&t));
        },
    }
    let measured_total_ns = backend::elapsed_ns(&total_start);
    let report = TimingReport::new(
        case,
        result,
        key_generation_ns,
        encrypt_a_ns,
        encrypt_b_ns,
        operation_ns,
        decrypt_ns,
        measured_total_ns,
    );
    Ok(report)
}

} // verus!
