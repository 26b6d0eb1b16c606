//! Timing reports: assembly under the total-dominates invariant, decimal
//! formatting, the report text, and the deterministic output path of a case.

use vstd::prelude::*;
use vstd::string::StringExecFns;
use crate::catalog::BenchmarkCase;
use crate::catalog::OperationKind;
use crate::catalog::Width;

verus! {

/// The decimal digit character for one digit value.
pub open spec fn digit_char(d: int) -> char {
    if d == 0 {
        '0'
    } else if d == 1 {
        '1'
    } else if d == 2 {
        '2'
    } else if d == 3 {
        '3'
    } else if d == 4 {
        '4'
    } else if d == 5 {
        '5'
    } else if d == 6 {
        '6'
    } else if d == 7 {
        '7'
    } else if d == 8 {
        '8'
    } else {
        '9'
    }
}

/// The usual decimal rendering of a non-negative integer, most significant
/// digit first, with no leading zeros (except for zero itself).
pub open spec fn dec_digits(n: int) -> Seq<char>
    decreases n,
{
    if n < 10 {
        seq![digit_char(n)]
    } else {
        dec_digits(n / 10).push(digit_char(n % 10))
    }
}

fn digit_str(d: u128) -> (r: &'static str)
    requires
        d < 10,
    ensures
        r@ == seq![digit_char(d as int)],
{
    proof {
        reveal_strlit("0");
        reveal_strlit("1");
        reveal_strlit("2");
        reveal_strlit("3");
        reveal_strlit("4");
        reveal_strlit("5");
        reveal_strlit("6");
        reveal_strlit("7");
        reveal_strlit("8");
        reveal_strlit("9");
    }
    let r: &'static str = if d == 0 {
        "0"
    } else if d == 1 {
        "1"
    } else if d == 2 {
        "2"
    } else if d == 3 {
        "3"
    } else if d == 4 {
        "4"
    } else if d == 5 {
        "5"
    } else if d == 6 {
        "6"
    } else if d == 7 {
        "7"
    } else if d == 8 {
        "8"
    } else {
        "9"
    };
    proof {
        assert(r@ =~= seq![digit_char(d as int)]);
    }
    r
}

/// Renders a non-negative integer in decimal.
pub fn decimal_string(n: u128) -> (r: String)
    ensures
        r@ == dec_digits(n as int),
    decreases n,
{
    if n < 10 {
        let mut s = String::new();
        s.append(digit_str(n));
        proof {
            assert(s@ =~= dec_digits(n as int));
        }
        s
    } else {
        let mut s = decimal_string(n / 10);
        s.append(digit_str(n % 10));
        proof {
            assert(s@ =~= dec_digits(n as int));
        }
        s
    }
}

/// Clamps a raw nanosecond measurement into a 64-bit duration field.
pub fn clamp_ns(raw: u128) -> (r: u64)
    ensures
        r as int == if raw <= 0xFFFF_FFFF_FFFF_FFFF { raw as int } else {
            0xFFFF_FFFF_FFFF_FFFF as int
        },
{
    if raw <= 0xFFFF_FFFF_FFFF_FFFF {
        raw as u64
    } else {
        0xFFFF_FFFF_FFFF_FFFF
    }
}

/// One timed run of a benchmark case: the five phase durations, the total
/// wall-clock duration around them, and the decrypted cleartext result.
/// The fields are plain data; `wf` is guaranteed only for reports built
/// by `new` (and so for every report a case run returns), not for one
/// assembled directly from fields.
#[derive(Clone, Copy, Debug)]
pub struct TimingReport {
    pub case: BenchmarkCase,
    pub result: u64,
    pub key_generation_ns: u64,
    pub encrypt_a_ns: u64,
    pub encrypt_b_ns: u64,
    pub operation_ns: u64,
    pub decrypt_ns: u64,
    pub total_ns: u128,
}

impl TimingReport {
    /// The sum of the five measured phases.
    pub open spec fn phase_sum(self) -> int {
        self.key_generation_ns + self.encrypt_a_ns + self.encrypt_b_ns + self.operation_ns
            + self.decrypt_ns
    }

    /// A report never claims a total below the sum of its phases: the
    /// total may include unmeasured overhead, never less.
    pub open spec fn wf(self) -> bool {
        self.total_ns >= self.phase_sum()
    }

    /// Assembles a report. The stored total is the measured total, raised
    /// to the phase sum if the measurement came in below it.
    pub fn new(
        case: BenchmarkCase,
        result: u64,
        key_generation_ns: u64,
        encrypt_a_ns: u64,
        encrypt_b_ns: u64,
        operation_ns: u64,
        decrypt_ns: u64,
        measured_total_ns: u128,
    ) -> (r: TimingReport)
        ensures
            r.case == case,
            r.result == result,
            r.key_generation_ns == key_generation_ns,
            r.encrypt_a_ns == encrypt_a_ns,
            r.encrypt_b_ns == encrypt_b_ns,
            r.operation_ns == operation_ns,
            r.decrypt_ns == decrypt_ns,
            r.total_ns as int == if measured_total_ns >= r.phase_sum() {
                measured_total_ns as int
            } else {
                r.phase_sum()
            },
            r.wf(),
    {
        let sum: u128 = key_generation_ns as u128 + encrypt_a_ns as u128 + encrypt_b_ns as u128
            + operation_ns as u128 + decrypt_ns as u128;
        let total: u128 = if measured_total_ns >= sum {
            measured_total_ns
        } else {
            sum
        };
        TimingReport {
            case,
            result,
            key_generation_ns,
            encrypt_a_ns,
            encrypt_b_ns,
            operation_ns,
            decrypt_ns,
            total_ns: total,
        }
    }
}

/// The full text of a report file: one line per phase, then the total.
pub open spec fn report_text(r: TimingReport) -> Seq<char> {
    "Time to generate keys: "@ + dec_digits(r.key_generation_ns as int) + "ns\n"@
        + "Time to encrypt a: "@ + dec_digits(r.encrypt_a_ns as int) + "ns\n"@
        + "Time to encrypt b: "@ + dec_digits(r.encrypt_b_ns as int) + "ns\n"@ + "Time to "@
        + r.case.op.name_spec() + ": "@ + dec_digits(r.operation_ns as int) + "ns\n"@
        + "Time to decrypt: "@ + dec_digits(r.decrypt_ns as int) + "ns\n"@ + "Total time: "@
        + dec_digits(r.total_ns as int) + "ns\n"@
}

/// Renders the report file contents.
pub fn render(r: &TimingReport) -> (s: String)
    ensures
        s@ == report_text(*r),
{
    let mut s = String::new();
    s.append("Time to generate keys: ");
    let d0 = decimal_string(r.key_generation_ns as u128);
    s.append(d0.as_str());
    s.append("ns\n");
    s.append("Time to encrypt a: ");
    let d1 = decimal_string(r.encrypt_a_ns as u128);
    s.append(d1.as_str());
    s.append("ns\n");
    s.append("Time to encrypt b: ");
    let d2 = decimal_string(r.encrypt_b_ns as u128);
    s.append(d2.as_str());
    s.append("ns\n");
    s.append("Time to ");
    s.append(r.case.op.name());
    s.append(": ");
    let d3 = decimal_string(r.operation_ns as u128);
    s.append(d3.as_str());
    s.append("ns\n");
    s.append("Time to decrypt: ");
    let d4 = decimal_string(r.decrypt_ns as u128);
    s.append(d4.as_str());
    s.append("ns\n");
    s.append("Total time: ");
    let d5 = decimal_string(r.total_ns);
    s.append(d5.as_str());
    s.append("ns\n");
    proof {
        assert(s@ =~= report_text(*r));
    }
    s
}

/// How many newline characters a text holds; the report text ends every
/// line with one, so this is its line count.
pub open spec fn count_newlines(s: Seq<char>) -> int
    decreases s.len(),
{
    if s.len() == 0 {
        0int
    } else {
        count_newlines(s.drop_last()) + if s.last() == '\n' {
            1int
        } else {
            0int
        }
    }
}

proof fn lemma_count_newlines_concat(a: Seq<char>, b: Seq<char>)
    ensures
        count_newlines(a + b) == count_newlines(a) + count_newlines(b),
    decreases b.len(),
{
    if b.len() == 0 {
        assert(a + b =~= a);
    } else {
        lemma_count_newlines_concat(a, b.drop_last());
        assert((a + b).drop_last() =~= a + b.drop_last());
        assert((a + b).last() == b.last());
    }
}

proof fn lemma_no_newline_count(s: Seq<char>)
    requires
        forall|i: int| 0 <= i < s.len() ==> s[i] != '\n',
    ensures
        count_newlines(s) == 0,
    decreases s.len(),
{
    if s.len() > 0 {
        lemma_no_newline_count(s.drop_last());
    }
}

proof fn lemma_one_terminal_newline_count(s: Seq<char>)
    requires
        s.len() > 0,
        s.last() == '\n',
        forall|i: int| 0 <= i < s.len() - 1 ==> s[i] != '\n',
    ensures
        count_newlines(s) == 1,
{
    lemma_no_newline_count(s.drop_last());
}

proof fn lemma_dec_digits_no_newline(n: int)
    ensures
        count_newlines(dec_digits(n)) == 0,
    decreases n,
{
    if n < 10 {
        assert(dec_digits(n).drop_last() =~= Seq::<char>::empty());
        assert(count_newlines(Seq::<char>::empty()) == 0);
    } else {
        lemma_dec_digits_no_newline(n / 10);
        assert(dec_digits(n).drop_last() =~= dec_digits(n / 10));
    }
}

proof fn lemma_op_name_no_newline(op: OperationKind)
    ensures
        count_newlines(op.name_spec()) == 0,
{
    reveal_strlit("add");
    reveal_strlit("sub");
    reveal_strlit("mul");
    lemma_no_newline_count(op.name_spec());
}

/// A report's text holds exactly six lines: one per named duration entry
/// of the report, the total's line last.
pub proof fn lemma_report_six_lines(r: TimingReport)
    ensures
        count_newlines(report_text(r)) == 6,
{
    reveal_strlit("Time to generate keys: ");
    reveal_strlit("Time to encrypt a: ");
    reveal_strlit("Time to encrypt b: ");
    reveal_strlit("Time to ");
    reveal_strlit("Time to decrypt: ");
    reveal_strlit("Total time: ");
    reveal_strlit(": ");
    reveal_strlit("ns\n");
    lemma_no_newline_count("Time to generate keys: "@);
    lemma_no_newline_count("Time to encrypt a: "@);
    lemma_no_newline_count("Time to encrypt b: "@);
    lemma_no_newline_count("Time to "@);
    lemma_no_newline_count("Time to decrypt: "@);
    lemma_no_newline_count("Total time: "@);
    lemma_no_newline_count(": "@);
    lemma_one_terminal_newline_count("ns\n"@);
    lemma_dec_digits_no_newline(r.key_generation_ns as int);
    lemma_dec_digits_no_newline(r.encrypt_a_ns as int);
    lemma_dec_digits_no_newline(r.encrypt_b_ns as int);
    lemma_dec_digits_no_newline(r.operation_ns as int);
    lemma_dec_digits_no_newline(r.decrypt_ns as int);
    lemma_dec_digits_no_newline(r.total_ns as int);
    lemma_op_name_no_newline(r.case.op);
    let p1 = "Time to generate keys: "@;
    let p2 = p1 + dec_digits(r.key_generation_ns as int);
    let p3 = p2 + "ns\n"@;
    let p4 = p3 + "Time to encrypt a: "@;
    let p5 = p4 + dec_digits(r.encrypt_a_ns as int);
    let p6 = p5 + "ns\n"@;
    let p7 = p6 + "Time to encrypt b: "@;
    let p8 = p7 + dec_digits(r.encrypt_b_ns as int);
    let p9 = p8 + "ns\n"@;
    let p10 = p9 + "Time to "@;
    let p11 = p10 + r.case.op.name_spec();
    let p12 = p11 + ": "@;
    let p13 = p12 + dec_digits(r.operation_ns as int);
    let p14 = p13 + "ns\n"@;
    let p15 = p14 + "Time to decrypt: "@;
    let p16 = p15 + dec_digits(r.decrypt_ns as int);
    let p17 = p16 + "ns\n"@;
    let p18 = p17 + "Total time: "@;
    let p19 = p18 + dec_digits(r.total_ns as int);
    let p20 = p19 + "ns\n"@;
    lemma_count_newlines_concat(p1, dec_digits(r.key_generation_ns as int));
    lemma_count_newlines_concat(p2, "ns\n"@);
    lemma_count_newlines_concat(p3, "Time to encrypt a: "@);
    lemma_count_newlines_concat(p4, dec_digits(r.encrypt_a_ns as int));
    lemma_count_newlines_concat(p5, "ns\n"@);
    lemma_count_newlines_concat(p6, "Time to encrypt b: "@);
    lemma_count_newlines_concat(p7, dec_digits(r.encrypt_b_ns as int));
    lemma_count_newlines_concat(p8, "ns\n"@);
    lemma_count_newlines_concat(p9, "Time to "@);
    lemma_count_newlines_concat(p10, r.case.op.name_spec());
    lemma_count_newlines_concat(p11, ": "@);
    lemma_count_newlines_concat(p12, dec_digits(r.operation_ns as int));
    lemma_count_newlines_concat(p13, "ns\n"@);
    lemma_count_newlines_concat(p14, "Time to decrypt: "@);
    lemma_count_newlines_concat(p15, dec_digits(r.decrypt_ns as int));
    lemma_count_newlines_concat(p16, "ns\n"@);
    lemma_count_newlines_concat(p17, "Total time: "@);
    lemma_count_newlines_concat(p18, dec_digits(r.total_ns as int));
    lemma_count_newlines_concat(p19, "ns\n"@);
    assert(report_text(r) == p20);
}

/// The deterministic output path of a case's report file.
pub open spec fn path_spec(c: BenchmarkCase) -> Seq<char> {
    "benchmarks/benchmark_"@ + c.width.name_spec() + "_"@ + c.op.name_spec() + ".txt"@
}

proof fn lemma_width_name_injective(w1: Width, w2: Width)
    ensures
        w1.name_spec() == w2.name_spec() ==> w1 == w2,
{
    reveal_strlit("u8");
    reveal_strlit("u16");
    reveal_strlit("u32");
    reveal_strlit("u64");
    assert("u8"@.len() == 2);
    assert("u16"@[1] == '1');
    assert("u32"@[1] == '3');
    assert("u64"@[1] == '6');
}

proof fn lemma_op_name_injective(o1: OperationKind, o2: OperationKind)
    ensures
        o1.name_spec() == o2.name_spec() ==> o1 == o2,
{
    reveal_strlit("add");
    reveal_strlit("sub");
    reveal_strlit("mul");
    assert("add"@[0] == 'a');
    assert("sub"@[0] == 's');
    assert("mul"@[0] == 'm');
}

/// One file per case: two distinct cases never share an output path, so a
/// full sweep writes exactly one file for each width/operation
/// combination.
pub proof fn lemma_path_injective(c1: BenchmarkCase, c2: BenchmarkCase)
    ensures
        path_spec(c1) == path_spec(c2) ==> c1 == c2,
{
    reveal_strlit("benchmarks/benchmark_");
    reveal_strlit("_");
    reveal_strlit(".txt");
    reveal_strlit("u8");
    reveal_strlit("u16");
    reveal_strlit("u32");
    reveal_strlit("u64");
    reveal_strlit("add");
    reveal_strlit("sub");
    reveal_strlit("mul");
    if path_spec(c1) == path_spec(c2) {
        let pre = "benchmarks/benchmark_"@;
        let w1 = c1.width.name_spec();
        let w2 = c2.width.name_spec();
        let o1 = c1.op.name_spec();
        let o2 = c2.op.name_spec();
        assert(pre.len() == 21);
        assert(o1.len() == 3 && o2.len() == 3);
        assert(2 <= w1.len() <= 3 && 2 <= w2.len() <= 3);
        assert(path_spec(c1).len() == w1.len() + 29);
        assert(path_spec(c2).len() == w2.len() + 29);
        assert(w1.len() == w2.len());
        assert forall|k: int| 0 <= k < w1.len() implies w1[k] == w2[k] by {
            assert(path_spec(c1)[21 + k] == w1[k]);
            assert(path_spec(c2)[21 + k] == w2[k]);
        }
        assert(w1 =~= w2);
        lemma_width_name_injective(c1.width, c2.width);
        let m = 22 + w1.len();
        assert forall|k: int| 0 <= k < 3 implies o1[k] == o2[k] by {
            assert(path_spec(c1)[m + k] == o1[k]);
            assert(path_spec(c2)[m + k] == o2[k]);
        }
        assert(o1 =~= o2);
        lemma_op_name_injective(c1.op, c2.op);
    }
}

/// A full sweep writes exactly one file per width/operation combination:
/// two distinct catalog entries never share an output path.
pub proof fn lemma_one_file_per_combination(i: int, j: int)
    requires
        0 <= i < crate::catalog::catalog_spec().len(),
        0 <= j < crate::catalog::catalog_spec().len(),
        i != j,
    ensures
        path_spec(crate::catalog::catalog_spec()[i]) != path_spec(
            crate::catalog::catalog_spec()[j],
        ),
{
    crate::catalog::lemma_catalog_distinct(i, j);
    lemma_path_injective(crate::catalog::catalog_spec()[i], crate::catalog::catalog_spec()[j]);
}

/// Derives the output path of a case's report file. Two runs of the same
/// case always name the same file.
pub fn path_for(c: BenchmarkCase) -> (r: String)
    ensures
        r@ == path_spec(c),
{
    let mut s = String::new();
    s.append("benchmarks/benchmark_");
    s.append(c.width.name());
    s.append("_");
    s.append(c.op.name());
    s.append(".txt");
    proof {
        assert(s@ =~= path_spec(c));
    }
    s
}

} // verus!
