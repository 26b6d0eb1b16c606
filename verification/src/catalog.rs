//! Benchmark cases: cleartext widths, operation kinds, their fixed catalog,
//! and the mathematical model of the backend's modular integer arithmetic.

use vstd::prelude::*;

verus! {

/// The unsigned cleartext widths a benchmark case can exercise.
#[derive(Clone, Copy, PartialEq, Eq, Structural, Debug)]
pub enum Width {
    W8,
    W16,
    W32,
    W64,
}

/// The homomorphic binary operations a benchmark case can exercise.
#[derive(Clone, Copy, PartialEq, Eq, Structural, Debug)]
pub enum OperationKind {
    Add,
    Sub,
    Mul,
}

/// One benchmark unit: a width paired with an operation.
#[derive(Clone, Copy, PartialEq, Eq, Structural, Debug)]
pub struct BenchmarkCase {
    pub width: Width,
    pub op: OperationKind,
}

impl Width {
    /// Exclusive upper bound of the cleartext domain for this width.
    pub open spec fn modulus(self) -> int {
        match self {
            Width::W8 => 0x100,
            Width::W16 => 0x1_0000,
            Width::W32 => 0x1_0000_0000,
            Width::W64 => 0x1_0000_0000_0000_0000,
        }
    }

    /// Whether a cleartext operand is representable at this width.
    pub open spec fn fits(self, x: u64) -> bool {
        x < self.modulus()
    }

    /// Largest cleartext representable at this width.
    pub fn max_value(self) -> (r: u64)
        ensures
            r as int == self.modulus() - 1,
    {
        match self {
            Width::W8 => 0xFF,
            Width::W16 => 0xFFFF,
            Width::W32 => 0xFFFF_FFFF,
            Width::W64 => 0xFFFF_FFFF_FFFF_FFFF,
        }
    }

    /// Runtime range check, equivalent to the `fits` model.
    pub fn fits_value(self, x: u64) -> (r: bool)
        ensures
            r == self.fits(x),
    {
        x <= self.max_value()
    }

    /// The short name used in file paths and summaries.
    pub open spec fn name_spec(self) -> Seq<char> {
        match self {
            Width::W8 => "u8"@,
            Width::W16 => "u16"@,
            Width::W32 => "u32"@,
            Width::W64 => "u64"@,
        }
    }

    pub fn name(self) -> (r: &'static str)
        ensures
            r@ == self.name_spec(),
    {
        match self {
            Width::W8 => "u8",
            Width::W16 => "u16",
            Width::W32 => "u32",
            Width::W64 => "u64",
        }
    }
}

impl OperationKind {
    /// The short name used in file paths, report lines and summaries.
    pub open spec fn name_spec(self) -> Seq<char> {
        match self {
            OperationKind::Add => "add"@,
            OperationKind::Sub => "sub"@,
            OperationKind::Mul => "mul"@,
        }
    }

    pub fn name(self) -> (r: &'static str)
        ensures
            r@ == self.name_spec(),
    {
        match self {
            OperationKind::Add => "add",
            OperationKind::Sub => "sub",
            OperationKind::Mul => "mul",
        }
    }
}

/// The backend's documented semantics for each operation: modular
/// ("wrapping") arithmetic in the cleartext domain of the chosen width.
pub open spec fn clear_result(op: OperationKind, w: Width, a: u64, b: u64) -> int {
    match op {
        OperationKind::Add => (a + b) % w.modulus(),
        OperationKind::Sub => (a - b) % w.modulus(),
        OperationKind::Mul => (a * b) % w.modulus(),
    }
}

/// Computes the backend's documented modular result on cleartexts: the
/// reference an FHE run is held against.
pub fn clear_apply(op: OperationKind, w: Width, a: u64, b: u64) -> (r: u64)
    requires
        w.fits(a),
        w.fits(b),
    ensures
        r as int == clear_result(op, w, a, b),
{
    let m: u128 = match w {
        Width::W8 => 0x100,
        Width::W16 => 0x1_0000,
        Width::W32 => 0x1_0000_0000,
        Width::W64 => 0x1_0000_0000_0000_0000,
    };
    let r: u128 = match op {
        OperationKind::Add => ((a as u128) + (b as u128)) % m,
        OperationKind::Sub => {
            let v = ((a as u128) + m - (b as u128)) % m;
            proof {
                vstd::arithmetic::div_mod::lemma_mod_add_multiples_vanish(
                    a as int - b as int,
                    m as int,
                );
            }
            v
        },
        OperationKind::Mul => {
            proof {
                assert((a as int) * (b as int) <= 0xFFFF_FFFF_FFFF_FFFF * 0xFFFF_FFFF_FFFF_FFFF)
                    by (nonlinear_arith)
                    requires
                        a <= 0xFFFF_FFFF_FFFF_FFFF,
                        b <= 0xFFFF_FFFF_FFFF_FFFF,
                ;
            }
            ((a as u128) * (b as u128)) % m
        },
    };
    r as u64
}

/// The fixed, ordered catalog: the outer enumeration runs over operations,
/// the inner one over widths, so reports are grouped by operation.
pub open spec fn catalog_spec() -> Seq<BenchmarkCase> {
    seq![
        BenchmarkCase { width: Width::W8, op: OperationKind::Add },
        BenchmarkCase { width: Width::W16, op: OperationKind::Add },
        BenchmarkCase { width: Width::W32, op: OperationKind::Add },
        BenchmarkCase { width: Width::W64, op: OperationKind::Add },
        BenchmarkCase { width: Width::W8, op: OperationKind::Sub },
        BenchmarkCase { width: Width::W16, op: OperationKind::Sub },
        BenchmarkCase { width: Width::W32, op: OperationKind::Sub },
        BenchmarkCase { width: Width::W64, op: OperationKind::Sub },
        BenchmarkCase { width: Width::W8, op: OperationKind::Mul },
        BenchmarkCase { width: Width::W16, op: OperationKind::Mul },
        BenchmarkCase { width: Width::W32, op: OperationKind::Mul },
        BenchmarkCase { width: Width::W64, op: OperationKind::Mul },
    ]
}

/// Produces the catalog of all width/operation combinations, in the fixed
/// documented order.
pub fn catalog() -> (r: Vec<BenchmarkCase>)
    ensures
        r@ == catalog_spec(),
{
    let mut v: Vec<BenchmarkCase> = Vec::new();
    v.push(BenchmarkCase { width: Width::W8, op: OperationKind::Add });
    v.push(BenchmarkCase { width: Width::W16, op: OperationKind::Add });
    v.push(BenchmarkCase { width: Width::W32, op: OperationKind::Add });
    v.push(BenchmarkCase { width: Width::W64, op: OperationKind::Add });
    v.push(BenchmarkCase { width: Width::W8, op: OperationKind::Sub });
    v.push(BenchmarkCase { width: Width::W16, op: OperationKind::Sub });
    v.push(BenchmarkCase { width: Width::W32, op: OperationKind::Sub });
    v.push(BenchmarkCase { width: Width::W64, op: OperationKind::Sub });
    v.push(BenchmarkCase { width: Width::W8, op: OperationKind::Mul });
    v.push(BenchmarkCase { width: Width::W16, op: OperationKind::Mul });
    v.push(BenchmarkCase { width: Width::W32, op: OperationKind::Mul });
    v.push(BenchmarkCase { width: Width::W64, op: OperationKind::Mul });
    proof {
        assert(v@ =~= catalog_spec());
    }
    v
}

/// Every width/operation combination appears in the catalog.
pub proof fn lemma_catalog_complete(c: BenchmarkCase)
    ensures
        exists|i: int| 0 <= i < catalog_spec().len() && catalog_spec()[i] == c,
{
    match c.op {
        OperationKind::Add => match c.width {
            Width::W8 => assert(catalog_spec()[0] == c),
            Width::W16 => assert(catalog_spec()[1] == c),
            Width::W32 => assert(catalog_spec()[2] == c),
            Width::W64 => assert(catalog_spec()[3] == c),
        },
        OperationKind::Sub => match c.width {
            Width::W8 => assert(catalog_spec()[4] == c),
            Width::W16 => assert(catalog_spec()[5] == c),
            Width::W32 => assert(catalog_spec()[6] == c),
            Width::W64 => assert(catalog_spec()[7] == c),
        },
        OperationKind::Mul => match c.width {
            Width::W8 => assert(catalog_spec()[8] == c),
            Width::W16 => assert(catalog_spec()[9] == c),
            Width::W32 => assert(catalog_spec()[10] == c),
            Width::W64 => assert(catalog_spec()[11] == c),
        },
    }
}

/// No width/operation combination appears twice in the catalog.
pub proof fn lemma_catalog_distinct(i: int, j: int)
    requires
        0 <= i < catalog_spec().len(),
        0 <= j < catalog_spec().len(),
        i != j,
    ensures
        catalog_spec()[i] != catalog_spec()[j],
{
}

} // verus!
