//! The error taxonomy of a benchmark run.

use vstd::prelude::*;
use crate::catalog::Width;

verus! {

/// Everything that can go wrong while running or recording one benchmark
/// case. A failure of one case never touches the other cases.
#[derive(Clone, Copy, PartialEq, Eq, Structural, Debug)]
pub enum BenchError {
    /// The case's width/operation pairing is invalid. Unreachable with the
    /// closed catalog, but kept as a typed possibility.
    Config,
    /// A cleartext operand does not fit in the case's width.
    Range { value: u64, width: Width },
    /// The backend failed fatally (key generation or decryption).
    BackendFatal,
    /// The report file could not be created or written.
    Io,
}

impl BenchError {
    /// The short kind name used in run summaries.
    pub open spec fn kind_name_spec(self) -> Seq<char> {
        match self {
            BenchError::Config => "configuration error"@,
            BenchError::Range { .. } => "range error"@,
            BenchError::BackendFatal => "backend fatal error"@,
            BenchError::Io => "io error"@,
        }
    }

    pub fn kind_name(&self) -> (r: &'static str)
        ensures
            r@ == self.kind_name_spec(),
    {
        match self {
            BenchError::Config => "configuration error",
            BenchError::Range { .. } => "range error",
            BenchError::BackendFatal => "backend fatal error",
            BenchError::Io => "io error",
        }
    }
}

} // verus!
