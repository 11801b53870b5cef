//! Error kinds surfaced by planning and execution.

use vstd::prelude::*;

verus! {

/// Every failure the executor can return to a caller.
#[derive(Debug, Clone)]
pub enum ExecError {
    /// Malformed SQL; surfaced before any statement runs.
    Parse { message: String },
    /// The planner cannot resolve a statement.
    Plan { message: String },
    /// A logical-plan variant has no execution handler.
    UnimplementedPlan { message: String },
    /// A physical operator was invoked on a partition other than 0.
    Partition { partition: usize },
    /// The catalog version moved between plan time and commit time.
    Conflict { expected: u64, current: u64 },
    /// The storage or catalog backend failed.
    Backend { message: String },
    /// An extension-node payload was malformed or of the wrong kind.
    Decode { message: String },
}

impl ExecError {
    /// A short, stable tag naming the error kind.
    pub fn kind(&self) -> (r: &'static str)
        ensures
            r@ == self.kind_spec(),
    {
        match self {
            ExecError::Parse { .. } => "parse",
            ExecError::Plan { .. } => "plan",
            ExecError::UnimplementedPlan { .. } => "unimplemented plan",
            ExecError::Partition { .. } => "partition",
            ExecError::Conflict { .. } => "conflict",
            ExecError::Backend { .. } => "backend",
            ExecError::Decode { .. } => "decode",
        }
    }

    pub open spec fn kind_spec(&self) -> Seq<char> {
        match self {
            ExecError::Parse { .. } => "parse"@,
            ExecError::Plan { .. } => "plan"@,
            ExecError::UnimplementedPlan { .. } => "unimplemented plan"@,
            ExecError::Partition { .. } => "partition"@,
            ExecError::Conflict { .. } => "conflict"@,
            ExecError::Backend { .. } => "backend"@,
            ExecError::Decode { .. } => "decode"@,
        }
    }
}

} // verus!
