//! The normalized progress model: how far a job has come, and in which
//! stage of its life it is.

use vstd::prelude::*;

verus! {

/// The stage of a job's life. A job only ever moves forward through them.
#[derive(Debug, Clone, Copy, PartialEq, Eq, Structural)]
pub enum ProgressState {
    Pending,
    InProgress,
    Finished,
}

impl ProgressState {
    /// The position of the stage in the order in which a job passes them.
    pub open spec fn rank(&self) -> nat {
        match self {
            ProgressState::Pending => 0,
            ProgressState::InProgress => 1,
            ProgressState::Finished => 2,
        }
    }
}

/// The completed share of a job.
///
/// `Known` holds the share as the exact fraction `numerator / denominator`;
/// `Unknown` says that the job is alive but its position cannot be told.
#[derive(Debug, Clone, Copy, PartialEq, Eq, Structural)]
pub enum Percentage {
    Unknown,
    Known { numerator: u128, denominator: u128 },
}

impl Percentage {
    /// A known share lies between zero and one and has a denominator.
    pub open spec fn wf(&self) -> bool {
        match self {
            Percentage::Unknown => true,
            Percentage::Known { numerator, denominator } => 0 < *denominator && *numerator
                <= *denominator,
        }
    }

    /// The share of a job that is done.
    pub fn complete() -> (percentage: Percentage)
        ensures
            percentage == (Percentage::Known { numerator: 1, denominator: 1 }),
    {
        Percentage::Known { numerator: 1, denominator: 1 }
    }
}

/// One observation of a running job.
#[derive(Debug, Clone, Copy, PartialEq, Eq, Structural)]
pub struct ProgressUpdate {
    pub percentage: Percentage,
    pub state: ProgressState,
}

} // verus!
