//! Errors that abort the construction of a pipeline.
//!
//! A malformed delimiter placement, a failed pipe creation, a failed
//! spawn, and a failed wait abort the whole pipeline build in the
//! controller.  A descriptor wiring failure is fatal only to the one
//! child it occurs in, which terminates with the reserved status; the
//! controller itself never sees it as an error value.

use crate::render::{append_decimal, i32_to_string, spec_int_digits, spec_nat_digits};
use vstd::prelude::*;
use vstd::string::StringExecFns;

verus! {

/// Why a pipeline could not be built or reaped.  Each variant carries
/// the index of the stage or link on which the operation failed; the
/// operating-system failures also carry the reported errno.
#[derive(Debug, Clone, Copy, PartialEq, Eq, Structural)]
pub enum PipelineError {
    /// A leading, trailing, or doubled delimiter produced a stage with
    /// no tokens.
    EmptyStageError { stage: usize },
    /// Creating the pipe link with this index failed.
    PipeCreationError { link: usize, errno: i32 },
    /// Spawning the process for this stage failed.
    SpawnError { stage: usize, errno: i32 },
    /// Duplicating or closing a descriptor inside a child failed.
    DescriptorWireError { errno: i32 },
    /// Waiting for the child of this stage failed.
    WaitError { stage: usize, errno: i32 },
}

/// The descriptive line printed for a failed pipeline, naming the
/// stage or link the failure occurred on.
pub open spec fn spec_error_message(e: PipelineError) -> Seq<char> {
    match e {
        PipelineError::EmptyStageError { stage } => "empty stage at index "@ + spec_nat_digits(
            stage as int,
        ),
        PipelineError::PipeCreationError { link, errno } => "pipe creation failed for link "@
            + spec_nat_digits(link as int) + ", errno "@ + spec_int_digits(errno as int),
        PipelineError::SpawnError { stage, errno } => "spawn failed for stage "@
            + spec_nat_digits(stage as int) + ", errno "@ + spec_int_digits(errno as int),
        PipelineError::DescriptorWireError { errno } => "descriptor wiring failed, errno "@
            + spec_int_digits(errno as int),
        PipelineError::WaitError { stage, errno } => "wait failed for stage "@ + spec_nat_digits(
            stage as int,
        ) + ", errno "@ + spec_int_digits(errno as int),
    }
}

impl PipelineError {
    /// Renders the descriptive line for this failure.
    pub fn message(&self) -> (s: String)
        ensures
            s@ =~= spec_error_message(*self),
    {
        match *self {
            PipelineError::EmptyStageError { stage } => {
                let mut s: String = "empty stage at index ".to_owned();
                append_decimal(&mut s, stage as u64);
                s
            },
            PipelineError::PipeCreationError { link, errno } => {
                let mut s: String = "pipe creation failed for link ".to_owned();
                append_decimal(&mut s, link as u64);
                s.append(", errno ");
                let e = i32_to_string(errno);
                s.append(e.as_str());
                s
            },
            PipelineError::SpawnError { stage, errno } => {
                let mut s: String = "spawn failed for stage ".to_owned();
                append_decimal(&mut s, stage as u64);
                s.append(", errno ");
                let e = i32_to_string(errno);
                s.append(e.as_str());
                s
            },
            PipelineError::DescriptorWireError { errno } => {
                let mut s: String = "descriptor wiring failed, errno ".to_owned();
                let e = i32_to_string(errno);
                s.append(e.as_str());
                s
            },
            PipelineError::WaitError { stage, errno } => {
                let mut s: String = "wait failed for stage ".to_owned();
                append_decimal(&mut s, stage as u64);
                s.append(", errno ");
                let e = i32_to_string(errno);
                s.append(e.as_str());
                s
            },
        }
    }
}

/// The status a child terminates with when its command cannot be
/// resolved or its descriptors cannot be wired.
pub const FAILED_CHILD_STATUS: i32 = 1;

} // verus!
