//! The invocation pipeline: a strictly sequential state machine that runs
//! one request through assembly, signing, dispatch and rendering.
//!
//! The stages never overlap; the caller performs each stage's outside work
//! (reading, signing, the network exchange, printing) and hands the outcome
//! back to advance the machine. Rendering never fails the pipeline:
//! formatting problems degrade inside the renderer instead.

use vstd::prelude::*;

use crate::error::Error;

verus! {

/// Where one invocation stands. `Succeeded` and `Failed` are terminal.
pub enum Stage {
    /// Building the request draft from options and resolved body.
    Assembling,
    /// Handing the draft to the signer capability.
    Signing,
    /// Handing the signed request to the transport and buffering the
    /// whole response.
    Dispatching,
    /// Formatting the buffered response and writing it out.
    Rendering,
    /// The response was rendered in full, whatever its HTTP status code.
    Succeeded,
    /// A stage failed; the invocation ends with this error.
    Failed(Error),
}

impl Stage {
    /// Whether the invocation is over.
    pub open spec fn is_terminal(&self) -> bool {
        self is Succeeded || self is Failed
    }
}

/// Advances the pipeline by the outcome of the stage just run: a failure of
/// assembly, signing or dispatch ends the run with that error; rendering
/// cannot fail, so its stage always succeeds; terminal states stay put.
pub fn advance(stage: Stage, outcome: Result<(), Error>) -> (next: Stage)
    ensures
        stage is Assembling && outcome is Ok ==> next is Signing,
        stage is Signing && outcome is Ok ==> next is Dispatching,
        stage is Dispatching && outcome is Ok ==> next is Rendering,
        stage is Rendering ==> next is Succeeded,
        !stage.is_terminal() && !(stage is Rendering) ==> (outcome matches Err(e) ==> next
            == Stage::Failed(e)),
        stage.is_terminal() ==> next == stage,
{
    match stage {
        Stage::Assembling => match outcome {
            Ok(()) => Stage::Signing,
            Err(e) => Stage::Failed(e),
        },
        Stage::Signing => match outcome {
            Ok(()) => Stage::Dispatching,
            Err(e) => Stage::Failed(e),
        },
        Stage::Dispatching => match outcome {
            Ok(()) => Stage::Rendering,
            Err(e) => Stage::Failed(e),
        },
        Stage::Rendering => Stage::Succeeded,
        Stage::Succeeded => Stage::Succeeded,
        Stage::Failed(e) => Stage::Failed(e),
    }
}

/// The pipeline failure for a signing-stage error: a credentials failure
/// keeps its kind; any other signing failure counts as a dispatch failure.
pub fn signing_failure(credentials_failed: bool, message: String) -> (e: Error)
    ensures
        credentials_failed ==> (e matches Error::Credentials(m) && m@ == message@),
        !credentials_failed ==> (e matches Error::Dispatch(m) && m@ == message@),
{
    if credentials_failed {
        Error::Credentials(message)
    } else {
        Error::Dispatch(message)
    }
}

/// The process exit status for a finished run: zero only for a fully
/// rendered response, whatever its HTTP status code.
pub fn exit_code(stage: &Stage) -> (c: i32)
    ensures
        stage is Succeeded <==> c == 0,
        stage is Failed ==> c == 1,
{
    match stage {
        Stage::Succeeded => 0,
        _ => 1,
    }
}

} // verus!
