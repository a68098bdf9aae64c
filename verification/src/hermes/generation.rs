//! Retiring the generation of an installation while its files are changed.
//!
//! A generation is taken out of use before the shared gateway is stopped, so that no client restarts it, and
//! put back where the change fails.

use crate::error::{CliError, Failure};
use vstd::prelude::*;
use vstd::string::*;

verus! {

/// What retiring a generation does next.
#[derive(Debug)]
pub enum RetirementStep {
    /// Take the generation out of use.
    Invalidate,
    /// Stop the gateway; `held` says whether a generation was taken out of use.
    StopGateway { held: bool },
    /// Put the generation back, because the gateway could not be stopped.
    Restore { error: String },
    /// The generation is retired, where there was one.
    Retired { held: bool },
    Failed(CliError),
}

/// What follows the attempt to acquire a generation: whether there is one, or why that failed.
pub fn after_acquire(acquired: Result<bool, String>) -> (r: RetirementStep)
    ensures
        match acquired {
            Err(error) => r is Failed && r->Failed_0.view() == Failure::Install(error@),
            Ok(held) => if held {
                r is Invalidate
            } else {
                r is StopGateway && !r->StopGateway_held
            },
        },
{
    match acquired {
        Err(error) => RetirementStep::Failed(CliError::Install(error)),
        Ok(true) => RetirementStep::Invalidate,
        Ok(false) => RetirementStep::StopGateway { held: false },
    }
}

/// What follows the attempt to take a generation out of use.
pub fn after_invalidate(invalidated: Result<(), String>) -> (r: RetirementStep)
    ensures
        match invalidated {
            Err(error) => r is Failed && r->Failed_0.view() == Failure::Install(error@),
            Ok(_) => r is StopGateway && r->StopGateway_held,
        },
{
    match invalidated {
        Err(error) => RetirementStep::Failed(CliError::Install(error)),
        Ok(_) => RetirementStep::StopGateway { held: true },
    }
}

/// What follows the attempt to stop the gateway. Where that fails, a generation that was taken out of use is
/// put back first.
pub fn after_stop(held: bool, stopped: Result<(), String>) -> (r: RetirementStep)
    ensures
        match stopped {
            Ok(_) => r is Retired && r->Retired_held == held,
            Err(error) => if held {
                r is Restore && r->Restore_error@ == error@
            } else {
                r is Failed && r->Failed_0.view() == Failure::Install(error@)
            },
        },
{
    match stopped {
        Ok(_) => RetirementStep::Retired { held },
        Err(error) => {
            if held {
                RetirementStep::Restore { error }
            } else {
                RetirementStep::Failed(CliError::Install(error))
            }
        },
    }
}

/// The error that is left after a generation was to be put back because the gateway could not be stopped.
pub fn after_restore(error: String, restored: Result<(), String>) -> (r: CliError)
    ensures
        r.view() == Failure::Install(
            match restored {
                Ok(_) => error@,
                Err(restore_error) => error@ + "; additionally failed to restore the Hermes MCP generation: "@
                    + restore_error@,
            },
        ),
{
    match restored {
        Ok(_) => CliError::Install(error),
        Err(restore_error) => CliError::Install(
            error.concat("; additionally failed to restore the Hermes MCP generation: ").concat(
                restore_error.as_str(),
            ),
        ),
    }
}

/// What becomes of a retired generation once the change is made or has failed.
#[derive(Debug, Clone, Copy, PartialEq, Eq, Structural)]
pub enum GenerationEnd {
    /// There is none.
    Nothing,
    /// The change stands: the generation is replaced.
    Commit,
    /// The change failed: the generation is put back.
    Restore,
}

/// What becomes of a retired generation: `held` says whether there is one.
pub fn generation_end(succeeded: bool, held: bool) -> (r: GenerationEnd)
    ensures
        r == (if !held {
            GenerationEnd::Nothing
        } else if succeeded {
            GenerationEnd::Commit
        } else {
            GenerationEnd::Restore
        }),
{
    if !held {
        GenerationEnd::Nothing
    } else if succeeded {
        GenerationEnd::Commit
    } else {
        GenerationEnd::Restore
    }
}

/// What a change of an installation comes to: its error tells, and beside it that of putting the generation
/// back. `restored` says what came of that, where it was tried.
pub fn finish_generation_mutation<T>(
    result: Result<T, CliError>,
    restored: Option<Result<(), String>>,
    operation: &str,
) -> (r: Result<T, CliError>)
    ensures
        match result {
            Ok(value) => r == Ok::<T, CliError>(value),
            Err(error) => match restored {
                Some(Err(restore_error)) => r is Err && r->Err_0.view() == Failure::Install(
                    error.view().text() + "; additionally failed to restore the Hermes MCP generation after "@
                        + operation@ + ": "@ + restore_error@,
                ),
                _ => r == Err::<T, CliError>(error),
            },
        },
{
    match result {
        Ok(value) => Ok(value),
        Err(error) => match restored {
            Some(Err(restore_error)) => Err(
                CliError::Install(
                    error.message().to_owned().concat(
                        "; additionally failed to restore the Hermes MCP generation after ",
                    ).concat(operation).concat(": ").concat(restore_error.as_str()),
                ),
            ),
            _ => Err(error),
        },
    }
}

} // verus!
