//! What the outcome of a command means, and whether the run goes on after it.

use vstd::prelude::*;
use crate::executor::{ExecutorResult, ExecutorStatus};
use crate::iptables::action::{Action, AnyAction};
use crate::iptables::writer::RecreatingMode;
use crate::text::{contains, contains_text};

verus! {

/// What the outcome of one command means.
#[derive(Debug, Clone, Copy, PartialEq, Eq, Structural)]
pub enum ResultInterpretation {
    /// Undoubtable success.
    Success,
    /// Error that happens when a rule that should be deleted doesn't
    /// exist.
    OkForDeletions,
    /// A chain couldn't be deleted because it is in use
    ChainInUse,
    /// A chain couldn't be created because it already exists
    ChainAlreadyExists,
    /// Unrecoverable error
    Fatal,
}

/// What the control tool prints when a chain cannot be deleted because
/// something still refers to it.
pub open spec fn chain_in_use_notice() -> Seq<char> {
    "CHAIN_DEL failed (Device or resource busy)"@
}

/// What the control tool prints when a chain to be created is there already.
pub open spec fn chain_exists_notice() -> Seq<char> {
    "Chain already exists"@
}

/// The meaning of a status together with the text that the command printed.
/// The control tool exits with code 1 or 2 where a rule or chain is absent,
/// and with code 4 where a chain is still referred to, so the text decides.
pub open spec fn interpret(status: ExecutorStatus, output: Seq<char>) -> ResultInterpretation {
    match status {
        ExecutorStatus::Success => ResultInterpretation::Success,
        ExecutorStatus::ExitCode(code) => {
            if code == 4 && contains_text(output, chain_in_use_notice()) {
                ResultInterpretation::ChainInUse
            } else if code == 1 && contains_text(output, chain_exists_notice()) {
                ResultInterpretation::ChainAlreadyExists
            } else if code == 1 || code == 2 {
                ResultInterpretation::OkForDeletions
            } else {
                ResultInterpretation::Fatal
            }
        },
        ExecutorStatus::Signal(_) => ResultInterpretation::Fatal,
        ExecutorStatus::ExecFailure(_) => ResultInterpretation::Fatal,
    }
}

impl ResultInterpretation {
    /// Classifies a status and the text that came with it.
    pub fn classify(status: &ExecutorStatus, output: &str) -> (meaning: Self)
        ensures
            meaning == interpret(*status, output@),
    {
        match status {
            ExecutorStatus::Success => ResultInterpretation::Success,
            ExecutorStatus::ExitCode(code) => {
                if *code == 4 && contains(output, "CHAIN_DEL failed (Device or resource busy)") {
                    ResultInterpretation::ChainInUse
                } else if *code == 1 && contains(output, "Chain already exists") {
                    ResultInterpretation::ChainAlreadyExists
                } else if *code == 1 || *code == 2 {
                    ResultInterpretation::OkForDeletions
                } else {
                    ResultInterpretation::Fatal
                }
            },
            ExecutorStatus::Signal(_) => ResultInterpretation::Fatal,
            ExecutorStatus::ExecFailure(_) => ResultInterpretation::Fatal,
        }
    }

    /// Classifies the result of a command.
    pub fn from(result: &ExecutorResult) -> (meaning: Self)
        ensures
            meaning == interpret(result.status, result.combined_output@),
    {
        Self::classify(&result.status, result.combined_output.as_str())
    }

    /// Whether going on is in order after a command for `step`, declared
    /// with `mode`, ended with this meaning.
    pub open spec fn tolerated(self, step: AnyAction, mode: RecreatingMode) -> bool {
        match self {
            ResultInterpretation::Success => true,
            ResultInterpretation::OkForDeletions => !step.creates() || mode
                == RecreatingMode::TryCreationNoDeletion,
            ResultInterpretation::ChainInUse => !step.creates(),
            ResultInterpretation::ChainAlreadyExists => step == AnyAction::Creation(
                Action::NewChain,
            ),
            ResultInterpretation::Fatal => false,
        }
    }

    /// What the failure message says of a meaning that is not tolerated for
    /// `step`, beyond the status itself.
    pub open spec fn complaint(self, step: AnyAction) -> Option<Seq<char>> {
        match self {
            ResultInterpretation::OkForDeletions => Some(
                "for non-deleting action "@ + step.debug_text(),
            ),
            ResultInterpretation::ChainInUse => Some(
                "because chain is in use, for non-deleting action "@ + step.debug_text(),
            ),
            ResultInterpretation::ChainAlreadyExists => Some(
                "got 'chain already exists' error even though action is not chain creation, but "@
                    + step.debug_text(),
            ),
            _ => None,
        }
    }

    /// Decides whether to go on after a command for `step`, declared with
    /// `mode`, ended with this meaning: `Ok` to go on, else what the failure
    /// message is to say beyond the status.
    pub fn apply_policy(&self, step: AnyAction, mode: RecreatingMode) -> (verdict: Result<
        (),
        Option<String>,
    >)
        ensures
            verdict is Ok <==> self.tolerated(step, mode),
            verdict matches Err(note) ==> match self.complaint(step) {
                Some(text) => note matches Some(n) && n@ == text,
                None => note is None,
            },
    {
        match self {
            ResultInterpretation::Success => Ok(()),
            ResultInterpretation::OkForDeletions => {
                if step.is_creation() && mode != RecreatingMode::TryCreationNoDeletion {
                    let mut note = String::from_str("for non-deleting action ");
                    note.append(step.debug_string().as_str());
                    Err(Some(note))
                } else {
                    Ok(())
                }
            },
            ResultInterpretation::ChainInUse => {
                if step.is_creation() {
                    let mut note = String::from_str(
                        "because chain is in use, for non-deleting action ",
                    );
                    note.append(step.debug_string().as_str());
                    Err(Some(note))
                } else {
                    Ok(())
                }
            },
            ResultInterpretation::ChainAlreadyExists => {
                if step == AnyAction::Creation(Action::NewChain) {
                    Ok(())
                } else {
                    let mut note = String::from_str(
                        "got 'chain already exists' error even though action is not chain creation, but ",
                    );
                    note.append(step.debug_string().as_str());
                    Err(Some(note))
                }
            },
            ResultInterpretation::Fatal => Err(None),
        }
    }
}

} // verus!
