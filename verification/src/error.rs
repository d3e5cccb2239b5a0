//! The ways in which a run can fail before there is an outcome to report.

use vstd::prelude::*;

verus! {

/// Why a run was given up. Every failure ends the run at once: nothing is
/// tried again, and no later stage is entered.
#[derive(Clone, Debug, PartialEq, Eq)]
pub enum PipelineError {
    /// The program has fatal diagnostics; carries their rendered text.
    DiagnosticsFailure(String),
    /// Lowering produced no program although the diagnostics were clean.
    LoweringFailure,
    /// The program meters its execution, and no budget was supplied.
    BudgetRequired,
    /// The execution engine could not be built; carries the engine's words.
    EngineSetupFailure(String),
    /// The entry point is not in the program; carries the engine's words.
    EntryPointNotFound(String),
    /// The engine itself failed during the run; carries the engine's words.
    /// A program that panics has not failed in this sense.
    ExecutionFailure(String),
    /// The program database, the project or the contract metadata could not
    /// be prepared; carries the words of the collaborator that failed.
    CollaboratorFailure(String),
}

/// A failure over plain text.
pub enum PipelineErrorView {
    DiagnosticsFailure(Seq<char>),
    LoweringFailure,
    BudgetRequired,
    EngineSetupFailure(Seq<char>),
    EntryPointNotFound(Seq<char>),
    ExecutionFailure(Seq<char>),
    CollaboratorFailure(Seq<char>),
}

impl View for PipelineError {
    type V = PipelineErrorView;

    open spec fn view(&self) -> PipelineErrorView {
        match self {
            PipelineError::DiagnosticsFailure(text) => PipelineErrorView::DiagnosticsFailure(text@),
            PipelineError::LoweringFailure => PipelineErrorView::LoweringFailure,
            PipelineError::BudgetRequired => PipelineErrorView::BudgetRequired,
            PipelineError::EngineSetupFailure(detail) => PipelineErrorView::EngineSetupFailure(
                detail@,
            ),
            PipelineError::EntryPointNotFound(detail) => PipelineErrorView::EntryPointNotFound(
                detail@,
            ),
            PipelineError::ExecutionFailure(detail) => PipelineErrorView::ExecutionFailure(detail@),
            PipelineError::CollaboratorFailure(detail) => PipelineErrorView::CollaboratorFailure(
                detail@,
            ),
        }
    }
}

/// The message of a failure: the diagnostics under a heading, a fixed
/// sentence for a missing program or budget, and otherwise the words of the
/// collaborator that failed.
pub open spec fn message_text(error: PipelineErrorView) -> Seq<char> {
    match error {
        PipelineErrorView::DiagnosticsFailure(text) => "failed to compile:\n "@ + text,
        PipelineErrorView::LoweringFailure => "Compilation failed without any diagnostics."@,
        PipelineErrorView::BudgetRequired =>
            "Program requires gas counter, please provide `--available-gas` argument."@,
        PipelineErrorView::EngineSetupFailure(detail) => detail,
        PipelineErrorView::EntryPointNotFound(detail) => detail,
        PipelineErrorView::ExecutionFailure(detail) => detail,
        PipelineErrorView::CollaboratorFailure(detail) => detail,
    }
}

impl PipelineError {
    /// The message of the failure, for a human reader.
    pub fn message(&self) -> (text: String)
        ensures
            text@ == message_text(self@),
    {
        match self {
            PipelineError::DiagnosticsFailure(diagnostics) => {
                let mut text = String::new();
                text.append("failed to compile:\n ");
                text.append(diagnostics.as_str());
                assert(text@ =~= "failed to compile:\n "@ + diagnostics@);
                text
            },
            PipelineError::LoweringFailure => String::from_str(
                "Compilation failed without any diagnostics.",
            ),
            PipelineError::BudgetRequired => String::from_str(
                "Program requires gas counter, please provide `--available-gas` argument.",
            ),
            PipelineError::EngineSetupFailure(detail) => detail.clone(),
            PipelineError::EntryPointNotFound(detail) => detail.clone(),
            PipelineError::ExecutionFailure(detail) => detail.clone(),
            PipelineError::CollaboratorFailure(detail) => detail.clone(),
        }
    }
}

} // verus!
