//! The run of one program, from its source text to its report, as a state
//! machine.
//!
//! The work itself is done by collaborators that the library does not hold:
//! the program database, the lowering, the execution engine. The machine
//! decides. It names the next piece of work ([`Pipeline::next_action`]),
//! takes what came of it ([`Pipeline::advance`]), and either moves on to the
//! next stage or ends the run. The stages are passed once and in one order;
//! a failure at any of them ends the run there.

use vstd::prelude::*;
use cairo_lang_sierra::program::Program;
use crate::error::{PipelineError, PipelineErrorView};
use crate::outcome::{
    item_views, DisplayItem, DisplayItemView, ExecutionOutcome, ExecutionOutcomeView,
    OutcomeValue, OutcomeValueView,
};
use crate::program::{declared_libfuncs, requires_gas_counter, requires_metering};
use crate::report::{budget_section, generate_run_result_log, report_text};

verus! {

/// The logical path under which the source text is known to the program
/// database; diagnostics name it.
pub const SOURCE_PATH: &'static str = "astro.cairo";

/// The name by which the entry point is looked up in the lowered program.
pub const ENTRY_POINT: &'static str = "::main";

/// The name under which the debug output of a run is captured.
pub const CAPTURED_LOG: &'static str = "log_file";

/// What decides how a program is compiled.
#[derive(Clone, Copy, Debug, PartialEq, Eq)]
pub struct CompilationConfig {
    /// The execution budget. Where there is one, the program is compiled and
    /// run with metering.
    pub available_budget: Option<usize>,
    /// Whether a program with warnings, and no errors, may run.
    pub allow_warnings: bool,
}

/// What a caller asks for, besides the source text.
#[derive(Clone, Copy, Debug, PartialEq, Eq)]
pub struct RunRequest {
    pub config: CompilationConfig,
    /// Whether the report ends with a dump of the memory.
    pub print_full_memory: bool,
    /// Whether the engine collects profiling data. The data stays with the
    /// engine: no part of the report is made from it.
    pub run_profiler: bool,
    /// Whether the report opens with the captured debug output.
    pub use_dbg_print_hint: bool,
}

/// Whether a run must be refused for want of a budget: it must when the
/// lowered program draws on a budget and none was supplied. A budget of any
/// size, zero too, is a budget.
pub open spec fn budget_missing(available_budget: Option<usize>, requires_metering: bool) -> bool {
    available_budget is None && requires_metering
}

/// Where a run stands: the work that is awaited, or the result.
#[derive(Debug, PartialEq, Eq)]
pub enum Stage {
    /// The program database is being built.
    DatabaseSetup,
    /// The source text is being set up as a project in the database.
    ProjectSetup,
    /// The diagnostics are being checked.
    DiagnosticsGate,
    /// The check found fatal diagnostics; their text is being rendered.
    DiagnosticsReport,
    /// The checked program is being lowered.
    Lowering,
    /// The functions of the lowered program are being given their names.
    Enrichment,
    /// The contract metadata is being gathered.
    ContractMetadata,
    /// The identifiers of the lowered program are being replaced by names.
    IdErasure,
    /// The execution engine is being built.
    EngineSetup,
    /// The entry point is being looked up.
    EntryResolution,
    /// The entry point is being run.
    Execution,
    /// The run is over; the captured debug output is being read.
    LogCapture { outcome: ExecutionOutcome },
    /// The run ended in a panic; its data is being decoded.
    PanicDecoding { outcome: ExecutionOutcome, captured_log: String },
    /// The end: the report, or the failure.
    Finished(Result<String, PipelineError>),
}

/// A stage over plain values.
pub enum StageView {
    DatabaseSetup,
    ProjectSetup,
    DiagnosticsGate,
    DiagnosticsReport,
    Lowering,
    Enrichment,
    ContractMetadata,
    IdErasure,
    EngineSetup,
    EntryResolution,
    Execution,
    LogCapture { outcome: ExecutionOutcomeView },
    PanicDecoding { outcome: ExecutionOutcomeView, captured_log: Seq<char> },
    Finished(Result<Seq<char>, PipelineErrorView>),
}

impl View for Stage {
    type V = StageView;

    open spec fn view(&self) -> StageView {
        match self {
            Stage::DatabaseSetup => StageView::DatabaseSetup,
            Stage::ProjectSetup => StageView::ProjectSetup,
            Stage::DiagnosticsGate => StageView::DiagnosticsGate,
            Stage::DiagnosticsReport => StageView::DiagnosticsReport,
            Stage::Lowering => StageView::Lowering,
            Stage::Enrichment => StageView::Enrichment,
            Stage::ContractMetadata => StageView::ContractMetadata,
            Stage::IdErasure => StageView::IdErasure,
            Stage::EngineSetup => StageView::EngineSetup,
            Stage::EntryResolution => StageView::EntryResolution,
            Stage::Execution => StageView::Execution,
            Stage::LogCapture { outcome } => StageView::LogCapture { outcome: outcome@ },
            Stage::PanicDecoding { outcome, captured_log } => StageView::PanicDecoding {
                outcome: outcome@,
                captured_log: captured_log@,
            },
            Stage::Finished(Ok(report)) => StageView::Finished(Ok(report@)),
            Stage::Finished(Err(error)) => StageView::Finished(Err(error@)),
        }
    }
}

/// The work that the machine asks for.
#[derive(Clone, Copy, Debug, PartialEq, Eq)]
pub enum Action {
    /// Build the program database, with the core library; `metered` says
    /// whether the compiled code draws on a budget by itself.
    BuildDatabase { metered: bool },
    /// Set up the source text as a project, under [`SOURCE_PATH`].
    SetUpProject,
    /// Check the diagnostics; `allow_warnings` says whether warnings alone
    /// let the program pass.
    CheckDiagnostics { allow_warnings: bool },
    /// Render all diagnostics as text.
    RenderDiagnostics,
    /// Lower the checked program.
    LowerProgram,
    /// Give the functions of the lowered program their names.
    EnrichFunctionNames,
    /// Gather the contract metadata.
    ExtractContractMetadata,
    /// Replace the identifiers of the lowered program by names.
    EraseIdentifiers,
    /// Build the execution engine: with the default cost model if
    /// `metering`, with the default profiling if `profiling`.
    BuildEngine { metering: bool, profiling: bool },
    /// Look up the function named [`ENTRY_POINT`].
    ResolveEntryPoint,
    /// Run the entry point without arguments, with this budget, in a fresh
    /// execution context.
    Execute { available_budget: Option<usize> },
    /// Read the debug output captured under [`CAPTURED_LOG`].
    ReadCapturedLog,
    /// Decode the data of the panic into display items.
    DecodePanic,
    /// Nothing is left to do: take the result.
    Finish,
}

/// What came of a piece of work.
#[derive(Clone, Debug, PartialEq, Eq)]
pub enum Event {
    /// The work was done, and there is nothing to tell of it.
    Completed,
    /// The collaborator failed; its words.
    Failed(String),
    /// The diagnostics were checked; `found` says whether any is fatal.
    DiagnosticsChecked { found: bool },
    /// The text of the diagnostics.
    DiagnosticsRendered(String),
    /// The lowering ended; `produced` says whether it gave a program.
    Lowered { produced: bool },
    /// The functions have their names; `requires_metering` says whether the
    /// program draws on a budget.
    Enriched { requires_metering: bool },
    /// The engine ran the entry point.
    Executed(ExecutionOutcome),
    /// The captured debug output.
    LogRead(String),
    /// The display items that the data of the panic decodes to.
    PanicDecoded(Vec<DisplayItem>),
}

/// An event over plain values.
pub enum EventView {
    Completed,
    Failed(Seq<char>),
    DiagnosticsChecked { found: bool },
    DiagnosticsRendered(Seq<char>),
    Lowered { produced: bool },
    Enriched { requires_metering: bool },
    Executed(ExecutionOutcomeView),
    LogRead(Seq<char>),
    PanicDecoded(Seq<DisplayItemView>),
}

impl View for Event {
    type V = EventView;

    open spec fn view(&self) -> EventView {
        match self {
            Event::Completed => EventView::Completed,
            Event::Failed(words) => EventView::Failed(words@),
            Event::DiagnosticsChecked { found } => EventView::DiagnosticsChecked { found: *found },
            Event::DiagnosticsRendered(text) => EventView::DiagnosticsRendered(text@),
            Event::Lowered { produced } => EventView::Lowered { produced: *produced },
            Event::Enriched { requires_metering } => EventView::Enriched {
                requires_metering: *requires_metering,
            },
            Event::Executed(outcome) => EventView::Executed(outcome@),
            Event::LogRead(text) => EventView::LogRead(text@),
            Event::PanicDecoded(items) => EventView::PanicDecoded(item_views(items@)),
        }
    }
}

/// One run: what was asked for, and where the run stands.
#[derive(Debug, PartialEq, Eq)]
pub struct Pipeline {
    pub request: RunRequest,
    pub stage: Stage,
}

/// A run over plain values.
pub struct PipelineView {
    pub request: RunRequest,
    pub stage: StageView,
}

impl View for Pipeline {
    type V = PipelineView;

    open spec fn view(&self) -> PipelineView {
        PipelineView { request: self.request, stage: self.stage@ }
    }
}

/// The stage in which a run ends with a failure.
pub open spec fn failed(error: PipelineErrorView) -> StageView {
    StageView::Finished(Err(error))
}

/// The stage in which a run ends with its report.
pub open spec fn reported(
    request: RunRequest,
    outcome: ExecutionOutcomeView,
    panic_items: Seq<DisplayItemView>,
    captured_log: Seq<char>,
) -> StageView {
    StageView::Finished(
        Ok(
            report_text(
                outcome,
                panic_items,
                captured_log,
                request.print_full_memory,
                request.use_dbg_print_hint,
            ),
        ),
    )
}

/// The stage after the captured debug output is known (or was not asked
/// for): a panic is decoded first, a return is reported at once.
pub open spec fn stage_after_log(
    request: RunRequest,
    outcome: ExecutionOutcomeView,
    captured_log: Seq<char>,
) -> StageView {
    match outcome.value {
        OutcomeValueView::Panic(_) => StageView::PanicDecoding { outcome, captured_log },
        OutcomeValueView::Success(_) => reported(
            request,
            outcome,
            Seq::<DisplayItemView>::empty(),
            captured_log,
        ),
    }
}

/// The stage after the engine ran the entry point: the captured debug
/// output is read where it was asked for.
pub open spec fn stage_after_execution(
    request: RunRequest,
    outcome: ExecutionOutcomeView,
) -> StageView {
    if request.use_dbg_print_hint {
        StageView::LogCapture { outcome }
    } else {
        stage_after_log(request, outcome, Seq::<char>::empty())
    }
}

/// The stage that follows `stage` when `event` comes in. An event that the
/// stage does not await changes nothing.
pub open spec fn next_stage(request: RunRequest, stage: StageView, event: EventView) -> StageView {
    match stage {
        StageView::DatabaseSetup => match event {
            EventView::Completed => StageView::ProjectSetup,
            EventView::Failed(words) => failed(PipelineErrorView::CollaboratorFailure(words)),
            _ => stage,
        },
        StageView::ProjectSetup => match event {
            EventView::Completed => StageView::DiagnosticsGate,
            EventView::Failed(words) => failed(PipelineErrorView::CollaboratorFailure(words)),
            _ => stage,
        },
        StageView::DiagnosticsGate => match event {
            EventView::DiagnosticsChecked { found } => if found {
                StageView::DiagnosticsReport
            } else {
                StageView::Lowering
            },
            _ => stage,
        },
        StageView::DiagnosticsReport => match event {
            EventView::DiagnosticsRendered(text) => failed(
                PipelineErrorView::DiagnosticsFailure(text),
            ),
            _ => stage,
        },
        StageView::Lowering => match event {
            EventView::Lowered { produced } => if produced {
                StageView::Enrichment
            } else {
                failed(PipelineErrorView::LoweringFailure)
            },
            _ => stage,
        },
        StageView::Enrichment => match event {
            EventView::Enriched { requires_metering } => if budget_missing(
                request.config.available_budget,
                requires_metering,
            ) {
                failed(PipelineErrorView::BudgetRequired)
            } else {
                StageView::ContractMetadata
            },
            _ => stage,
        },
        StageView::ContractMetadata => match event {
            EventView::Completed => StageView::IdErasure,
            EventView::Failed(words) => failed(PipelineErrorView::CollaboratorFailure(words)),
            _ => stage,
        },
        StageView::IdErasure => match event {
            EventView::Completed => StageView::EngineSetup,
            _ => stage,
        },
        StageView::EngineSetup => match event {
            EventView::Completed => StageView::EntryResolution,
            EventView::Failed(words) => failed(PipelineErrorView::EngineSetupFailure(words)),
            _ => stage,
        },
        StageView::EntryResolution => match event {
            EventView::Completed => StageView::Execution,
            EventView::Failed(words) => failed(PipelineErrorView::EntryPointNotFound(words)),
            _ => stage,
        },
        StageView::Execution => match event {
            EventView::Executed(outcome) => stage_after_execution(request, outcome),
            EventView::Failed(words) => failed(PipelineErrorView::ExecutionFailure(words)),
            _ => stage,
        },
        StageView::LogCapture { outcome } => match event {
            EventView::LogRead(text) => stage_after_log(request, outcome, text),
            _ => stage,
        },
        StageView::PanicDecoding { outcome, captured_log } => match event {
            EventView::PanicDecoded(items) => reported(request, outcome, items, captured_log),
            _ => stage,
        },
        StageView::Finished(_) => stage,
    }
}

/// The run at its start.
pub open spec fn start_state(request: RunRequest) -> PipelineView {
    PipelineView { request, stage: StageView::DatabaseSetup }
}

/// The run after `event` came in. The request never changes.
pub open spec fn step(run: PipelineView, event: EventView) -> PipelineView {
    PipelineView { request: run.request, stage: next_stage(run.request, run.stage, event) }
}

/// The run after the events came in, one after the other.
pub open spec fn run_events(run: PipelineView, events: Seq<EventView>) -> PipelineView
    decreases events.len(),
{
    if events.len() == 0 {
        run
    } else {
        step(run_events(run, events.drop_last()), events.last())
    }
}

/// The work that a run awaits.
pub open spec fn pending_action(run: PipelineView) -> Action {
    match run.stage {
        StageView::DatabaseSetup => Action::BuildDatabase {
            metered: run.request.config.available_budget is Some,
        },
        StageView::ProjectSetup => Action::SetUpProject,
        StageView::DiagnosticsGate => Action::CheckDiagnostics {
            allow_warnings: run.request.config.allow_warnings,
        },
        StageView::DiagnosticsReport => Action::RenderDiagnostics,
        StageView::Lowering => Action::LowerProgram,
        StageView::Enrichment => Action::EnrichFunctionNames,
        StageView::ContractMetadata => Action::ExtractContractMetadata,
        StageView::IdErasure => Action::EraseIdentifiers,
        StageView::EngineSetup => Action::BuildEngine {
            metering: run.request.config.available_budget is Some,
            profiling: run.request.run_profiler,
        },
        StageView::EntryResolution => Action::ResolveEntryPoint,
        StageView::Execution => Action::Execute {
            available_budget: run.request.config.available_budget,
        },
        StageView::LogCapture { .. } => Action::ReadCapturedLog,
        StageView::PanicDecoding { .. } => Action::DecodePanic,
        StageView::Finished(_) => Action::Finish,
    }
}

/// How far a stage is along the run. The stages are numbered in the order in
/// which a run passes them; the end comes last.
pub open spec fn stage_rank(stage: StageView) -> nat {
    match stage {
        StageView::DatabaseSetup => 0,
        StageView::ProjectSetup => 1,
        StageView::DiagnosticsGate => 2,
        StageView::DiagnosticsReport => 3,
        StageView::Lowering => 4,
        StageView::Enrichment => 5,
        StageView::ContractMetadata => 6,
        StageView::IdErasure => 7,
        StageView::EngineSetup => 8,
        StageView::EntryResolution => 9,
        StageView::Execution => 10,
        StageView::LogCapture { .. } => 11,
        StageView::PanicDecoding { .. } => 12,
        StageView::Finished(_) => 13,
    }
}

/// Whether a run has ended with a failure of its diagnostics.
pub open spec fn ended_on_diagnostics(stage: StageView) -> bool {
    stage matches StageView::Finished(Err(PipelineErrorView::DiagnosticsFailure(_)))
}

/// An event either leaves the stage as it is or takes the run to a later
/// stage: no stage is entered twice, and none is gone back to.
pub proof fn lemma_step_moves_forward(run: PipelineView, event: EventView)
    ensures
        step(run, event).request == run.request,
        step(run, event).stage == run.stage || stage_rank(step(run, event).stage) > stage_rank(
            run.stage,
        ),
{
}

/// A run that is over stays as it is, whatever comes in.
pub proof fn lemma_finished_is_final(run: PipelineView, events: Seq<EventView>)
    requires
        run.stage is Finished,
    ensures
        run_events(run, events) == run,
    decreases events.len(),
{
    if events.len() > 0 {
        lemma_finished_is_final(run, events.drop_last());
    }
}

/// The run after the first `j + 1` events is the run after the first `j`,
/// moved on by the next event.
pub proof fn lemma_run_take_step(run: PipelineView, events: Seq<EventView>, j: int)
    requires
        0 <= j < events.len(),
    ensures
        run_events(run, events.take(j + 1)) == step(run_events(run, events.take(j)), events[j]),
{
    assert(events.take(j + 1).drop_last() =~= events.take(j));
}

/// Along a sequence of events a run only moves forward, and keeps its
/// request.
pub proof fn lemma_run_moves_forward(run: PipelineView, events: Seq<EventView>, i: int, j: int)
    requires
        0 <= i <= j <= events.len(),
    ensures
        run_events(run, events.take(j)).request == run_events(run, events.take(i)).request,
        stage_rank(run_events(run, events.take(i)).stage) <= stage_rank(
            run_events(run, events.take(j)).stage,
        ),
    decreases j - i,
{
    if i < j {
        lemma_run_moves_forward(run, events, i, j - 1);
        lemma_run_take_step(run, events, j - 1);
        lemma_step_moves_forward(run_events(run, events.take(j - 1)), events[j - 1]);
    }
}

/// Fatal diagnostics end the run before the lowering.
///
/// Take any run, from its start, and any events. If at some point the run
/// awaits the diagnostics check and the check reports fatal diagnostics,
/// then at no point, before or after, does the run ask for the lowering:
/// up to the check it has not come that far, and after it the run either
/// awaits the text of the diagnostics or has ended with the failure that
/// carries it. (Which diagnostics are fatal is the checker's affair; the
/// run hands it `allow_warnings` as it was asked.)
pub proof fn lemma_fatal_diagnostics_end_the_run(
    request: RunRequest,
    events: Seq<EventView>,
    k: int,
    j: int,
)
    requires
        0 <= k < events.len(),
        0 <= j <= events.len(),
        run_events(start_state(request), events.take(k)).stage is DiagnosticsGate,
        events[k] == (EventView::DiagnosticsChecked { found: true }),
    ensures
        pending_action(run_events(start_state(request), events.take(j))) != Action::LowerProgram,
        j <= k ==> stage_rank(run_events(start_state(request), events.take(j)).stage) <= 2,
        j > k ==> run_events(start_state(request), events.take(j)).stage is DiagnosticsReport
            || ended_on_diagnostics(run_events(start_state(request), events.take(j)).stage),
    decreases j,
{
    let start = start_state(request);
    if j <= k {
        lemma_run_moves_forward(start, events, j, k);
    } else {
        lemma_run_take_step(start, events, j - 1);
        if j - 1 > k {
            lemma_fatal_diagnostics_end_the_run(request, events, k, j - 1);
        }
    }
}

/// The text that the diagnostics render to is what the failure carries.
pub proof fn lemma_diagnostics_failure_carries_text(request: RunRequest, text: Seq<char>)
    ensures
        step(
            step(
                PipelineView { request, stage: StageView::DiagnosticsGate },
                EventView::DiagnosticsChecked { found: true },
            ),
            EventView::DiagnosticsRendered(text),
        ).stage == failed(PipelineErrorView::DiagnosticsFailure(text)),
{
}

/// A program that draws on a budget does not run without one: the run ends
/// with `BudgetRequired` as soon as the lowered program is looked into, and
/// stays there.
pub proof fn lemma_metering_needs_a_budget(
    request: RunRequest,
    events: Seq<EventView>,
    k: int,
    j: int,
)
    requires
        request.config.available_budget is None,
        0 <= k < j <= events.len(),
        run_events(start_state(request), events.take(k)).stage is Enrichment,
        events[k] == (EventView::Enriched { requires_metering: true }),
    ensures
        run_events(start_state(request), events.take(j)).stage == failed(
            PipelineErrorView::BudgetRequired,
        ),
    decreases j,
{
    let start = start_state(request);
    lemma_run_take_step(start, events, j - 1);
    lemma_run_moves_forward(start, events, 0, k);
    assert(events.take(0) =~= Seq::<EventView>::empty());
    if j - 1 > k {
        lemma_metering_needs_a_budget(request, events, k, j - 1);
    }
}

/// With a budget, of any size, no run ends with `BudgetRequired`, whatever
/// the program draws on and whatever else comes in.
pub proof fn lemma_budget_is_never_required_with_one(request: RunRequest, events: Seq<EventView>)
    requires
        request.config.available_budget is Some,
    ensures
        run_events(start_state(request), events).request == request,
        run_events(start_state(request), events).stage != failed(PipelineErrorView::BudgetRequired),
    decreases events.len(),
{
    if events.len() > 0 {
        lemma_budget_is_never_required_with_one(request, events.drop_last());
    }
}

/// No stage is skipped: an event leaves the stage as it is, ends the run, or
/// takes it to the stage that comes next. Two stages are entered only on
/// their occasion and passed over otherwise: the rendering of diagnostics,
/// which fatal diagnostics enter, and the reading of the captured debug
/// output, which a request for it enters.
pub proof fn lemma_no_stage_is_skipped(run: PipelineView, event: EventView)
    ensures
        ({
            let next = step(run, event).stage;
            ||| next == run.stage
            ||| next is Finished
            ||| stage_rank(next) == stage_rank(run.stage) + 1
            ||| (run.stage is DiagnosticsGate && next is Lowering)
            ||| (run.stage is Execution && next is PanicDecoding)
        }),
{
}

/// The events of a run in which nothing fails: the database and the project
/// are set up, the diagnostics are clean, the program is lowered, named and
/// looked into, the metadata, the erasure of identifiers, the engine and the
/// entry point succeed, and the engine runs the entry point.
pub open spec fn clean_events(requires_metering: bool, outcome: ExecutionOutcomeView) -> Seq<
    EventView,
> {
    seq![
        EventView::Completed,
        EventView::Completed,
        EventView::DiagnosticsChecked { found: false },
        EventView::Lowered { produced: true },
        EventView::Enriched { requires_metering },
        EventView::Completed,
        EventView::Completed,
        EventView::Completed,
        EventView::Completed,
        EventView::Executed(outcome),
    ]
}

/// A run in which nothing fails gets as far as its outcome, unless the
/// program draws on a budget and there is none. With no debug output asked
/// for, a program that returned is then reported at once.
pub proof fn lemma_clean_run_reaches_its_outcome(
    request: RunRequest,
    requires_metering: bool,
    outcome: ExecutionOutcomeView,
)
    requires
        !budget_missing(request.config.available_budget, requires_metering),
    ensures
        run_events(start_state(request), clean_events(requires_metering, outcome)).stage
            == stage_after_execution(request, outcome),
        !request.use_dbg_print_hint && outcome.value is Success ==> run_events(
            start_state(request),
            clean_events(requires_metering, outcome),
        ).stage == reported(
            request,
            outcome,
            Seq::<DisplayItemView>::empty(),
            Seq::<char>::empty(),
        ),
{
    let start = start_state(request);
    let events = clean_events(requires_metering, outcome);
    assert(events.take(0) =~= Seq::<EventView>::empty());
    lemma_run_take_step(start, events, 0);
    lemma_run_take_step(start, events, 1);
    lemma_run_take_step(start, events, 2);
    lemma_run_take_step(start, events, 3);
    lemma_run_take_step(start, events, 4);
    lemma_run_take_step(start, events, 5);
    lemma_run_take_step(start, events, 6);
    lemma_run_take_step(start, events, 7);
    lemma_run_take_step(start, events, 8);
    lemma_run_take_step(start, events, 9);
    assert(events.take(10) =~= events);
}

/// Whether an outcome keeps the promise of an engine: it tells the remaining
/// budget exactly if the run was given a budget.
pub open spec fn keeps_budget_promise(request: RunRequest, outcome: ExecutionOutcomeView) -> bool {
    outcome.remaining_budget is Some <==> request.config.available_budget is Some
}

/// Where the engine keeps its promise, a report has the line of the
/// remaining budget exactly if the run was given a budget.
pub proof fn lemma_budget_line_follows_the_request(
    request: RunRequest,
    outcome: ExecutionOutcomeView,
)
    requires
        keeps_budget_promise(request, outcome),
    ensures
        budget_section(outcome.remaining_budget).len() > 0 <==> request.config.available_budget
            is Some,
{
    reveal_strlit("Remaining gas: ");
}

/// Ends the run with its report.
fn report_stage(
    request: &RunRequest,
    outcome: ExecutionOutcome,
    panic_items: Vec<DisplayItem>,
    captured_log: String,
) -> (stage: Stage)
    ensures
        stage@ == reported(*request, outcome@, item_views(panic_items@), captured_log@),
{
    let report = generate_run_result_log(
        &outcome,
        &panic_items,
        captured_log.as_str(),
        request.print_full_memory,
        request.use_dbg_print_hint,
    );
    Stage::Finished(Ok(report))
}

/// The stage after the captured debug output is known.
fn after_log(request: &RunRequest, outcome: ExecutionOutcome, captured_log: String) -> (stage:
    Stage)
    ensures
        stage@ == stage_after_log(*request, outcome@, captured_log@),
{
    let panicked = match &outcome.value {
        OutcomeValue::Panic(_) => true,
        OutcomeValue::Success(_) => false,
    };
    if panicked {
        Stage::PanicDecoding { outcome, captured_log }
    } else {
        let no_items: Vec<DisplayItem> = Vec::new();
        assert(item_views(no_items@) =~= Seq::<DisplayItemView>::empty());
        report_stage(request, outcome, no_items, captured_log)
    }
}

/// The stage after the engine ran the entry point.
fn after_execution(request: &RunRequest, outcome: ExecutionOutcome) -> (stage: Stage)
    ensures
        stage@ == stage_after_execution(*request, outcome@),
{
    if request.use_dbg_print_hint {
        Stage::LogCapture { outcome }
    } else {
        after_log(request, outcome, String::new())
    }
}

impl Pipeline {
    /// A run at its start.
    pub fn start(request: RunRequest) -> (run: Pipeline)
        ensures
            run@ == start_state(request),
    {
        Pipeline { request, stage: Stage::DatabaseSetup }
    }

    /// The work that the run awaits.
    pub fn next_action(&self) -> (action: Action)
        ensures
            action == pending_action(self@),
    {
        match &self.stage {
            Stage::DatabaseSetup => Action::BuildDatabase {
                metered: self.request.config.available_budget.is_some(),
            },
            Stage::ProjectSetup => Action::SetUpProject,
            Stage::DiagnosticsGate => Action::CheckDiagnostics {
                allow_warnings: self.request.config.allow_warnings,
            },
            Stage::DiagnosticsReport => Action::RenderDiagnostics,
            Stage::Lowering => Action::LowerProgram,
            Stage::Enrichment => Action::EnrichFunctionNames,
            Stage::ContractMetadata => Action::ExtractContractMetadata,
            Stage::IdErasure => Action::EraseIdentifiers,
            Stage::EngineSetup => Action::BuildEngine {
                metering: self.request.config.available_budget.is_some(),
                profiling: self.request.run_profiler,
            },
            Stage::EntryResolution => Action::ResolveEntryPoint,
            Stage::Execution => Action::Execute {
                available_budget: self.request.config.available_budget,
            },
            Stage::LogCapture { .. } => Action::ReadCapturedLog,
            Stage::PanicDecoding { .. } => Action::DecodePanic,
            Stage::Finished(_) => Action::Finish,
        }
    }

    /// Takes what came of the awaited work and moves the run on.
    pub fn advance(self, event: Event) -> (next: Pipeline)
        ensures
            next@ == step(self@, event@),
    {
        let request = self.request;
        let stage = match self.stage {
            Stage::DatabaseSetup => match event {
                Event::Completed => Stage::ProjectSetup,
                Event::Failed(words) => Stage::Finished(
                    Err(PipelineError::CollaboratorFailure(words)),
                ),
                _ => Stage::DatabaseSetup,
            },
            Stage::ProjectSetup => match event {
                Event::Completed => Stage::DiagnosticsGate,
                Event::Failed(words) => Stage::Finished(
                    Err(PipelineError::CollaboratorFailure(words)),
                ),
                _ => Stage::ProjectSetup,
            },
            Stage::DiagnosticsGate => match event {
                Event::DiagnosticsChecked { found } => if found {
                    Stage::DiagnosticsReport
                } else {
                    Stage::Lowering
                },
                _ => Stage::DiagnosticsGate,
            },
            Stage::DiagnosticsReport => match event {
                Event::DiagnosticsRendered(text) => Stage::Finished(
                    Err(PipelineError::DiagnosticsFailure(text)),
                ),
                _ => Stage::DiagnosticsReport,
            },
            Stage::Lowering => match event {
                Event::Lowered { produced } => if produced {
                    Stage::Enrichment
                } else {
                    Stage::Finished(Err(PipelineError::LoweringFailure))
                },
                _ => Stage::Lowering,
            },
            Stage::Enrichment => match event {
                Event::Enriched { requires_metering } => if request.config.available_budget.is_none()
                    && requires_metering {
                    Stage::Finished(Err(PipelineError::BudgetRequired))
                } else {
                    Stage::ContractMetadata
                },
                _ => Stage::Enrichment,
            },
            Stage::ContractMetadata => match event {
                Event::Completed => Stage::IdErasure,
                Event::Failed(words) => Stage::Finished(
                    Err(PipelineError::CollaboratorFailure(words)),
                ),
                _ => Stage::ContractMetadata,
            },
            Stage::IdErasure => match event {
                Event::Completed => Stage::EngineSetup,
                _ => Stage::IdErasure,
            },
            Stage::EngineSetup => match event {
                Event::Completed => Stage::EntryResolution,
                Event::Failed(words) => Stage::Finished(
                    Err(PipelineError::EngineSetupFailure(words)),
                ),
                _ => Stage::EngineSetup,
            },
            Stage::EntryResolution => match event {
                Event::Completed => Stage::Execution,
                Event::Failed(words) => Stage::Finished(
                    Err(PipelineError::EntryPointNotFound(words)),
                ),
                _ => Stage::EntryResolution,
            },
            Stage::Execution => match event {
                Event::Executed(outcome) => after_execution(&request, outcome),
                Event::Failed(words) => Stage::Finished(
                    Err(PipelineError::ExecutionFailure(words)),
                ),
                _ => Stage::Execution,
            },
            Stage::LogCapture { outcome } => match event {
                Event::LogRead(text) => after_log(&request, outcome, text),
                _ => Stage::LogCapture { outcome },
            },
            Stage::PanicDecoding { outcome, captured_log } => match event {
                Event::PanicDecoded(items) => report_stage(&request, outcome, items, captured_log),
                _ => Stage::PanicDecoding { outcome, captured_log },
            },
            Stage::Finished(result) => Stage::Finished(result),
        };
        Pipeline { request, stage }
    }

    /// Looks into the lowered program, once its functions have their names,
    /// and moves the run on: the run ends here if the program draws on a
    /// budget and none was supplied.
    pub fn inspect_program(self, program: &Program) -> (next: Pipeline)
        ensures
            next@ == step(
                self@,
                EventView::Enriched {
                    requires_metering: requires_metering(declared_libfuncs(*program)),
                },
            ),
    {
        let requires_metering = requires_gas_counter(program);
        self.advance(Event::Enriched { requires_metering })
    }

    /// Whether the run is over.
    pub fn is_finished(&self) -> (finished: bool)
        ensures
            finished == (self@.stage is Finished),
    {
        match &self.stage {
            Stage::Finished(_) => true,
            _ => false,
        }
    }

    /// The result of a run that is over: its report, or its failure. A run
    /// that is not over has no result.
    pub fn into_result(self) -> (result: Option<Result<String, PipelineError>>)
        ensures
            match result {
                Some(Ok(report)) => self@.stage == StageView::Finished(Ok(report@)),
                Some(Err(error)) => self@.stage == StageView::Finished(Err(error@)),
                None => !(self@.stage is Finished),
            },
    {
        match self.stage {
            Stage::Finished(result) => Some(result),
            _ => None,
        }
    }
}

} // verus!
