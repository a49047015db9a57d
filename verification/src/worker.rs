//! The compilation worker: what it does for each message, step by step.
//!
//! The worker decides, and the thread that runs it acts: the thread hands in what came of the
//! last action and performs the action that it gets back.
use crate::compilation::{
    CompilationContext, CompilationStatus, LastCompilationState, TaskMessage,
};
use crate::session_cache::SessionId;
use crate::task_queue::TaskQueue;
use crate::uri::DocumentUri;
use std::collections::BTreeMap;
use std::path::PathBuf;
use vstd::prelude::*;

verus! {

/// What the compiler is told of the language server's part in a compilation.
#[derive(Debug)]
pub struct LspConfig {
    pub optimized_build: bool,
    /// The version of each file.
    pub file_versions: BTreeMap<PathBuf, Option<u64>>,
}

/// The experimental features that a compilation is run with.
#[derive(Clone, Copy, Debug, PartialEq, Eq, Structural)]
pub struct ExperimentalFlags {
    pub new_encoding: bool,
}

/// A compilation that has not reached the compiler yet.
#[derive(Debug)]
pub struct Job {
    pub uri: DocumentUri,
    pub session: SessionId,
    pub collect_garbage: bool,
    pub lsp_mode: LspConfig,
}

/// What the thread does for the worker.
#[derive(Debug)]
pub enum WorkerAction {
    /// Wait for the next message.
    Receive,
    /// Clone the engines of the session. The compilation works on the clone.
    CloneEngines { session: SessionId },
    /// Collect garbage in the cloned engines.
    CollectGarbage { session: SessionId },
    /// Parse the project that the document belongs to, with the cloned engines.
    Parse {
        uri: DocumentUri,
        session: SessionId,
        lsp_mode: LspConfig,
        experimental: ExperimentalFlags,
    },
    /// Find the program that the document's file belongs to in the cloned engines.
    ResolveProgram { path: PathBuf },
    /// Read the metrics of that program.
    ReadMetrics { session: SessionId },
    /// Give the session the cloned engines in place of its own.
    SwapEngines { session: SessionId },
    /// Wake all that wait for compilations to finish.
    NotifyWaiters,
    /// End the thread.
    Exit,
}

/// What came of an action.
#[derive(Debug)]
pub enum WorkerEvent {
    /// A message has come.
    Received(TaskMessage),
    /// No message can come any more.
    Disconnected,
    EnginesCloned,
    /// Garbage has been collected, or it could not be.
    GarbageCollected,
    /// The project has been parsed, or it could not be.
    Parsed(bool),
    /// The program has been found, or it could not be.
    ProgramResolved(bool),
    /// How many programs the compiler reused, where there are metrics of the program.
    MetricsRead(Option<u64>),
    EnginesSwapped,
    WaitersNotified,
}

/// Where the worker stands: what it has asked for last.
#[derive(Debug)]
pub enum WorkerStage {
    Receiving,
    CloningEngines(Job),
    CollectingGarbage(Job),
    Parsing { uri: DocumentUri, session: SessionId },
    ResolvingProgram { session: SessionId },
    ReadingMetrics { session: SessionId },
    SwappingEngines,
    NotifyingWaiters,
    Stopped,
}

/// Where a step leads.
pub struct Step {
    pub stage: WorkerStage,
    pub status: CompilationStatus,
    pub action: WorkerAction,
}

/// `event` can come of what was asked for last at `stage`. A message that starts a compilation
/// is complete, and a document that was parsed is a file.
pub open spec fn answers(stage: WorkerStage, event: WorkerEvent) -> bool {
    match stage {
        WorkerStage::Receiving => match event {
            WorkerEvent::Received(TaskMessage::CompilationContext(context)) => context.complete(),
            WorkerEvent::Received(TaskMessage::Terminate) => true,
            WorkerEvent::Disconnected => true,
            _ => false,
        },
        WorkerStage::CloningEngines(_) => event is EnginesCloned,
        WorkerStage::CollectingGarbage(_) => event is GarbageCollected,
        WorkerStage::Parsing { uri, .. } => event matches WorkerEvent::Parsed(parsed) && (parsed
            ==> uri.file_view() is Some),
        WorkerStage::ResolvingProgram { .. } => event is ProgramResolved,
        WorkerStage::ReadingMetrics { .. } => event is MetricsRead,
        WorkerStage::SwappingEngines => event is EnginesSwapped,
        WorkerStage::NotifyingWaiters => event is WaitersNotified,
        WorkerStage::Stopped => false,
    }
}

/// The compilation that a complete context asks for.
pub open spec fn job_of(context: CompilationContext) -> Job {
    Job {
        uri: context.uri->0,
        session: context.session->0,
        collect_garbage: context.collects_garbage(),
        lsp_mode: LspConfig {
            optimized_build: context.optimized_build,
            file_versions: context.file_versions,
        },
    }
}

/// The compiler starts on `job`.
pub open spec fn starting(job: Job, status: CompilationStatus) -> Step {
    Step {
        stage: WorkerStage::Parsing { uri: job.uri, session: job.session },
        status: CompilationStatus { is_compiling: true, ..status },
        action: WorkerAction::Parse {
            uri: job.uri,
            session: job.session,
            lsp_mode: job.lsp_mode,
            experimental: ExperimentalFlags { new_encoding: false },
        },
    }
}

/// The status that a compilation leaves which ended with `outcome`.
pub open spec fn ended(outcome: LastCompilationState) -> CompilationStatus {
    CompilationStatus {
        is_compiling: false,
        retrigger_compilation: false,
        last_compilation_state: outcome,
    }
}

/// The compilation has ended with `outcome`. The waiters are woken unless a message waits.
pub open spec fn ending(outcome: LastCompilationState, queue_empty: bool) -> Step {
    if queue_empty {
        Step {
            stage: WorkerStage::NotifyingWaiters,
            status: ended(outcome),
            action: WorkerAction::NotifyWaiters,
        }
    } else {
        Step {
            stage: WorkerStage::Receiving,
            status: ended(outcome),
            action: WorkerAction::Receive,
        }
    }
}

/// A step that leaves the status as it is.
pub open spec fn going_on(
    stage: WorkerStage,
    status: CompilationStatus,
    action: WorkerAction,
) -> Step {
    Step { stage, status, action }
}

/// Where `event` leads from `stage`. `queue_empty` says that no message waits.
pub open spec fn next_step(
    stage: WorkerStage,
    status: CompilationStatus,
    queue_empty: bool,
    event: WorkerEvent,
) -> Step {
    match (stage, event) {
        (
            WorkerStage::Receiving,
            WorkerEvent::Received(TaskMessage::CompilationContext(context)),
        ) => going_on(
            WorkerStage::CloningEngines(job_of(context)),
            status,
            WorkerAction::CloneEngines { session: job_of(context).session },
        ),
        (WorkerStage::CloningEngines(job), _) => if job.collect_garbage {
            going_on(
                WorkerStage::CollectingGarbage(job),
                status,
                WorkerAction::CollectGarbage { session: job.session },
            )
        } else {
            starting(job, status)
        },
        (WorkerStage::CollectingGarbage(job), _) => starting(job, status),
        (WorkerStage::Parsing { uri, session }, WorkerEvent::Parsed(true)) => going_on(
            WorkerStage::ResolvingProgram { session },
            status,
            WorkerAction::ResolveProgram { path: uri.file_view()->0 },
        ),
        (WorkerStage::Parsing { .. }, _) => ending(LastCompilationState::Failed, queue_empty),
        (WorkerStage::ResolvingProgram { session }, WorkerEvent::ProgramResolved(true)) => going_on(
            WorkerStage::ReadingMetrics { session },
            status,
            WorkerAction::ReadMetrics { session },
        ),
        (WorkerStage::ResolvingProgram { .. }, _) => ending(
            LastCompilationState::Failed,
            queue_empty,
        ),
        (WorkerStage::ReadingMetrics { session }, WorkerEvent::MetricsRead(Some(0))) => going_on(
            WorkerStage::SwappingEngines,
            status,
            WorkerAction::SwapEngines { session },
        ),
        (WorkerStage::ReadingMetrics { .. }, _) => ending(
            LastCompilationState::Success,
            queue_empty,
        ),
        (WorkerStage::SwappingEngines, _) => ending(LastCompilationState::Success, queue_empty),
        (WorkerStage::NotifyingWaiters, _) => going_on(
            WorkerStage::Receiving,
            status,
            WorkerAction::Receive,
        ),
        (_, _) => going_on(WorkerStage::Stopped, status, WorkerAction::Exit),
    }
}

/// The compilation worker.
#[derive(Debug)]
pub struct CompilationWorker {
    pub stage: WorkerStage,
}

fn start(job: Job, status: &mut CompilationStatus) -> (next: (WorkerStage, WorkerAction))
    ensures
        next.0 == starting(job, *old(status)).stage,
        next.1 == starting(job, *old(status)).action,
        *final(status) == starting(job, *old(status)).status,
{
    status.is_compiling = true;
    (
        WorkerStage::Parsing { uri: job.uri.clone(), session: job.session },
        WorkerAction::Parse {
            uri: job.uri,
            session: job.session,
            lsp_mode: job.lsp_mode,
            experimental: ExperimentalFlags { new_encoding: false },
        },
    )
}

fn end(outcome: LastCompilationState, status: &mut CompilationStatus, tasks: &TaskQueue) -> (next: (
    WorkerStage,
    WorkerAction,
))
    requires
        tasks.wf(),
    ensures
        next.0 == ending(outcome, tasks@.len() == 0).stage,
        next.1 == ending(outcome, tasks@.len() == 0).action,
        *final(status) == ended(outcome),
{
    status.last_compilation_state = outcome;
    status.is_compiling = false;
    status.retrigger_compilation = false;
    // Make sure there isn't any pending compilation work.
    if tasks.is_empty() {
        (WorkerStage::NotifyingWaiters, WorkerAction::NotifyWaiters)
    } else {
        (WorkerStage::Receiving, WorkerAction::Receive)
    }
}

impl CompilationWorker {
    /// A worker that waits for its first message.
    pub fn new() -> (worker: CompilationWorker)
        ensures
            worker.stage == WorkerStage::Receiving,
    {
        CompilationWorker { stage: WorkerStage::Receiving }
    }

    /// Takes in what came of the last action and says what to do next. `tasks` are the messages
    /// that wait.
    pub fn step(
        self,
        status: &mut CompilationStatus,
        tasks: &TaskQueue,
        event: WorkerEvent,
    ) -> (next: (CompilationWorker, WorkerAction))
        requires
            answers(self.stage, event),
            tasks.wf(),
        ensures
            (Step { stage: next.0.stage, status: *final(status), action: next.1 }) == next_step(
                self.stage,
                *old(status),
                tasks@.len() == 0,
                event,
            ),
    {
        let (stage, action) = match self.stage {
            WorkerStage::Receiving => match event {
                WorkerEvent::Received(TaskMessage::CompilationContext(context)) => receive(context),
                _ => (WorkerStage::Stopped, WorkerAction::Exit),
            },
            WorkerStage::CloningEngines(job) => if job.collect_garbage {
                let session = job.session;
                (WorkerStage::CollectingGarbage(job), WorkerAction::CollectGarbage { session })
            } else {
                start(job, status)
            },
            WorkerStage::CollectingGarbage(job) => start(job, status),
            WorkerStage::Parsing { uri, session } => match event {
                WorkerEvent::Parsed(true) => match uri.into_file() {
                    Some(path) => (
                        WorkerStage::ResolvingProgram { session },
                        WorkerAction::ResolveProgram { path },
                    ),
                    None => (WorkerStage::Stopped, WorkerAction::Exit),
                },
                _ => end(LastCompilationState::Failed, status, tasks),
            },
            WorkerStage::ResolvingProgram { session } => match event {
                WorkerEvent::ProgramResolved(true) => (
                    WorkerStage::ReadingMetrics { session },
                    WorkerAction::ReadMetrics { session },
                ),
                _ => end(LastCompilationState::Failed, status, tasks),
            },
            WorkerStage::ReadingMetrics { session } => match event {
                // The compiler did not reuse a program: the engines of the session are out of
                // date. Where it did, types that the clone has lost may still be in use.
                WorkerEvent::MetricsRead(Some(0)) => (
                    WorkerStage::SwappingEngines,
                    WorkerAction::SwapEngines { session },
                ),
                _ => end(LastCompilationState::Success, status, tasks),
            },
            WorkerStage::SwappingEngines => end(LastCompilationState::Success, status, tasks),
            WorkerStage::NotifyingWaiters => (WorkerStage::Receiving, WorkerAction::Receive),
            WorkerStage::Stopped => (WorkerStage::Stopped, WorkerAction::Exit),
        };
        (CompilationWorker { stage }, action)
    }
}

/// Takes on the compilation that `context` asks for.
fn receive(context: CompilationContext) -> (next: (WorkerStage, WorkerAction))
    requires
        context.complete(),
    ensures
        next.0 == WorkerStage::CloningEngines(job_of(context)),
        next.1 == (WorkerAction::CloneEngines { session: job_of(context).session }),
{
    let collect_garbage = context.should_collect_garbage();
    match (context.uri, context.session) {
        (Some(uri), Some(session)) => {
            let lsp_mode = LspConfig {
                optimized_build: context.optimized_build,
                file_versions: context.file_versions,
            };
            let job = Job { uri, session, collect_garbage, lsp_mode };
            (WorkerStage::CloningEngines(job), WorkerAction::CloneEngines { session })
        },
        (_, _) => (WorkerStage::Stopped, WorkerAction::Exit),
    }
}

/// What comes of the actions of one compilation.
pub struct Outcomes {
    pub parsed: bool,
    pub program_resolved: bool,
    pub reused_programs: Option<u64>,
    /// Whether no message waits when the compilation ends.
    pub queue_empty: bool,
}

impl Outcomes {
    /// What the thread hands in after `action`.
    pub open spec fn event_after(self, action: WorkerAction) -> WorkerEvent {
        match action {
            WorkerAction::Receive => WorkerEvent::Disconnected,
            WorkerAction::CloneEngines { .. } => WorkerEvent::EnginesCloned,
            WorkerAction::CollectGarbage { .. } => WorkerEvent::GarbageCollected,
            WorkerAction::Parse { .. } => WorkerEvent::Parsed(self.parsed),
            WorkerAction::ResolveProgram { .. } => WorkerEvent::ProgramResolved(
                self.program_resolved,
            ),
            WorkerAction::ReadMetrics { .. } => WorkerEvent::MetricsRead(self.reused_programs),
            WorkerAction::SwapEngines { .. } => WorkerEvent::EnginesSwapped,
            WorkerAction::NotifyWaiters => WorkerEvent::WaitersNotified,
            WorkerAction::Exit => WorkerEvent::Disconnected,
        }
    }

    /// The compilation succeeds.
    pub open spec fn success(self) -> bool {
        self.parsed && self.program_resolved
    }

    /// The compilation succeeds, and no program was reused for it.
    pub open spec fn fresh(self) -> bool {
        self.success() && self.reused_programs == Some(0u64)
    }
}

/// The step that follows `step`.
pub open spec fn step_after(step: Step, outcomes: Outcomes) -> Step {
    next_step(
        step.stage,
        step.status,
        outcomes.queue_empty,
        outcomes.event_after(step.action),
    )
}

/// `step` and the steps that follow it, as far as the next message, but no more than `limit`.
pub open spec fn steps_from(step: Step, outcomes: Outcomes, limit: nat) -> Seq<Step>
    decreases limit,
{
    if limit == 0 || step.action is Receive || step.action is Exit {
        seq![step]
    } else {
        let next = step_after(step, outcomes);
        seq![step] + steps_from(next, outcomes, (limit - 1) as nat)
    }
}

/// The step that the message with `context` leads to.
pub open spec fn first_step(
    context: CompilationContext,
    status: CompilationStatus,
    outcomes: Outcomes,
) -> Step {
    let message = WorkerEvent::Received(TaskMessage::CompilationContext(context));
    next_step(WorkerStage::Receiving, status, outcomes.queue_empty, message)
}

/// What the worker does for `context`, from the message on to the wait for the next one.
pub open spec fn steps_for(
    context: CompilationContext,
    status: CompilationStatus,
    outcomes: Outcomes,
) -> Seq<Step> {
    steps_from(first_step(context, status, outcomes), outcomes, 7)
}

/// `action`, where it is called for.
pub open spec fn only_if(called_for: bool, action: WorkerAction) -> Seq<WorkerAction> {
    if called_for {
        seq![action]
    } else {
        Seq::empty()
    }
}

/// The actions that `context` calls for, in their order.
pub open spec fn actions_for(context: CompilationContext, outcomes: Outcomes) -> Seq<WorkerAction> {
    let job = job_of(context);
    let session = job.session;
    let path = job.uri.file_view()->0;
    seq![WorkerAction::CloneEngines { session }] + only_if(
        job.collect_garbage,
        WorkerAction::CollectGarbage { session },
    ) + seq![
        WorkerAction::Parse {
            uri: job.uri,
            session,
            lsp_mode: job.lsp_mode,
            experimental: ExperimentalFlags { new_encoding: false },
        },
    ] + only_if(outcomes.parsed, WorkerAction::ResolveProgram { path }) + only_if(
        outcomes.success(),
        WorkerAction::ReadMetrics { session },
    ) + only_if(outcomes.fresh(), WorkerAction::SwapEngines { session }) + only_if(
        outcomes.queue_empty,
        WorkerAction::NotifyWaiters,
    ) + seq![WorkerAction::Receive]
}

/// The actions of all steps.
pub open spec fn actions_of(steps: Seq<Step>) -> Seq<WorkerAction> {
    steps.map_values(|step: Step| step.action)
}

/// The compiler is at work, or what it has done is being looked at.
pub open spec fn is_compiling_during(action: WorkerAction) -> bool {
    action is Parse || action is ResolveProgram || action is ReadMetrics || action is SwapEngines
}

/// The status that a compilation leaves.
pub open spec fn status_after(outcomes: Outcomes) -> CompilationStatus {
    ended(
        if outcomes.success() {
            LastCompilationState::Success
        } else {
            LastCompilationState::Failed
        },
    )
}

/// The steps from `step` on take `actions` and end in the wait for a message, with the status
/// that the compilation leaves. The status says that a compilation is under way exactly while
/// the compiler is at work.
spec fn runs_through(
    step: Step,
    outcomes: Outcomes,
    limit: nat,
    actions: Seq<WorkerAction>,
) -> bool {
    let steps = steps_from(step, outcomes, limit);
    &&& steps.len() > 0
    &&& actions_of(steps) == actions
    &&& steps.last().stage == WorkerStage::Receiving
    &&& steps.last().status == status_after(outcomes)
    &&& forall|i: int|
        0 <= i < steps.len() ==> (#[trigger] steps[i]).status.is_compiling == is_compiling_during(
            steps[i].action,
        )
    &&& forall|i: int|
        0 <= i < steps.len() && (#[trigger] steps[i]).action is NotifyWaiters ==> steps[i].status
            == status_after(outcomes)
}

proof fn lemma_one_more(step: Step, outcomes: Outcomes, limit: nat, actions: Seq<WorkerAction>)
    requires
        limit > 0,
        !(step.action is Receive || step.action is Exit),
        step.status.is_compiling == is_compiling_during(step.action),
        step.action is NotifyWaiters ==> step.status == status_after(outcomes),
        runs_through(
            step_after(step, outcomes),
            outcomes,
            (limit - 1) as nat,
            actions,
        ),
    ensures
        runs_through(step, outcomes, limit, seq![step.action] + actions),
{
    let next = step_after(step, outcomes);
    let rest = steps_from(next, outcomes, (limit - 1) as nat);
    let steps = steps_from(step, outcomes, limit);
    assert(steps == seq![step] + rest);
    assert(actions_of(steps) =~= seq![step.action] + actions_of(rest));
    assert(steps.last() == rest.last());
}

/// The actions once the compilation has ended.
spec fn closing_actions(outcomes: Outcomes) -> Seq<WorkerAction> {
    only_if(outcomes.queue_empty, WorkerAction::NotifyWaiters) + seq![WorkerAction::Receive]
}

proof fn lemma_closing(outcomes: Outcomes, limit: nat)
    requires
        limit >= 1,
    ensures
        runs_through(
            ending(status_after(outcomes).last_compilation_state, outcomes.queue_empty),
            outcomes,
            limit,
            closing_actions(outcomes),
        ),
{
    let status = status_after(outcomes);
    let notify = going_on(WorkerStage::NotifyingWaiters, status, WorkerAction::NotifyWaiters);
    let receive = going_on(WorkerStage::Receiving, status, WorkerAction::Receive);
    let last = seq![WorkerAction::Receive];
    if outcomes.queue_empty {
        let left = (limit - 1) as nat;
        assert(actions_of(steps_from(receive, outcomes, left)) =~= last);
        assert(runs_through(receive, outcomes, left, last));
        lemma_one_more(notify, outcomes, limit, last);
        assert(seq![WorkerAction::NotifyWaiters] + last =~= closing_actions(outcomes));
    } else {
        assert(actions_of(steps_from(receive, outcomes, limit)) =~= last);
        assert(runs_through(receive, outcomes, limit, last));
        assert(last =~= closing_actions(outcomes));
    }
}

/// The actions from the compiler's start on.
spec fn compiler_actions(job: Job, outcomes: Outcomes) -> Seq<WorkerAction> {
    let path = job.uri.file_view()->0;
    seq![
        WorkerAction::Parse {
            uri: job.uri,
            session: job.session,
            lsp_mode: job.lsp_mode,
            experimental: ExperimentalFlags { new_encoding: false },
        },
    ] + only_if(outcomes.parsed, WorkerAction::ResolveProgram { path }) + only_if(
        outcomes.success(),
        WorkerAction::ReadMetrics { session: job.session },
    ) + only_if(outcomes.fresh(), WorkerAction::SwapEngines { session: job.session })
        + closing_actions(outcomes)
}

proof fn lemma_compiler(job: Job, status: CompilationStatus, outcomes: Outcomes, limit: nat)
    requires
        limit >= 5,
    ensures
        runs_through(starting(job, status), outcomes, limit, compiler_actions(job, outcomes)),
{
    let session = job.session;
    let busy = CompilationStatus { is_compiling: true, ..status };
    let parse = starting(job, status);
    let resolve = going_on(
        WorkerStage::ResolvingProgram { session },
        busy,
        WorkerAction::ResolveProgram { path: job.uri.file_view()->0 },
    );
    let measure = going_on(
        WorkerStage::ReadingMetrics { session },
        busy,
        WorkerAction::ReadMetrics { session },
    );
    let swap = going_on(
        WorkerStage::SwappingEngines,
        busy,
        WorkerAction::SwapEngines { session },
    );
    let closing = closing_actions(outcomes);
    if outcomes.fresh() {
        lemma_closing(outcomes, (limit - 4) as nat);
        lemma_one_more(swap, outcomes, (limit - 3) as nat, closing);
        let from_swap = seq![swap.action] + closing;
        lemma_one_more(measure, outcomes, (limit - 2) as nat, from_swap);
        let from_measure = seq![measure.action] + from_swap;
        lemma_one_more(resolve, outcomes, (limit - 1) as nat, from_measure);
        let from_resolve = seq![resolve.action] + from_measure;
        lemma_one_more(parse, outcomes, limit, from_resolve);
        assert(seq![parse.action] + from_resolve =~= compiler_actions(job, outcomes));
    } else if outcomes.success() {
        lemma_closing(outcomes, (limit - 3) as nat);
        lemma_one_more(measure, outcomes, (limit - 2) as nat, closing);
        let from_measure = seq![measure.action] + closing;
        lemma_one_more(resolve, outcomes, (limit - 1) as nat, from_measure);
        let from_resolve = seq![resolve.action] + from_measure;
        lemma_one_more(parse, outcomes, limit, from_resolve);
        assert(seq![parse.action] + from_resolve =~= compiler_actions(job, outcomes));
    } else if outcomes.parsed {
        lemma_closing(outcomes, (limit - 2) as nat);
        lemma_one_more(resolve, outcomes, (limit - 1) as nat, closing);
        let from_resolve = seq![resolve.action] + closing;
        lemma_one_more(parse, outcomes, limit, from_resolve);
        assert(seq![parse.action] + from_resolve =~= compiler_actions(job, outcomes));
    } else {
        lemma_closing(outcomes, (limit - 1) as nat);
        lemma_one_more(parse, outcomes, limit, closing);
        assert(seq![parse.action] + closing =~= compiler_actions(job, outcomes));
    }
}

proof fn lemma_task(context: CompilationContext, status: CompilationStatus, outcomes: Outcomes)
    requires
        !status.is_compiling,
    ensures
        runs_through(
            going_on(
                WorkerStage::CloningEngines(job_of(context)),
                status,
                WorkerAction::CloneEngines { session: job_of(context).session },
            ),
            outcomes,
            7,
            actions_for(context, outcomes),
        ),
{
    let job = job_of(context);
    let session = job.session;
    let clone = going_on(
        WorkerStage::CloningEngines(job),
        status,
        WorkerAction::CloneEngines { session },
    );
    let compiling = compiler_actions(job, outcomes);
    if job.collect_garbage {
        let collect = going_on(
            WorkerStage::CollectingGarbage(job),
            status,
            WorkerAction::CollectGarbage { session },
        );
        lemma_compiler(job, status, outcomes, 5);
        lemma_one_more(collect, outcomes, 6, compiling);
        lemma_one_more(clone, outcomes, 7, seq![collect.action] + compiling);
        assert(seq![clone.action] + (seq![collect.action] + compiling) =~= actions_for(
            context,
            outcomes,
        ));
    } else {
        lemma_compiler(job, status, outcomes, 6);
        lemma_one_more(clone, outcomes, 7, compiling);
        assert(seq![clone.action] + compiling =~= actions_for(context, outcomes));
    }
}

/// For a message that asks for a compilation the worker clones the engines, collects garbage if
/// it is due, parses the project, looks at the program where that succeeded, gives the session
/// the new engines exactly where no program was reused, and wakes the waiters exactly where no
/// message is left. Then it waits for the next message.
pub proof fn law_compilation_actions(
    context: CompilationContext,
    status: CompilationStatus,
    outcomes: Outcomes,
)
    requires
        context.complete(),
    ensures
        actions_of(steps_for(context, status, outcomes)) == actions_for(context, outcomes),
        steps_for(context, status, outcomes).last().stage == WorkerStage::Receiving,
{
    let idle = CompilationStatus { is_compiling: false, ..status };
    lemma_task(context, idle, outcomes);
    lemma_status_decides_nothing(
        first_step(context, status, outcomes),
        first_step(context, idle, outcomes),
        outcomes,
        7,
    );
}

/// What the worker does depends on its stage, not on the status.
proof fn lemma_status_decides_nothing(one: Step, other: Step, outcomes: Outcomes, limit: nat)
    requires
        one.stage == other.stage,
        one.action == other.action,
    ensures
        steps_from(one, outcomes, limit).len() > 0,
        steps_from(other, outcomes, limit).len() > 0,
        actions_of(steps_from(one, outcomes, limit)) == actions_of(
            steps_from(other, outcomes, limit),
        ),
        steps_from(one, outcomes, limit).last().stage == steps_from(
            other,
            outcomes,
            limit,
        ).last().stage,
    decreases limit,
{
    if !(limit == 0 || one.action is Receive || one.action is Exit) {
        let left = (limit - 1) as nat;
        let next_one = step_after(one, outcomes);
        let next_other = step_after(other, outcomes);
        lemma_status_decides_nothing(next_one, next_other, outcomes, left);
        let rest_one = actions_of(steps_from(next_one, outcomes, left));
        let rest_other = actions_of(steps_from(next_other, outcomes, left));
        assert(actions_of(steps_from(one, outcomes, limit)) =~= seq![one.action] + rest_one);
        assert(actions_of(steps_from(other, outcomes, limit)) =~= seq![other.action] + rest_other);
    } else {
        assert(actions_of(steps_from(one, outcomes, limit)) =~= actions_of(
            steps_from(other, outcomes, limit),
        ));
    }
}

/// The status says that a compilation is under way exactly while the compiler is at work. After
/// every compilation the status says how it went, and nothing asks the next one to give up.
pub proof fn law_compilation_status(
    context: CompilationContext,
    status: CompilationStatus,
    outcomes: Outcomes,
    i: int,
)
    requires
        context.complete(),
        !status.is_compiling,
        0 <= i < steps_for(context, status, outcomes).len(),
    ensures
        ({
            let step = steps_for(context, status, outcomes)[i];
            step.status.is_compiling == is_compiling_during(step.action)
        }),
        steps_for(context, status, outcomes).last().status == status_after(outcomes),
{
    lemma_task(context, status, outcomes);
}

/// The waiters are woken only once the status says how the compilation went.
pub proof fn law_status_when_notifying(
    context: CompilationContext,
    status: CompilationStatus,
    outcomes: Outcomes,
    i: int,
)
    requires
        context.complete(),
        !status.is_compiling,
        0 <= i < steps_for(context, status, outcomes).len(),
        steps_for(context, status, outcomes)[i].action is NotifyWaiters,
    ensures
        steps_for(context, status, outcomes)[i].status == status_after(outcomes),
{
    lemma_task(context, status, outcomes);
}

/// Once a compilation has ended, the status never again says that none has.
pub proof fn law_never_uninitialized_again(
    stage: WorkerStage,
    status: CompilationStatus,
    queue_empty: bool,
    event: WorkerEvent,
)
    requires
        answers(stage, event),
        status.last_compilation_state != LastCompilationState::Uninitialized,
    ensures
        next_step(stage, status, queue_empty, event).status.last_compilation_state
            != LastCompilationState::Uninitialized,
{
}

/// The status says that a compilation is under way exactly from the compiler's start on until
/// the compilation has ended.
pub open spec fn status_fits(stage: WorkerStage, status: CompilationStatus) -> bool {
    status.is_compiling == (stage is Parsing || stage is ResolvingProgram
        || stage is ReadingMetrics || stage is SwappingEngines)
}

/// Whatever comes of the worker's actions, its status keeps to its stage.
pub proof fn law_status_keeps_to_stage(
    stage: WorkerStage,
    status: CompilationStatus,
    queue_empty: bool,
    event: WorkerEvent,
)
    requires
        answers(stage, event),
        status_fits(stage, status),
    ensures
        status_fits(
            next_step(stage, status, queue_empty, event).stage,
            next_step(stage, status, queue_empty, event).status,
        ),
{
}

/// The message that ends the worker ends it at once, and so does the end of all messages. The
/// status stays as it is.
pub proof fn law_terminate_ends_worker(status: CompilationStatus, queue_empty: bool)
    ensures
        next_step(
            WorkerStage::Receiving,
            status,
            queue_empty,
            WorkerEvent::Received(TaskMessage::Terminate),
        ) == going_on(WorkerStage::Stopped, status, WorkerAction::Exit),
        next_step(WorkerStage::Receiving, status, queue_empty, WorkerEvent::Disconnected)
            == going_on(WorkerStage::Stopped, status, WorkerAction::Exit),
        ({
            let message = WorkerEvent::Received(TaskMessage::Terminate);
            let next = next_step(WorkerStage::Receiving, status, queue_empty, message);
            &&& next.stage == WorkerStage::Stopped
            &&& next.status == status
            &&& next.action == WorkerAction::Exit
        }),
        ({
            let event = WorkerEvent::Disconnected;
            let next = next_step(WorkerStage::Receiving, status, queue_empty, event);
            &&& next.stage == WorkerStage::Stopped
            &&& next.status == status
            &&& next.action == WorkerAction::Exit
        }),
{
}

/// Whatever the thread is asked to do for a compilation, the worker can take in what comes of it,
/// as long as nothing but files is parsed.
pub proof fn law_outcomes_are_answers(
    context: CompilationContext,
    status: CompilationStatus,
    outcomes: Outcomes,
    i: int,
)
    requires
        context.complete(),
        outcomes.parsed ==> context.uri->0.file_view() is Some,
        0 <= i < steps_for(context, status, outcomes).len(),
    ensures
        ({
            let step = steps_for(context, status, outcomes)[i];
            answers(step.stage, outcomes.event_after(step.action))
        }),
{
    lemma_answers(first_step(context, status, outcomes), outcomes, 7, i);
}

/// The document of a compilation that has not been parsed yet is a file.
spec fn document_is_file(stage: WorkerStage) -> bool {
    match stage {
        WorkerStage::CloningEngines(job) => job.uri.file_view() is Some,
        WorkerStage::CollectingGarbage(job) => job.uri.file_view() is Some,
        WorkerStage::Parsing { uri, .. } => uri.file_view() is Some,
        _ => true,
    }
}

proof fn lemma_answers(step: Step, outcomes: Outcomes, limit: nat, i: int)
    requires
        answers(step.stage, outcomes.event_after(step.action)),
        outcomes.parsed ==> document_is_file(step.stage),
        0 <= i < steps_from(step, outcomes, limit).len(),
    ensures
        ({
            let later = steps_from(step, outcomes, limit)[i];
            answers(later.stage, outcomes.event_after(later.action))
        }),
    decreases limit,
{
    if i > 0 {
        lemma_answers(step_after(step, outcomes), outcomes, (limit - 1) as nat, i - 1);
    }
}

/// A message that asks for a compilation is taken as it is: the document, the session, the kind of
/// build and the versions of the files are those of the message. Garbage is to be collected
/// exactly if that is enabled and the frequency divides the version. First the engines of the
/// session are cloned, and the status stays as it is.
pub proof fn law_request_is_taken(
    context: CompilationContext,
    status: CompilationStatus,
    queue_empty: bool,
)
    requires
        context.uri is Some,
        context.session is Some,
    ensures
        ({
            let message = WorkerEvent::Received(TaskMessage::CompilationContext(context));
            let next = next_step(WorkerStage::Receiving, status, queue_empty, message);
            &&& next.status == status
            &&& next.action == (WorkerAction::CloneEngines { session: context.session->0 })
            &&& next.stage matches WorkerStage::CloningEngines(job) && {
                &&& context.uri == Some(job.uri)
                &&& context.session == Some(job.session)
                &&& job.lsp_mode.optimized_build == context.optimized_build
                &&& job.lsp_mode.file_versions == context.file_versions
                &&& job.collect_garbage == (context.gc_options.gc_enabled && context.version is Some
                    && context.version->0 as int % context.gc_options.gc_frequency as int == 0)
            }
        }),
{
}

/// With the engines cloned, garbage is collected if that is to be done, in the engines of the same
/// session, and the compilation goes on with the same request. The status stays as it is.
pub proof fn law_garbage_is_collected(job: Job, status: CompilationStatus, queue_empty: bool)
    requires
        job.collect_garbage,
    ensures
        ({
            let stage = WorkerStage::CloningEngines(job);
            let next = next_step(stage, status, queue_empty, WorkerEvent::EnginesCloned);
            &&& next.status == status
            &&& next.stage == WorkerStage::CollectingGarbage(job)
            &&& next.action == (WorkerAction::CollectGarbage { session: job.session })
        }),
{
}

/// The compiler starts once garbage has been collected, or as soon as the engines are cloned if
/// none is to be collected. It gets the document, the session, the kind of build and the versions
/// of the files that were asked for, without the new encoding. From then on a compilation is under
/// way; the rest of the status stays as it is.
pub proof fn law_compiler_starts(
    stage: WorkerStage,
    job: Job,
    status: CompilationStatus,
    queue_empty: bool,
)
    requires
        stage == WorkerStage::CollectingGarbage(job) || (stage == WorkerStage::CloningEngines(job)
            && !job.collect_garbage),
    ensures
        ({
            let event = if stage is CollectingGarbage {
                WorkerEvent::GarbageCollected
            } else {
                WorkerEvent::EnginesCloned
            };
            let next = next_step(stage, status, queue_empty, event);
            &&& next.status.is_compiling
            &&& next.status.retrigger_compilation == status.retrigger_compilation
            &&& next.status.last_compilation_state == status.last_compilation_state
            &&& next.stage == (WorkerStage::Parsing { uri: job.uri, session: job.session })
            &&& next.action matches WorkerAction::Parse {
                uri,
                session,
                lsp_mode,
                experimental,
            } && {
                &&& uri == job.uri
                &&& session == job.session
                &&& lsp_mode.optimized_build == job.lsp_mode.optimized_build
                &&& lsp_mode.file_versions == job.lsp_mode.file_versions
                &&& !experimental.new_encoding
            }
        }),
{
}

/// What was parsed is looked up by its file, then its metrics are read, and where no program was
/// reused the engines are swapped, all for the session of the compilation. Until then the status
/// stays as it is.
pub proof fn law_compilation_succeeds_step_by_step(
    uri: DocumentUri,
    session: SessionId,
    status: CompilationStatus,
    queue_empty: bool,
)
    ensures
        ({
            let stage = WorkerStage::Parsing { uri, session };
            let next = next_step(stage, status, queue_empty, WorkerEvent::Parsed(true));
            &&& next.status == status
            &&& next.stage == (WorkerStage::ResolvingProgram { session })
            &&& next.action matches WorkerAction::ResolveProgram { path } && (
            uri.file_view() is Some ==> uri.file_view() == Some(path))
        }),
        ({
            let stage = WorkerStage::ResolvingProgram { session };
            let next = next_step(stage, status, queue_empty, WorkerEvent::ProgramResolved(true));
            &&& next.status == status
            &&& next.stage == (WorkerStage::ReadingMetrics { session })
            &&& next.action == (WorkerAction::ReadMetrics { session })
        }),
        ({
            let stage = WorkerStage::ReadingMetrics { session };
            let next = next_step(stage, status, queue_empty, WorkerEvent::MetricsRead(Some(0)));
            &&& next.status == status
            &&& next.stage == WorkerStage::SwappingEngines
            &&& next.action == (WorkerAction::SwapEngines { session })
        }),
{
}

/// What could not be parsed or resolved has failed. What was resolved has succeeded, whether there
/// are metrics or not and whether programs were reused or not. Either way no compilation is under
/// way any more, nothing is told to give up, and the status says whether the compilation
/// succeeded. The waiters are woken if no message waits; otherwise the next message is taken.
pub proof fn law_compilation_ends(
    stage: WorkerStage,
    event: WorkerEvent,
    succeeded: bool,
    status: CompilationStatus,
    queue_empty: bool,
)
    requires
        ({
            ||| stage is Parsing && event == WorkerEvent::Parsed(false) && !succeeded
            ||| stage is ResolvingProgram && event == WorkerEvent::ProgramResolved(false)
                && !succeeded
            ||| stage is ReadingMetrics && event is MetricsRead && event
                != WorkerEvent::MetricsRead(Some(0)) && succeeded
            ||| stage is SwappingEngines && event is EnginesSwapped && succeeded
        }),
    ensures
        ({
            let next = next_step(stage, status, queue_empty, event);
            &&& !next.status.is_compiling
            &&& !next.status.retrigger_compilation
            &&& next.status.last_compilation_state == if succeeded {
                LastCompilationState::Success
            } else {
                LastCompilationState::Failed
            }
            &&& queue_empty ==> next.stage == WorkerStage::NotifyingWaiters && next.action
                == WorkerAction::NotifyWaiters
            &&& !queue_empty ==> next.stage == WorkerStage::Receiving && next.action
                == WorkerAction::Receive
        }),
{
}

/// With the waiters woken, the next message is waited for. The status stays as it is.
pub proof fn law_waiting_for_messages_goes_on(status: CompilationStatus, queue_empty: bool)
    ensures
        ({
            let stage = WorkerStage::NotifyingWaiters;
            let next = next_step(stage, status, queue_empty, WorkerEvent::WaitersNotified);
            &&& next.status == status
            &&& next.stage == WorkerStage::Receiving
            &&& next.action == WorkerAction::Receive
        }),
{
}

/// The worker takes in whatever can come of what it asked for: every complete message, the message
/// that ends it and the end of all messages, and both outcomes of each action. Only a document
/// that is no file cannot have been parsed.
pub proof fn law_what_the_worker_takes_in(
    context: CompilationContext,
    uri: DocumentUri,
    session: SessionId,
    job: Job,
    outcome: bool,
    reused: Option<u64>,
)
    ensures
        answers(WorkerStage::Receiving, WorkerEvent::Received(TaskMessage::Terminate)),
        answers(WorkerStage::Receiving, WorkerEvent::Disconnected),
        answers(
            WorkerStage::Receiving,
            WorkerEvent::Received(TaskMessage::CompilationContext(context)),
        ) == context.complete(),
        answers(WorkerStage::CloningEngines(job), WorkerEvent::EnginesCloned),
        answers(WorkerStage::CollectingGarbage(job), WorkerEvent::GarbageCollected),
        answers(WorkerStage::Parsing { uri, session }, WorkerEvent::Parsed(outcome)) == (!outcome
            || uri.file_view() is Some),
        answers(WorkerStage::ResolvingProgram { session }, WorkerEvent::ProgramResolved(outcome)),
        answers(WorkerStage::ReadingMetrics { session }, WorkerEvent::MetricsRead(reused)),
        answers(WorkerStage::SwappingEngines, WorkerEvent::EnginesSwapped),
        answers(WorkerStage::NotifyingWaiters, WorkerEvent::WaitersNotified),
{
}

/// From the message to the wait for the next one, the actions of a compilation are those that the
/// message and what came of the actions call for: the engines of the session are cloned; garbage
/// is collected if the frequency divides the version; the project is parsed as the message says;
/// the file is looked up if that succeeded, the metrics are read if that did too, and the engines
/// are swapped if no program was reused; the waiters are woken if no message waits.
pub proof fn law_actions_follow_request(
    context: CompilationContext,
    status: CompilationStatus,
    outcomes: Outcomes,
)
    requires
        context.complete(),
    ensures
        ({
            let steps = steps_for(context, status, outcomes);
            let session = context.session->0;
            let collected: int = if context.gc_options.gc_enabled && context.version is Some
                && context.version->0 as int % context.gc_options.gc_frequency as int == 0 {
                1
            } else {
                0
            };
            let resolved = outcomes.parsed && outcomes.program_resolved;
            let swapped = resolved && outcomes.reused_programs == Some(0u64);
            let end: int = 2 + collected + (if swapped {
                3int
            } else if resolved {
                2
            } else if outcomes.parsed {
                1
            } else {
                0
            });
            let notified: int = if outcomes.queue_empty {
                1
            } else {
                0
            };
            &&& steps.len() == end + notified + 1
            &&& steps[0].action == (WorkerAction::CloneEngines { session })
            &&& collected == 1 ==> steps[1].action == (WorkerAction::CollectGarbage { session })
            &&& steps[1 + collected].action matches WorkerAction::Parse {
                uri,
                session: parsed_in,
                lsp_mode,
                experimental,
            } && {
                &&& context.uri == Some(uri)
                &&& parsed_in == session
                &&& lsp_mode.optimized_build == context.optimized_build
                &&& lsp_mode.file_versions == context.file_versions
                &&& !experimental.new_encoding
            }
            &&& outcomes.parsed ==> steps[2 + collected].action == (WorkerAction::ResolveProgram {
                path: (context.uri->0).file_view()->0,
            })
            &&& resolved ==> steps[3 + collected].action == (WorkerAction::ReadMetrics { session })
            &&& swapped ==> steps[4 + collected].action == (WorkerAction::SwapEngines { session })
            &&& outcomes.queue_empty ==> steps[end].action == WorkerAction::NotifyWaiters
            &&& steps.last().action == WorkerAction::Receive
        }),
{
    law_compilation_actions(context, status, outcomes);
    let steps = steps_for(context, status, outcomes);
    let actions = actions_of(steps);
    assert(steps.len() == actions.len());
    assert forall|i: int| 0 <= i < steps.len() implies (#[trigger] steps[i]).action
        == actions[i] by {}
}

/// Wherever the project is parsed for a message, it is parsed as the message says: its document,
/// in its session, as the kind of build that it asks for, with its versions of the files, and
/// without the new encoding.
pub proof fn law_parse_is_as_requested(
    context: CompilationContext,
    status: CompilationStatus,
    outcomes: Outcomes,
    i: int,
)
    requires
        context.complete(),
        0 <= i < steps_for(context, status, outcomes).len(),
    ensures
        steps_for(context, status, outcomes)[i].action matches WorkerAction::Parse {
            uri,
            session,
            lsp_mode,
            experimental,
        } ==> {
            &&& context.uri == Some(uri)
            &&& context.session == Some(session)
            &&& lsp_mode.optimized_build == context.optimized_build
            &&& lsp_mode.file_versions == context.file_versions
            &&& !experimental.new_encoding
        },
{
    law_actions_follow_request(context, status, outcomes);
}

} // verus!
