//! The decisions of the thread that launches a worker.
//!
//! The thread itself, the scripting engine and the handshake channel live
//! outside this library. After each piece of outside work the thread reports
//! how it ended and is told here what to do next.

use vstd::prelude::*;
use vstd::string::*;
use crate::event::{opt_text, WorkerError, WorkerErrorView};
use crate::text::{bool_text, decimal, spec_bool_text, spec_decimal};

verus! {

/// What a worker is launched with.
#[derive(Clone, Debug, PartialEq, Eq)]
pub struct RunWorkerThreadArgs {
    pub worker_id: u32,
    /// The worker's declared name; may be empty.
    pub name: String,
    /// The resolved specifier of the worker's module.
    pub specifier: String,
    /// Whether the worker runs with the privileged namespace.
    pub has_deno_namespace: bool,
    /// Source to execute in place of loading the module.
    pub maybe_source_code: Option<String>,
    /// The path of an import map.
    pub import_map: Option<String>,
}

pub struct RunWorkerThreadArgsView {
    pub worker_id: u32,
    pub name: Seq<char>,
    pub specifier: Seq<char>,
    pub has_deno_namespace: bool,
    pub maybe_source_code: Option<Seq<char>>,
    pub import_map: Option<Seq<char>>,
}

impl View for RunWorkerThreadArgs {
    type V = RunWorkerThreadArgsView;

    open spec fn view(&self) -> RunWorkerThreadArgsView {
        RunWorkerThreadArgsView {
            worker_id: self.worker_id,
            name: self.name@,
            specifier: self.specifier@,
            has_deno_namespace: self.has_deno_namespace,
            maybe_source_code: opt_text(self.maybe_source_code),
            import_map: opt_text(self.import_map),
        }
    }
}

/// Where the launching thread stands: the outside work that it is doing.
#[derive(Clone, Copy, Debug, PartialEq, Eq, Structural)]
pub enum LaunchPhase {
    /// Asking whether the import map may be read.
    CheckingImportMap,
    /// Reading the import map.
    LoadingImportMap,
    /// Building the worker's execution context.
    Constructing,
    /// Handing the standard streams to the worker.
    AttachingStdio,
    /// Running the bootstrap script.
    Bootstrapping,
    /// Sending the worker's handle to its creator.
    Handshaking,
    /// Evaluating the worker's source or module.
    Evaluating,
    /// Driving the worker's event loop.
    Running,
    /// Done: the thread returns.
    Exited,
}

/// How a piece of outside work ended.
#[derive(Clone, Debug, PartialEq, Eq)]
pub enum StepOutcome {
    Done,
    Failed(WorkerError),
}

pub enum StepOutcomeView {
    Done,
    Failed(WorkerErrorView),
}

impl View for StepOutcome {
    type V = StepOutcomeView;

    open spec fn view(&self) -> StepOutcomeView {
        match self {
            StepOutcome::Done => StepOutcomeView::Done,
            StepOutcome::Failed(error) => StepOutcomeView::Failed(error@),
        }
    }
}

/// The outside work that the launching thread is told to do.
#[derive(Clone, Debug, PartialEq, Eq)]
pub enum LaunchAction {
    /// Ask, under the creator's permissions, whether this path may be read.
    CheckReadPermission(String),
    /// Read the import map at this path.
    LoadImportMap(String),
    /// Build the execution context and the worker in it.
    Construct,
    /// Add the standard streams to the worker's resources.
    AttachStdio,
    /// Execute this bootstrap script in the worker.
    Bootstrap(String),
    /// Send the worker's handle through the handshake channel.
    SendHandle,
    /// Send this error through the handshake channel, then return.
    SendCreationError(WorkerError),
    /// Execute this source in the worker.
    ExecuteSource(String),
    /// Load and evaluate the module with this specifier.
    LoadModule(String),
    /// Drive the worker's event loop until it drains.
    RunEventLoop,
    /// Post this error to the host as a terminal error, then return.
    PostTerminalError(WorkerError),
    /// Return from the thread.
    Exit,
}

pub enum LaunchActionView {
    CheckReadPermission(Seq<char>),
    LoadImportMap(Seq<char>),
    Construct,
    AttachStdio,
    Bootstrap(Seq<char>),
    SendHandle,
    SendCreationError(WorkerErrorView),
    ExecuteSource(Seq<char>),
    LoadModule(Seq<char>),
    RunEventLoop,
    PostTerminalError(WorkerErrorView),
    Exit,
}

impl View for LaunchAction {
    type V = LaunchActionView;

    open spec fn view(&self) -> LaunchActionView {
        match self {
            LaunchAction::CheckReadPermission(path) => LaunchActionView::CheckReadPermission(
                path@,
            ),
            LaunchAction::LoadImportMap(path) => LaunchActionView::LoadImportMap(path@),
            LaunchAction::Construct => LaunchActionView::Construct,
            LaunchAction::AttachStdio => LaunchActionView::AttachStdio,
            LaunchAction::Bootstrap(script) => LaunchActionView::Bootstrap(script@),
            LaunchAction::SendHandle => LaunchActionView::SendHandle,
            LaunchAction::SendCreationError(error) => LaunchActionView::SendCreationError(error@),
            LaunchAction::ExecuteSource(source) => LaunchActionView::ExecuteSource(source@),
            LaunchAction::LoadModule(specifier) => LaunchActionView::LoadModule(specifier@),
            LaunchAction::RunEventLoop => LaunchActionView::RunEventLoop,
            LaunchAction::PostTerminalError(error) => LaunchActionView::PostTerminalError(error@),
            LaunchAction::Exit => LaunchActionView::Exit,
        }
    }
}

/// The name of the thread of worker `id`: `deno-worker-` and the id.
pub open spec fn spec_thread_name(id: u32) -> Seq<char> {
    "deno-worker-"@ + spec_decimal(id as nat)
}

/// The bootstrap script: the worker's declared name, its permission tier, and
/// `worker-` with the id as the name under which it logs, since the declared
/// name may be empty.
pub open spec fn spec_bootstrap_script(name: Seq<char>, has_deno_namespace: bool, id: u32) -> Seq<
    char,
> {
    "bootstrap.workerRuntime(\""@ + name + "\", "@ + spec_bool_text(has_deno_namespace)
        + ", \"worker-"@ + spec_decimal(id as nat) + "\")"@
}

/// The step that builds the execution context and what follows it.
pub open spec fn spec_after_construct(args: RunWorkerThreadArgsView) -> (
    LaunchPhase,
    LaunchActionView,
) {
    if args.has_deno_namespace {
        (LaunchPhase::AttachingStdio, LaunchActionView::AttachStdio)
    } else {
        spec_bootstrap(args)
    }
}

pub open spec fn spec_bootstrap(args: RunWorkerThreadArgsView) -> (LaunchPhase, LaunchActionView) {
    (
        LaunchPhase::Bootstrapping,
        LaunchActionView::Bootstrap(
            spec_bootstrap_script(args.name, args.has_deno_namespace, args.worker_id),
        ),
    )
}

/// Inline source is executed; without it the module is loaded.
pub open spec fn spec_evaluate(args: RunWorkerThreadArgsView) -> (LaunchPhase, LaunchActionView) {
    match args.maybe_source_code {
        Some(source) => (LaunchPhase::Evaluating, LaunchActionView::ExecuteSource(source)),
        None => (LaunchPhase::Evaluating, LaunchActionView::LoadModule(args.specifier)),
    }
}

/// The first thing the new thread does: with an import map, ask whether it
/// may be read; without one, build the execution context.
pub open spec fn spec_launch_begin(args: RunWorkerThreadArgsView) -> (
    LaunchPhase,
    LaunchActionView,
) {
    match args.import_map {
        Some(path) => (LaunchPhase::CheckingImportMap, LaunchActionView::CheckReadPermission(path)),
        None => (LaunchPhase::Constructing, LaunchActionView::Construct),
    }
}

/// What follows the work of `phase` when it ended with `outcome`.
///
/// A failure before the handshake is sent to the creator in place of the
/// handle. A failure after it is posted as a terminal error. Either way the
/// thread returns.
pub open spec fn spec_launch_step(
    args: RunWorkerThreadArgsView,
    phase: LaunchPhase,
    outcome: StepOutcomeView,
) -> (LaunchPhase, LaunchActionView) {
    match (phase, outcome) {
        (LaunchPhase::Exited, _) => (LaunchPhase::Exited, LaunchActionView::Exit),
        (LaunchPhase::Handshaking, StepOutcomeView::Failed(_)) => (
            LaunchPhase::Exited,
            LaunchActionView::Exit,
        ),
        (LaunchPhase::Evaluating, StepOutcomeView::Failed(error)) => (
            LaunchPhase::Exited,
            LaunchActionView::PostTerminalError(error),
        ),
        (LaunchPhase::Running, StepOutcomeView::Failed(error)) => (
            LaunchPhase::Exited,
            LaunchActionView::PostTerminalError(error),
        ),
        (_, StepOutcomeView::Failed(error)) => (
            LaunchPhase::Exited,
            LaunchActionView::SendCreationError(error),
        ),
        (LaunchPhase::CheckingImportMap, StepOutcomeView::Done) => match args.import_map {
            Some(path) => (LaunchPhase::LoadingImportMap, LaunchActionView::LoadImportMap(path)),
            None => (LaunchPhase::Constructing, LaunchActionView::Construct),
        },
        (LaunchPhase::LoadingImportMap, StepOutcomeView::Done) => (
            LaunchPhase::Constructing,
            LaunchActionView::Construct,
        ),
        (LaunchPhase::Constructing, StepOutcomeView::Done) => spec_after_construct(args),
        (LaunchPhase::AttachingStdio, StepOutcomeView::Done) => spec_bootstrap(args),
        (LaunchPhase::Bootstrapping, StepOutcomeView::Done) => (
            LaunchPhase::Handshaking,
            LaunchActionView::SendHandle,
        ),
        (LaunchPhase::Handshaking, StepOutcomeView::Done) => spec_evaluate(args),
        (LaunchPhase::Evaluating, StepOutcomeView::Done) => (
            LaunchPhase::Running,
            LaunchActionView::RunEventLoop,
        ),
        (LaunchPhase::Running, StepOutcomeView::Done) => (
            LaunchPhase::Exited,
            LaunchActionView::Exit,
        ),
    }
}

/// How far a phase lies along a launch.
pub open spec fn spec_phase_rank(phase: LaunchPhase) -> nat {
    match phase {
        LaunchPhase::CheckingImportMap => 0,
        LaunchPhase::LoadingImportMap => 1,
        LaunchPhase::Constructing => 2,
        LaunchPhase::AttachingStdio => 3,
        LaunchPhase::Bootstrapping => 4,
        LaunchPhase::Handshaking => 5,
        LaunchPhase::Evaluating => 6,
        LaunchPhase::Running => 7,
        LaunchPhase::Exited => 8,
    }
}

/// The actions that a thread is told, one for each outcome that it reports,
/// from `phase` on.
pub open spec fn spec_launch_trace(
    args: RunWorkerThreadArgsView,
    phase: LaunchPhase,
    outcomes: Seq<StepOutcomeView>,
) -> Seq<LaunchActionView>
    decreases outcomes.len(),
{
    if outcomes.len() == 0 {
        Seq::empty()
    } else {
        let next = spec_launch_step(args, phase, outcomes[0]);
        seq![next.1] + spec_launch_trace(args, next.0, outcomes.drop_first())
    }
}

/// All the actions of a launch: the first one, and one for each outcome.
pub open spec fn spec_launch_run(args: RunWorkerThreadArgsView, outcomes: Seq<StepOutcomeView>)
    -> Seq<LaunchActionView> {
    let first = spec_launch_begin(args);
    seq![first.1] + spec_launch_trace(args, first.0, outcomes)
}

/// Whether an action answers the creator through the handshake channel.
pub open spec fn spec_is_handshake(action: LaunchActionView) -> bool {
    action is SendHandle || action is SendCreationError
}

/// How many actions of a trace answer the creator.
pub open spec fn spec_handshakes(trace: Seq<LaunchActionView>) -> nat
    decreases trace.len(),
{
    if trace.len() == 0 {
        0
    } else {
        (if spec_is_handshake(trace[0]) {
            1nat
        } else {
            0nat
        }) + spec_handshakes(trace.drop_first())
    }
}

/// How many actions of a trace post a terminal error.
pub open spec fn spec_terminal_errors(trace: Seq<LaunchActionView>) -> nat
    decreases trace.len(),
{
    if trace.len() == 0 {
        0
    } else {
        (if trace[0] is PostTerminalError {
            1nat
        } else {
            0nat
        }) + spec_terminal_errors(trace.drop_first())
    }
}

/// A launch only moves forward: each step enters a later phase, until the
/// thread has exited; from then on it is only told to return.
pub proof fn law_launch_moves_forward(
    args: RunWorkerThreadArgsView,
    phase: LaunchPhase,
    outcome: StepOutcomeView,
)
    ensures
        phase != LaunchPhase::Exited ==> spec_phase_rank(spec_launch_step(args, phase, outcome).0)
            > spec_phase_rank(phase),
        phase == LaunchPhase::Exited ==> spec_launch_step(args, phase, outcome) == (
            LaunchPhase::Exited,
            LaunchActionView::Exit,
        ),
{
}

/// Each action tells where the launch stood. The handle is sent only after
/// the bootstrap succeeded. A creation error is sent only for a failure
/// before the handle was sent, a terminal error is posted only for a failure
/// after it, each with the error that was reported, and after either the
/// thread has exited. The event loop is entered only after the evaluation
/// succeeded.
pub proof fn law_launch_actions(
    args: RunWorkerThreadArgsView,
    phase: LaunchPhase,
    outcome: StepOutcomeView,
)
    ensures
        ({
            let next = spec_launch_step(args, phase, outcome);
            &&& next.1 is SendHandle <==> phase == LaunchPhase::Bootstrapping && outcome is Done
            &&& next.1 is SendHandle ==> next.0 == LaunchPhase::Handshaking
            &&& next.1 is SendCreationError <==> spec_phase_rank(phase) < spec_phase_rank(
                LaunchPhase::Handshaking,
            ) && outcome is Failed
            &&& next.1 is PostTerminalError <==> (phase == LaunchPhase::Evaluating || phase
                == LaunchPhase::Running) && outcome is Failed
            &&& next.1 matches LaunchActionView::SendCreationError(error) ==> outcome
                == StepOutcomeView::Failed(error) && next.0 == LaunchPhase::Exited
            &&& next.1 matches LaunchActionView::PostTerminalError(error) ==> outcome
                == StepOutcomeView::Failed(error) && next.0 == LaunchPhase::Exited
            &&& next.1 is RunEventLoop <==> phase == LaunchPhase::Evaluating && outcome is Done
        }),
{
}

/// From `phase` on, the creator is answered at most once, and not at all
/// once the handshake is due or past; a terminal error is posted at most
/// once, and not at all once the thread has exited.
proof fn lemma_trace_counts(
    args: RunWorkerThreadArgsView,
    phase: LaunchPhase,
    outcomes: Seq<StepOutcomeView>,
)
    ensures
        spec_launch_trace(args, phase, outcomes).len() == outcomes.len(),
        spec_handshakes(spec_launch_trace(args, phase, outcomes)) <= (if spec_phase_rank(phase)
            < spec_phase_rank(LaunchPhase::Handshaking) {
            1nat
        } else {
            0nat
        }),
        spec_terminal_errors(spec_launch_trace(args, phase, outcomes)) <= (if phase
            == LaunchPhase::Exited {
            0nat
        } else {
            1nat
        }),
    decreases outcomes.len(),
{
    if outcomes.len() > 0 {
        let next = spec_launch_step(args, phase, outcomes[0]);
        let rest = spec_launch_trace(args, next.0, outcomes.drop_first());
        let trace = spec_launch_trace(args, phase, outcomes);
        lemma_trace_counts(args, next.0, outcomes.drop_first());
        assert(trace.drop_first() =~= rest);
    }
}

/// In a whole launch the creator is answered at most once, with the handle
/// or with a creation error, and at most one terminal error is posted.
pub proof fn law_launch_answers_once(
    args: RunWorkerThreadArgsView,
    outcomes: Seq<StepOutcomeView>,
)
    ensures
        spec_handshakes(spec_launch_run(args, outcomes)) <= 1,
        spec_terminal_errors(spec_launch_run(args, outcomes)) <= 1,
{
    let first = spec_launch_begin(args);
    let rest = spec_launch_trace(args, first.0, outcomes);
    let run = spec_launch_run(args, outcomes);
    lemma_trace_counts(args, first.0, outcomes);
    assert(run.drop_first() =~= rest);
}

/// A worker whose source or module fails to evaluate posts that failure as
/// its one terminal error and returns: whatever is reported afterwards, the
/// thread is only told to return, so the event loop is never entered.
pub proof fn law_failed_evaluation_is_terminal(
    args: RunWorkerThreadArgsView,
    error: WorkerErrorView,
    later: Seq<StepOutcomeView>,
)
    ensures
        spec_launch_trace(
            args,
            LaunchPhase::Evaluating,
            seq![StepOutcomeView::Failed(error)] + later,
        ) == seq![LaunchActionView::PostTerminalError(error)] + Seq::new(
            later.len(),
            |i: int| LaunchActionView::Exit,
        ),
{
    let outcomes = seq![StepOutcomeView::Failed(error)] + later;
    assert(outcomes.drop_first() =~= later);
    lemma_exited_trace(args, later);
}

/// Once the thread has exited it is only told to return.
proof fn lemma_exited_trace(args: RunWorkerThreadArgsView, outcomes: Seq<StepOutcomeView>)
    ensures
        spec_launch_trace(args, LaunchPhase::Exited, outcomes) == Seq::new(
            outcomes.len(),
            |i: int| LaunchActionView::Exit,
        ),
    decreases outcomes.len(),
{
    if outcomes.len() > 0 {
        lemma_exited_trace(args, outcomes.drop_first());
    }
}

/// Writes the name of the thread of worker `id`.
pub fn thread_name(id: u32) -> (name: String)
    ensures
        name@ == spec_thread_name(id),
{
    let mut name = String::from_str("deno-worker-");
    let id_text = decimal(id);
    name.append(id_text.as_str());
    name
}

/// Writes the bootstrap script of a worker. The declared name is written as
/// it is.
pub fn bootstrap_script(name: &str, has_deno_namespace: bool, id: u32) -> (script: String)
    ensures
        script@ == spec_bootstrap_script(name@, has_deno_namespace, id),
{
    let mut script = String::from_str("bootstrap.workerRuntime(\"");
    script.append(name);
    script.append("\", ");
    script.append(bool_text(has_deno_namespace));
    script.append(", \"worker-");
    let id_text = decimal(id);
    script.append(id_text.as_str());
    script.append("\")");
    script
}

/// One of the standard streams that a privileged worker is given.
#[derive(Clone, Copy, Debug, PartialEq, Eq, Structural)]
pub enum StdStream {
    Stdin,
    Stdout,
    Stderr,
}

/// The name under which a stream enters the worker's resources.
pub open spec fn spec_resource_name(stream: StdStream) -> Seq<char> {
    match stream {
        StdStream::Stdin => "stdin"@,
        StdStream::Stdout => "stdout"@,
        StdStream::Stderr => "stderr"@,
    }
}

/// The streams to attach, given which of them the process has: input, then
/// output, then error, each only if it is there.
pub open spec fn spec_stdio_resources(stdin: bool, stdout: bool, stderr: bool) -> Seq<StdStream> {
    (if stdin {
        seq![StdStream::Stdin]
    } else {
        Seq::empty()
    }) + (if stdout {
        seq![StdStream::Stdout]
    } else {
        Seq::empty()
    }) + (if stderr {
        seq![StdStream::Stderr]
    } else {
        Seq::empty()
    })
}

impl StdStream {
    /// The name under which the stream enters the worker's resources.
    pub fn resource_name(self) -> (name: &'static str)
        ensures
            name@ == spec_resource_name(self),
    {
        match self {
            StdStream::Stdin => "stdin",
            StdStream::Stdout => "stdout",
            StdStream::Stderr => "stderr",
        }
    }
}

/// Lists the streams to attach when the launch says `AttachStdio`, given
/// which of them the process has.
pub fn stdio_resources(stdin: bool, stdout: bool, stderr: bool) -> (streams: Vec<StdStream>)
    ensures
        streams@ == spec_stdio_resources(stdin, stdout, stderr),
{
    let mut streams: Vec<StdStream> = Vec::new();
    if stdin {
        streams.push(StdStream::Stdin);
    }
    if stdout {
        streams.push(StdStream::Stdout);
    }
    if stderr {
        streams.push(StdStream::Stderr);
    }
    streams
}

fn bootstrap(args: &RunWorkerThreadArgs) -> (next: (LaunchPhase, LaunchAction))
    ensures
        (next.0, next.1@) == spec_bootstrap(args@),
{
    let script = bootstrap_script(args.name.as_str(), args.has_deno_namespace, args.worker_id);
    (LaunchPhase::Bootstrapping, LaunchAction::Bootstrap(script))
}

fn evaluate(args: &RunWorkerThreadArgs) -> (next: (LaunchPhase, LaunchAction))
    ensures
        (next.0, next.1@) == spec_evaluate(args@),
{
    match &args.maybe_source_code {
        Some(source) => (LaunchPhase::Evaluating, LaunchAction::ExecuteSource(source.clone())),
        None => (LaunchPhase::Evaluating, LaunchAction::LoadModule(args.specifier.clone())),
    }
}

/// Tells the new thread what to do first.
pub fn launch_begin(args: &RunWorkerThreadArgs) -> (next: (LaunchPhase, LaunchAction))
    ensures
        (next.0, next.1@) == spec_launch_begin(args@),
{
    match &args.import_map {
        Some(path) => (LaunchPhase::CheckingImportMap, LaunchAction::CheckReadPermission(
            path.clone(),
        )),
        None => (LaunchPhase::Constructing, LaunchAction::Construct),
    }
}

/// Tells the thread what to do after the work of `phase` ended with `outcome`:
/// the phase it enters and the work of that phase.
pub fn launch_step(args: &RunWorkerThreadArgs, phase: LaunchPhase, outcome: StepOutcome) -> (next: (
    LaunchPhase,
    LaunchAction,
))
    ensures
        (next.0, next.1@) == spec_launch_step(args@, phase, outcome@),
{
    match phase {
        LaunchPhase::Exited => (LaunchPhase::Exited, LaunchAction::Exit),
        LaunchPhase::Handshaking => match outcome {
            StepOutcome::Failed(_) => (LaunchPhase::Exited, LaunchAction::Exit),
            StepOutcome::Done => evaluate(args),
        },
        LaunchPhase::Evaluating => match outcome {
            StepOutcome::Failed(error) => (
                LaunchPhase::Exited,
                LaunchAction::PostTerminalError(error),
            ),
            StepOutcome::Done => (LaunchPhase::Running, LaunchAction::RunEventLoop),
        },
        LaunchPhase::Running => match outcome {
            StepOutcome::Failed(error) => (
                LaunchPhase::Exited,
                LaunchAction::PostTerminalError(error),
            ),
            StepOutcome::Done => (LaunchPhase::Exited, LaunchAction::Exit),
        },
        _ => match outcome {
            StepOutcome::Failed(error) => (
                LaunchPhase::Exited,
                LaunchAction::SendCreationError(error),
            ),
            StepOutcome::Done => match phase {
                LaunchPhase::CheckingImportMap => match &args.import_map {
                    Some(path) => (LaunchPhase::LoadingImportMap, LaunchAction::LoadImportMap(
                        path.clone(),
                    )),
                    None => (LaunchPhase::Constructing, LaunchAction::Construct),
                },
                LaunchPhase::LoadingImportMap => (
                    LaunchPhase::Constructing,
                    LaunchAction::Construct,
                ),
                LaunchPhase::Constructing => if args.has_deno_namespace {
                    (LaunchPhase::AttachingStdio, LaunchAction::AttachStdio)
                } else {
                    bootstrap(args)
                },
                LaunchPhase::AttachingStdio => bootstrap(args),
                _ => (LaunchPhase::Handshaking, LaunchAction::SendHandle),
            },
        },
    }
}

} // verus!
