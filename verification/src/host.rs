//! The host's operations on its workers: what each one decides, given the
//! table and what the outside work reported.
//!
//! Creating a worker, polling it, posting to it and terminating it each do
//! outside work (a thread, a channel, a join). The functions here make the
//! decisions around that work: whether an identifier is taken, what is
//! launched, when an entry leaves the table, and what the caller is told.

use vstd::prelude::*;
use vstd::string::*;
use crate::event::{
    opt_text, polled_view, serialize_poll, spec_error_text, spec_serialize_poll, SerializedEvent,
    WorkerError, WorkerErrorView, WorkerEvent, WorkerEventView,
};
use crate::launcher::{RunWorkerThreadArgs, RunWorkerThreadArgsView};
use crate::table::{
    law_ids_are_never_reused, law_reclaim_happens_once, HostTable, HostTableView, TableStep,
    WorkerId,
};

verus! {

/// An operation that the host offers to its callers.
#[derive(Clone, Copy, Debug, PartialEq, Eq, Structural)]
pub enum HostOp {
    CreateWorker,
    TerminateWorker,
    PostMessage,
    GetMessage,
}

/// The name under which an operation is registered.
pub open spec fn spec_op_name(op: HostOp) -> Seq<char> {
    match op {
        HostOp::CreateWorker => "op_create_worker"@,
        HostOp::TerminateWorker => "op_host_terminate_worker"@,
        HostOp::PostMessage => "op_host_post_message"@,
        HostOp::GetMessage => "op_host_get_message"@,
    }
}

impl HostOp {
    /// The name under which the operation is registered.
    pub fn name(self) -> (name: &'static str)
        ensures
            name@ == spec_op_name(self),
    {
        match self {
            HostOp::CreateWorker => "op_create_worker",
            HostOp::TerminateWorker => "op_host_terminate_worker",
            HostOp::PostMessage => "op_host_post_message",
            HostOp::GetMessage => "op_host_get_message",
        }
    }

    /// Whether the operation suspends: only polling for a message waits for
    /// the worker; the others answer at once.
    pub fn is_async(self) -> (suspends: bool)
        ensures
            suspends == (self == HostOp::GetMessage),
    {
        match self {
            HostOp::GetMessage => true,
            _ => false,
        }
    }
}

/// The host's operations, in the order in which they are registered.
pub fn host_ops() -> (ops: Vec<HostOp>)
    ensures
        ops@ == seq![
            HostOp::CreateWorker,
            HostOp::TerminateWorker,
            HostOp::PostMessage,
            HostOp::GetMessage,
        ],
{
    let mut ops: Vec<HostOp> = Vec::new();
    ops.push(HostOp::CreateWorker);
    ops.push(HostOp::TerminateWorker);
    ops.push(HostOp::PostMessage);
    ops.push(HostOp::GetMessage);
    ops
}

/// What a caller asks for when it creates a worker.
#[derive(Clone, Debug, PartialEq, Eq)]
pub struct CreateWorkerArgs {
    pub name: Option<String>,
    pub specifier: String,
    pub has_source_code: bool,
    pub source_code: String,
    pub use_deno_namespace: bool,
    pub import_map: Option<String>,
}

pub struct CreateWorkerArgsView {
    pub name: Option<Seq<char>>,
    pub specifier: Seq<char>,
    pub has_source_code: bool,
    pub source_code: Seq<char>,
    pub use_deno_namespace: bool,
    pub import_map: Option<Seq<char>>,
}

impl View for CreateWorkerArgs {
    type V = CreateWorkerArgsView;

    open spec fn view(&self) -> CreateWorkerArgsView {
        CreateWorkerArgsView {
            name: opt_text(self.name),
            specifier: self.specifier@,
            has_source_code: self.has_source_code,
            source_code: self.source_code@,
            use_deno_namespace: self.use_deno_namespace,
            import_map: opt_text(self.import_map),
        }
    }
}

/// Why no worker was created.
#[derive(Clone, Debug, PartialEq, Eq)]
pub enum CreateError {
    /// The privileged namespace was asked for without the caller having
    /// opted in to unstable features.
    UnstableRequired,
    /// The session has handed out all its identifiers.
    IdsExhausted,
    /// The specifier is no absolute URL; the text says why.
    InvalidSpecifier(String),
    /// The worker's execution context could not be built; the text is that
    /// of the error.
    Launch(String),
    /// The identifier already names a live worker.
    Occupied,
}

pub enum CreateErrorView {
    UnstableRequired,
    IdsExhausted,
    InvalidSpecifier(Seq<char>),
    Launch(Seq<char>),
    Occupied,
}

impl View for CreateError {
    type V = CreateErrorView;

    open spec fn view(&self) -> CreateErrorView {
        match self {
            CreateError::UnstableRequired => CreateErrorView::UnstableRequired,
            CreateError::IdsExhausted => CreateErrorView::IdsExhausted,
            CreateError::InvalidSpecifier(text) => CreateErrorView::InvalidSpecifier(text@),
            CreateError::Launch(text) => CreateErrorView::Launch(text@),
            CreateError::Occupied => CreateErrorView::Occupied,
        }
    }
}

/// What a caller is told when no worker was created. The text of a failed
/// resolution or launch is passed on as it is.
pub open spec fn spec_create_error_text(error: CreateErrorView) -> Seq<char> {
    match error {
        CreateErrorView::UnstableRequired =>
            "Unstable API 'Worker.deno'. The --unstable flag must be provided."@,
        CreateErrorView::IdsExhausted => "No worker identifier is left in this session."@,
        CreateErrorView::InvalidSpecifier(why) => why,
        CreateErrorView::Launch(why) => why,
        CreateErrorView::Occupied => "The worker identifier already names a live worker."@,
    }
}

impl CreateError {
    /// The text of the error.
    pub fn text(&self) -> (text: String)
        ensures
            text@ == spec_create_error_text(self@),
    {
        match self {
            CreateError::UnstableRequired => String::from_str(
                "Unstable API 'Worker.deno'. The --unstable flag must be provided.",
            ),
            CreateError::IdsExhausted => String::from_str(
                "No worker identifier is left in this session.",
            ),
            CreateError::InvalidSpecifier(why) => why.clone(),
            CreateError::Launch(why) => why.clone(),
            CreateError::Occupied => String::from_str(
                "The worker identifier already names a live worker.",
            ),
        }
    }
}

/// What is done to a worker's handle before its thread is joined.
#[derive(Clone, Copy, Debug, PartialEq, Eq, Structural)]
pub enum ReclaimSignal {
    /// Signal the worker's runtime to stop: a termination on request.
    Terminate,
    /// Close the sending side of the handle: the worker has ended by itself.
    CloseChannel,
}

/// An entry that left the table. Whoever holds it signals the handle as told
/// and joins the thread; nobody else can, since the table no longer has it.
#[derive(Debug, PartialEq, Eq)]
pub struct Reclaim<E> {
    pub entry: E,
    pub signal: ReclaimSignal,
}

/// The name under which the privileged namespace counts as an unstable
/// feature.
pub fn privileged_namespace_feature() -> (name: &'static str)
    ensures
        name@ == "Worker.deno"@,
{
    "Worker.deno"
}

/// Whether creation may go on: the privileged namespace needs the opt-in.
pub open spec fn spec_create_allowed(use_deno_namespace: bool, unstable: bool) -> bool {
    use_deno_namespace ==> unstable
}

/// The table after a creation began.
pub open spec fn spec_begin_create<E>(
    table: HostTableView<E>,
    use_deno_namespace: bool,
    unstable: bool,
) -> HostTableView<E> {
    if spec_create_allowed(use_deno_namespace, unstable) {
        table.allocate()
    } else {
        table
    }
}

/// What the caller of a beginning creation is told.
pub open spec fn spec_begin_create_result<E>(
    table: HostTableView<E>,
    use_deno_namespace: bool,
    unstable: bool,
) -> Result<WorkerId, CreateErrorView> {
    if !spec_create_allowed(use_deno_namespace, unstable) {
        Err(CreateErrorView::UnstableRequired)
    } else if !table.can_allocate() {
        Err(CreateErrorView::IdsExhausted)
    } else {
        Ok(table.next_id)
    }
}

/// What worker `id` is launched with: the source only if the caller says it
/// gave one, the empty name where it gave none, and the specifier as it was
/// resolved. An unresolved specifier stops the creation.
pub open spec fn spec_launch_args(
    id: WorkerId,
    args: CreateWorkerArgsView,
    resolved: Result<Seq<char>, Seq<char>>,
) -> Result<RunWorkerThreadArgsView, CreateErrorView> {
    match resolved {
        Err(why) => Err(CreateErrorView::InvalidSpecifier(why)),
        Ok(specifier) => Ok(
            RunWorkerThreadArgsView {
                worker_id: id,
                name: match args.name {
                    Some(name) => name,
                    None => Seq::empty(),
                },
                specifier,
                has_deno_namespace: args.use_deno_namespace,
                maybe_source_code: if args.has_source_code {
                    Some(args.source_code)
                } else {
                    None
                },
                import_map: args.import_map,
            },
        ),
    }
}

/// How a specifier resolved, as a mathematical value.
pub open spec fn result_text_view(r: Result<String, String>) -> Result<Seq<char>, Seq<char>> {
    match r {
        Ok(text) => Ok(text@),
        Err(text) => Err(text@),
    }
}

/// What a creation hands to the launch, as a mathematical value.
pub open spec fn launch_args_view(r: Result<RunWorkerThreadArgs, CreateError>) -> Result<
    RunWorkerThreadArgsView,
    CreateErrorView,
> {
    match r {
        Ok(args) => Ok(args@),
        Err(error) => Err(error@),
    }
}

/// What the caller of a creation is told, as a mathematical value.
pub open spec fn create_result_view(r: Result<WorkerId, CreateError>) -> Result<
    WorkerId,
    CreateErrorView,
> {
    match r {
        Ok(id) => Ok(id),
        Err(error) => Err(error@),
    }
}

/// What resolving a specifier yields: `Ok` with the absolute URL in its
/// serialized form, or `Err` with the reason why the text is none.
pub uninterp spec fn spec_parse_url(specifier: Seq<char>) -> Result<Seq<char>, Seq<char>>;

/// Resolves a specifier with `url::Url::parse`. The contract claims only that
/// the answer is a function of the text: `Ok` carries the serialization of
/// the URL that was parsed, `Err` the parser's message.
#[verifier::external_body]
fn parse_url(specifier: &str) -> (resolved: Result<String, String>)
    ensures
        result_text_view(resolved) == spec_parse_url(specifier@),
{
    match url::Url::parse(specifier) {
        Ok(url) => Ok(String::from(url)),
        Err(error) => Err(error.to_string()),
    }
}

/// What a creation hands to the launch, given how the specifier resolves:
/// nothing if the creation may not begin, else what worker `next_id` is
/// launched with.
pub open spec fn spec_plan_worker<E>(
    table: HostTableView<E>,
    args: CreateWorkerArgsView,
    unstable: bool,
    resolved: Result<Seq<char>, Seq<char>>,
) -> Result<RunWorkerThreadArgsView, CreateErrorView> {
    match spec_begin_create_result(table, args.use_deno_namespace, unstable) {
        Err(error) => Err(error),
        Ok(id) => spec_launch_args(id, args, resolved),
    }
}

/// Builds what worker `id` is launched with from what the caller asked for
/// and from how its specifier resolved (`Ok` with the URL, `Err` with the
/// reason).
pub fn launch_args(id: WorkerId, args: CreateWorkerArgs, resolved: Result<String, String>) -> (out:
    Result<RunWorkerThreadArgs, CreateError>)
    ensures
        launch_args_view(out) == spec_launch_args(id, args@, result_text_view(resolved)),
{
    match resolved {
        Err(why) => Err(CreateError::InvalidSpecifier(why)),
        Ok(specifier) => {
            let name = match args.name {
                Some(name) => name,
                None => String::new(),
            };
            let maybe_source_code = if args.has_source_code {
                Some(args.source_code)
            } else {
                None
            };
            Ok(
                RunWorkerThreadArgs {
                    worker_id: id,
                    name,
                    specifier,
                    has_deno_namespace: args.use_deno_namespace,
                    maybe_source_code,
                    import_map: args.import_map,
                },
            )
        },
    }
}

/// Whether what was polled ends the worker: a terminal error, or the closure
/// of the channel with nothing pending.
pub open spec fn spec_ends_worker(polled: Option<WorkerEventView>) -> bool {
    match polled {
        None => true,
        Some(event) => event is TerminalError,
    }
}

/// The entry of `id` as it leaves the table, with the signal for its handle.
pub open spec fn spec_reclaim<E>(table: HostTableView<E>, id: WorkerId, signal: ReclaimSignal)
    -> Option<Reclaim<E>> {
    match table.get(id) {
        Some(entry) => Some(Reclaim { entry, signal }),
        None => None,
    }
}

/// The identifier that a caller's number stands for: the number itself, or,
/// for a negative one, the number counted down from one past the largest
/// identifier.
pub open spec fn spec_worker_id(raw: i32) -> int {
    if raw >= 0 {
        raw as int
    } else {
        raw + 0x1_0000_0000
    }
}

/// Reads a caller's number as an identifier.
pub fn worker_id(raw: i32) -> (id: WorkerId)
    ensures
        id == spec_worker_id(raw),
{
    if raw >= 0 {
        raw as u32
    } else {
        let below: u32 = (-(raw + 1)) as u32;
        u32::MAX - below
    }
}

/// The one payload of a post, where the caller passed exactly one buffer.
pub fn single_payload(mut data: Vec<Vec<u8>>) -> (payload: Option<Vec<u8>>)
    ensures
        payload == (if data.len() == 1 {
            Some(data[0])
        } else {
            None
        }),
{
    if data.len() == 1 {
        data.pop()
    } else {
        None
    }
}

impl<E> HostTable<E> {
    /// Begins the creation of a worker: takes an identifier for it.
    ///
    /// A worker with the privileged namespace is refused unless the caller
    /// opted in to unstable features. A refusal takes no identifier and
    /// leaves the table as it was, so nothing is launched for it.
    pub fn begin_create(&mut self, use_deno_namespace: bool, unstable: bool) -> (out: Result<
        WorkerId,
        CreateError,
    >)
        requires
            old(self)@.wf(),
        ensures
            final(self)@.wf(),
            final(self)@ == spec_begin_create(old(self)@, use_deno_namespace, unstable),
            create_result_view(out) == spec_begin_create_result(
                old(self)@,
                use_deno_namespace,
                unstable,
            ),
            use_deno_namespace && !unstable ==> out == Err::<WorkerId, CreateError>(
                CreateError::UnstableRequired,
            ),
            out is Err ==> final(self)@ == old(self)@,
            out matches Ok(id) ==> !old(self)@.is_live(id) && !final(self)@.is_live(id),
    {
        if use_deno_namespace && !unstable {
            return Err(CreateError::UnstableRequired);
        }
        match self.allocate_id() {
            Some(id) => Ok(id),
            None => Err(CreateError::IdsExhausted),
        }
    }

    /// Plans the creation of a worker: takes an identifier for it, resolves
    /// its specifier and says what to launch.
    ///
    /// A privileged worker without the opt-in is refused before anything is
    /// taken. A specifier that does not resolve stops the creation after the
    /// identifier was taken: that identifier stays unused.
    pub fn plan_worker(&mut self, args: CreateWorkerArgs, unstable: bool) -> (out: Result<
        RunWorkerThreadArgs,
        CreateError,
    >)
        requires
            old(self)@.wf(),
        ensures
            final(self)@.wf(),
            final(self)@ == spec_begin_create(old(self)@, args.use_deno_namespace, unstable),
            launch_args_view(out) == spec_plan_worker(
                old(self)@,
                args@,
                unstable,
                spec_parse_url(args.specifier@),
            ),
            out matches Ok(launch) ==> launch.worker_id == old(self)@.next_id && !old(
                self,
            )@.is_live(launch.worker_id) && !final(self)@.is_live(launch.worker_id),
            args.use_deno_namespace && !unstable ==> out == Err::<
                RunWorkerThreadArgs,
                CreateError,
            >(CreateError::UnstableRequired) && final(self)@ == old(self)@,
    {
        match self.begin_create(args.use_deno_namespace, unstable) {
            Err(error) => Err(error),
            Ok(id) => {
                let resolved = parse_url(args.specifier.as_str());
                launch_args(id, args, resolved)
            },
        }
    }

    /// Ends the creation of worker `id` with what the launch produced.
    ///
    /// An entry is stored under `id` and the identifier returned. A launch
    /// that failed stores nothing: the caller is told the error's text and no
    /// worker is ever observable under `id`. The second component hands back
    /// an entry that the table did not take because `id` names a live worker.
    pub fn finish_create(&mut self, id: WorkerId, launched: Result<E, WorkerError>) -> (out: (
        Result<WorkerId, CreateError>,
        Option<E>,
    ))
        requires
            old(self)@.wf(),
        ensures
            final(self)@.wf(),
            match launched {
                Ok(entry) => {
                    &&& final(self)@ == old(self)@.insert(id, entry)
                    &&& !old(self)@.is_live(id) ==> out.0 == Ok::<WorkerId, CreateError>(id)
                        && out.1 is None && final(self)@.get(id) == Some(entry)
                    &&& old(self)@.is_live(id) ==> out.0 == Err::<WorkerId, CreateError>(
                        CreateError::Occupied,
                    ) && out.1 == Some(entry)
                },
                Err(error) => {
                    &&& final(self)@ == old(self)@
                    &&& create_result_view(out.0) == Err::<WorkerId, CreateErrorView>(
                        CreateErrorView::Launch(spec_error_text(error@)),
                    )
                    &&& out.1 is None
                },
            },
    {
        match launched {
            Err(error) => (Err(CreateError::Launch(error.text())), None),
            Ok(entry) => match self.insert(id, entry) {
                Ok(()) => (Ok(id), None),
                Err(occupied) => (Err(CreateError::Occupied), Some(occupied.entry)),
            },
        }
    }

    /// Takes worker `id` out of the table on request. The entry comes with
    /// the signal to terminate. `None` if `id` names no live worker.
    pub fn terminate_worker(&mut self, id: WorkerId) -> (out: Option<Reclaim<E>>)
        requires
            old(self)@.wf(),
        ensures
            final(self)@.wf(),
            final(self)@ == old(self)@.remove(id),
            out == spec_reclaim(old(self)@, id, ReclaimSignal::Terminate),
    {
        match self.remove(id) {
            Some(entry) => Some(Reclaim { entry, signal: ReclaimSignal::Terminate }),
            None => None,
        }
    }

    /// Takes in what polling worker `id` yielded, and tells the caller what
    /// to report.
    ///
    /// A terminal error, or the closure of the channel, ends the worker: its
    /// entry leaves the table, with the signal to close the channel. If a
    /// termination took the entry before, nothing is left to reclaim, and
    /// nothing is done. Any other event leaves the table as it was.
    pub fn receive(&mut self, id: WorkerId, polled: Option<WorkerEvent>) -> (out: (
        SerializedEvent,
        Option<Reclaim<E>>,
    ))
        requires
            old(self)@.wf(),
        ensures
            final(self)@.wf(),
            out.0@ == spec_serialize_poll(polled_view(polled)),
            spec_ends_worker(polled_view(polled)) ==> {
                &&& final(self)@ == old(self)@.remove(id)
                &&& out.1 == spec_reclaim(old(self)@, id, ReclaimSignal::CloseChannel)
            },
            !spec_ends_worker(polled_view(polled)) ==> {
                &&& final(self)@ == old(self)@
                &&& out.1 is None
            },
    {
        let ends = match &polled {
            None => true,
            Some(event) => event.is_terminal(),
        };
        let reclaim = if ends {
            match self.remove(id) {
                Some(entry) => Some(Reclaim { entry, signal: ReclaimSignal::CloseChannel }),
                None => None,
            }
        } else {
            None
        };
        (serialize_poll(polled), reclaim)
    }
}

/// A worker whose terminal error was observed is gone for good. Its entry
/// leaves the table with that poll; from then on, whatever the session goes
/// on to do, a lookup of its identifier finds nothing, so nothing can be
/// polled from it or posted to it, and no new worker is given its identifier.
pub proof fn law_terminal_error_retires_worker<E>(
    table: HostTableView<E>,
    id: WorkerId,
    error: WorkerErrorView,
    steps: Seq<TableStep<E>>,
)
    requires
        table.wf(),
        table.is_live(id),
    ensures
        spec_ends_worker(Some(WorkerEventView::TerminalError(error))),
        spec_reclaim(table, id, ReclaimSignal::CloseChannel) is Some,
        table.remove(id).run(steps).get(id) is None,
        table.remove(id).run(steps).can_allocate() ==> table.remove(id).run(steps).next_id > id,
{
    law_ids_are_never_reused(table.remove(id), steps);
    assert(!table.remove(id).run(steps).is_live(id));
}

/// When a termination and the end of a worker race for its entry, one of
/// them reclaims it: whichever takes the entry first gets it, and the other
/// finds nothing and leaves the table as it is.
pub proof fn law_one_of_two_reclaims<E>(
    table: HostTableView<E>,
    id: WorkerId,
    first: ReclaimSignal,
    second: ReclaimSignal,
)
    requires
        table.wf(),
        table.is_live(id),
    ensures
        spec_reclaim(table, id, first) == Some(Reclaim { entry: table.entries[id], signal: first }),
        spec_reclaim(table.remove(id), id, second) is None,
        table.remove(id).remove(id) == table.remove(id),
{
    law_reclaim_happens_once(table, id);
}

} // verus!
