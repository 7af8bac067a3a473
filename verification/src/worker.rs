use vstd::prelude::*;

use crate::channel::ReceivePoll;
use crate::channel::WorkerChannels;
use crate::channel::pipe_close_receiver;
use crate::channel::pipe_close_sender;
use crate::channel::pipe_recv_open;
use crate::channel::pipe_send;
use crate::channel::pipe_send_open;
use crate::channel::pipe_flags_unchanged;
use crate::channel::pipe_try_receive;
use crate::errors::ChannelError;
use crate::errors::EngineError;
use crate::errors::LoadError;
use crate::loader::ModuleLoad;
use crate::specifier::ModuleSpecifier;
use crate::specifier::resolved_against;

verus! {

/// A capability module registered into the engine at construction: a bundle
/// of host-provided functions exposed to script code, identified by name.
#[derive(Clone, Copy, Debug, PartialEq, Eq, Structural)]
pub enum CapabilityKind {
    Compiler,
    Errors,
    Fetch,
    Files,
    Fs,
    Io,
    Plugins,
    Net,
    Tls,
    Os,
    Permissions,
    Process,
    Random,
    Repl,
    Resources,
    Timers,
    Workers,
}

/// The fixed, published order in which the capability modules are registered:
/// some modules depend on earlier ones having already registered a name.
pub open spec fn capability_order() -> Seq<CapabilityKind> {
    seq![
        CapabilityKind::Compiler,
        CapabilityKind::Errors,
        CapabilityKind::Fetch,
        CapabilityKind::Files,
        CapabilityKind::Fs,
        CapabilityKind::Io,
        CapabilityKind::Plugins,
        CapabilityKind::Net,
        CapabilityKind::Tls,
        CapabilityKind::Os,
        CapabilityKind::Permissions,
        CapabilityKind::Process,
        CapabilityKind::Random,
        CapabilityKind::Repl,
        CapabilityKind::Resources,
        CapabilityKind::Timers,
        CapabilityKind::Workers,
    ]
}

/// What the unit asks the engine collaborator to run next.  The engine is
/// external: the host performs the action and hands the outcome back.
#[derive(Debug)]
pub enum EngineAction {
    /// Run `source` synchronously, `label` naming it in diagnostics.
    RunScript { label: String, source: String },
    /// Evaluate the already-loaded module named by `specifier`.
    EvaluateModule { specifier: ModuleSpecifier },
}

/// How a script run or a module evaluation ended, the exception already
/// translated by the installed error-translation hook.
#[derive(Debug)]
pub enum ScriptOutcome {
    /// The source ran to completion.
    Completed,
    /// The engine reported a parse or runtime exception.
    Exception(String),
}

/// What one step of the engine's event loop reported.
#[derive(Debug)]
pub enum StepOutcome {
    /// Work remains: timers, callbacks or microtasks are still pending.
    Pending,
    /// The engine has no more pending work.
    Complete,
    /// The engine failed unrecoverably.
    Failed(String),
}

/// One poll of the unit as an asynchronous task.
#[derive(Debug)]
pub enum TaskPoll {
    /// The unit still has work pending.
    Pending,
    /// The unit is done: cleanly, or with its final error.
    Ready(Result<(), EngineError>),
}

/// Shared, read-mostly session state: configuration fixed at start and the
/// counters the collaborators bump.
#[derive(Debug)]
pub struct SessionState {
    /// The arguments the session was started with.
    pub argv: Vec<String>,
    /// The entry specifier of the session, if one was given.
    pub entry: Option<ModuleSpecifier>,
    /// How many module specifiers have been resolved.
    pub resolve_count: u64,
    /// How many times the compiler collaborator was started.
    pub compiler_starts: u64,
    /// Whether the progress tracker has been told loading is done.
    pub progress_done: bool,
}

impl SessionState {
    /// Fresh session state: counters at zero, progress not yet signalled.
    pub fn new(argv: Vec<String>, entry: Option<ModuleSpecifier>) -> (s: SessionState)
        ensures
            s.argv == argv,
            s.entry == entry,
            s.resolve_count == 0,
            s.compiler_starts == 0,
            !s.progress_done,
    {
        SessionState { argv, entry, resolve_count: 0, compiler_starts: 0, progress_done: false }
    }
}

/// The label under which source handed to [`Worker::execute`] is reported.
pub open spec fn anonymous_label() -> Seq<char> {
    "__anonymous__"@
}

/// The diagnostic a permanently failed unit answers every request with.
pub open spec fn failed_unit_diagnostic() -> Seq<char> {
    "engine permanently failed"@
}

/// An isolated script execution unit: exactly one engine instance (external,
/// driven through [`EngineAction`]s and their outcomes), a fixed capability
/// surface registered at construction, shared session state, and one
/// host-facing message channel pair.
pub struct Worker {
    /// Diagnostic name of the unit, immutable after construction.
    pub name: String,
    /// Engine-specific bootstrap data the engine instance was created from.
    pub startup_data: Option<Vec<u8>>,
    /// Shared session configuration and metrics.
    pub state: SessionState,
    /// The capability modules registered into the engine, in order.
    pub capabilities: Vec<CapabilityKind>,
    /// Whether the dynamic-import hook has been installed.
    pub dyn_import_hook_installed: bool,
    /// Whether the error-translation hook has been installed.
    pub error_hook_installed: bool,
    /// Whether the engine has failed permanently: every later request is
    /// rejected without re-entering the engine.
    pub failed: bool,
    /// Whether the engine has reported that no pending work remains.  Once
    /// set it never clears: completion is monotonic.
    pub completed: bool,
    /// The host-facing transport.
    pub channels: WorkerChannels,
}

/// Whether two unit states agree on everything but the channels.
pub open spec fn same_unit_core(a: Worker, b: Worker) -> bool {
    &&& a.name == b.name
    &&& a.startup_data == b.startup_data
    &&& a.state == b.state
    &&& a.capabilities == b.capabilities
    &&& a.dyn_import_hook_installed == b.dyn_import_hook_installed
    &&& a.error_hook_installed == b.error_hook_installed
    &&& a.failed == b.failed
    &&& a.completed == b.completed
}

/// Registers the capability modules, each exactly once, in the published
/// order.  Registration is total: there is no partially registered unit.
fn register_capabilities() -> (v: Vec<CapabilityKind>)
    ensures
        v@ == capability_order(),
{
    let mut v: Vec<CapabilityKind> = Vec::new();
    v.push(CapabilityKind::Compiler);
    v.push(CapabilityKind::Errors);
    v.push(CapabilityKind::Fetch);
    v.push(CapabilityKind::Files);
    v.push(CapabilityKind::Fs);
    v.push(CapabilityKind::Io);
    v.push(CapabilityKind::Plugins);
    v.push(CapabilityKind::Net);
    v.push(CapabilityKind::Tls);
    v.push(CapabilityKind::Os);
    v.push(CapabilityKind::Permissions);
    v.push(CapabilityKind::Process);
    v.push(CapabilityKind::Random);
    v.push(CapabilityKind::Repl);
    v.push(CapabilityKind::Resources);
    v.push(CapabilityKind::Timers);
    v.push(CapabilityKind::Workers);
    proof {
        assert(v@ =~= capability_order());
    }
    v
}

/// Law: capability registration is exactly-once — the published registration
/// order names no module twice, so registering along it registers every
/// module exactly once.
pub proof fn lemma_capabilities_registered_once()
    ensures
        capability_order().no_duplicates(),
{
    assert(capability_order().no_duplicates());
}

impl Worker {
    /// Messages waiting for the unit, oldest first.
    pub open spec fn inbox(self) -> Seq<Seq<u8>> {
        self.channels.inbox()
    }

    /// Messages waiting for the host, oldest first.
    pub open spec fn outbox(self) -> Seq<Seq<u8>> {
        self.channels.outbox()
    }

    /// Constructs a unit: one engine instance from `startup_data`, every
    /// capability module registered in the published order, both hooks
    /// installed, and `external_channels` as the host-facing transport.
    pub fn new(
        name: String,
        startup_data: Option<Vec<u8>>,
        state: SessionState,
        external_channels: WorkerChannels,
    ) -> (w: Worker)
        ensures
            w.name == name,
            w.startup_data == startup_data,
            w.state == state,
            w.capabilities@ == capability_order(),
            w.dyn_import_hook_installed,
            w.error_hook_installed,
            !w.failed,
            !w.completed,
            w.channels == external_channels,
    {
        let capabilities = register_capabilities();
        Worker {
            name,
            startup_data,
            state,
            capabilities,
            dyn_import_hook_installed: true,
            error_hook_installed: true,
            failed: false,
            completed: false,
            channels: external_channels,
        }
    }

    /// Asks for `js_source` to be run under a synthesized anonymous label.
    pub fn execute(&self, js_source: &str) -> (r: Result<EngineAction, EngineError>)
        ensures
            r is Ok <==> !self.failed,
            r matches Ok(a) ==> (a matches EngineAction::RunScript { label, source }
                && label@ == anonymous_label() && source@ == js_source@),
            r matches Err(e) ==> e.diagnostic@ == failed_unit_diagnostic(),
    {
        self.execute2("__anonymous__", js_source)
    }

    /// Asks for `js_source` to be run, `js_filename` naming it in
    /// diagnostics.  A unit whose engine has permanently failed rejects the
    /// request immediately, without re-entering the engine.
    pub fn execute2(&self, js_filename: &str, js_source: &str) -> (r: Result<
        EngineAction,
        EngineError,
    >)
        ensures
            r is Ok <==> !self.failed,
            r matches Ok(a) ==> (a matches EngineAction::RunScript { label, source }
                && label@ == js_filename@ && source@ == js_source@),
            r matches Err(e) ==> e.diagnostic@ == failed_unit_diagnostic(),
    {
        if self.failed {
            Err(EngineError { diagnostic: "engine permanently failed".to_owned() })
        } else {
            Ok(
                EngineAction::RunScript {
                    label: js_filename.to_owned(),
                    source: js_source.to_owned(),
                },
            )
        }
    }

    /// Settles a script run or module evaluation the engine performed: a
    /// completion is success, an exception is surfaced as the translated
    /// `EngineError` — and either way the unit stays usable for further
    /// execution.
    pub fn finish_execution(&self, outcome: ScriptOutcome) -> (r: Result<(), EngineError>)
        ensures
            r is Ok <==> outcome matches ScriptOutcome::Completed,
            outcome matches ScriptOutcome::Exception(d) ==> (r matches Err(e) && e.diagnostic
                == d),
    {
        match outcome {
            ScriptOutcome::Completed => Ok(()),
            ScriptOutcome::Exception(d) => Err(EngineError { diagnostic: d }),
        }
    }

    /// Begins asynchronous module execution with main-graph semantics:
    /// `module_specifier` is the entry point; when `maybe_code` is given it
    /// is used for the entry instead of fetching; the host drives the
    /// returned load and then calls [`Worker::finish_mod_load`].
    pub fn execute_mod_async(
        &self,
        module_specifier: &ModuleSpecifier,
        maybe_code: Option<String>,
        is_prefetch: bool,
    ) -> (l: ModuleLoad)
        ensures
            l.wf(),
            l.loaded_views() == Seq::<Seq<char>>::empty(),
            l.pending_views() == seq![module_specifier@],
            l.entry@ == module_specifier@,
            l.inline_source == maybe_code,
            l.is_prefetch == is_prefetch,
            l.import_id is None,
            l.referrer is None,
    {
        ModuleLoad::main(module_specifier, maybe_code, is_prefetch)
    }

    /// The dynamic-import hook installed at construction: a runtime import
    /// request begins its own load, the requested specifier resolved against
    /// the requesting module as base URL, and feeds the engine's request id
    /// back once complete.  A pair that does not resolve to a URL is rejected
    /// before any loading.
    pub fn dyn_import(&self, id: u64, specifier: &str, referrer: &str) -> (r: Result<
        ModuleLoad,
        LoadError,
    >)
        ensures
            r is Ok <==> resolved_against(specifier@, referrer@) is Some,
            r matches Ok(l) ==> (l.wf() && l.loaded_views() == Seq::<Seq<char>>::empty()
                && l.entry@ == resolved_against(specifier@, referrer@).unwrap()
                && l.pending_views() == seq![resolved_against(specifier@, referrer@).unwrap()]
                && l.import_id == Some(id) && !l.is_prefetch && (l.referrer matches Some(t)
                && t@ == referrer@)),
            r is Err ==> r == Err::<ModuleLoad, LoadError>(LoadError::InvalidSpecifier),
    {
        match ModuleSpecifier::resolve_import(specifier, referrer) {
            Ok(m) => Ok(ModuleLoad::dynamic(id, &m, Some(referrer.to_owned()))),
            Err(_) => Err(LoadError::InvalidSpecifier),
        }
    }

    /// Finishes a fully loaded module graph: signals the session's progress
    /// tracker, adds the load's resolutions to the session metrics, and —
    /// unless the load was prefetch-only — hands back the evaluation the
    /// engine must run.  A prefetch-only load never evaluates.
    pub fn finish_mod_load(&mut self, load: &ModuleLoad) -> (r: Option<EngineAction>)
        requires
            load.pending_views().len() == 0,
            load.loaded_views().len() <= usize::MAX,
            old(self).state.resolve_count + load.loaded_views().len() <= u64::MAX,
        ensures
            final(self).state.progress_done,
            final(self).state.resolve_count == old(self).state.resolve_count
                + load.loaded_views().len(),
            final(self).state.argv == old(self).state.argv,
            final(self).state.entry == old(self).state.entry,
            final(self).state.compiler_starts == old(self).state.compiler_starts,
            final(self).name == old(self).name,
            final(self).startup_data == old(self).startup_data,
            final(self).capabilities == old(self).capabilities,
            final(self).dyn_import_hook_installed == old(self).dyn_import_hook_installed,
            final(self).error_hook_installed == old(self).error_hook_installed,
            final(self).failed == old(self).failed,
            final(self).completed == old(self).completed,
            final(self).channels == old(self).channels,
            load.is_prefetch ==> r is None,
            !load.is_prefetch ==> (r matches Some(a) && a matches EngineAction::EvaluateModule {
                specifier } && specifier@ == load.entry@),
    {
        self.state.progress_done = true;
        self.state.resolve_count = self.state.resolve_count + (load.loaded_count() as u64);
        if load.is_prefetch {
            None
        } else {
            Some(EngineAction::EvaluateModule { specifier: load.entry.clone() })
        }
    }

    /// One poll of the unit as an asynchronous task, `step` being what the
    /// engine's event loop reported for this step.  Completion is monotonic:
    /// a completed unit stays ready without consulting the engine again; a
    /// failed unit answers with its final error.
    pub fn poll(&mut self, step: StepOutcome) -> (r: TaskPoll)
        ensures
            old(self).completed ==> (r matches TaskPoll::Ready(res) && res is Ok && *final(self)
                == *old(self)),
            !old(self).completed && old(self).failed ==> (r matches TaskPoll::Ready(res)
                && res matches Err(e) && e.diagnostic@ == failed_unit_diagnostic() && *final(self)
                == *old(self)),
            !old(self).completed && !old(self).failed ==> match step {
                StepOutcome::Pending => r is Pending && *final(self) == *old(self),
                StepOutcome::Complete => (r matches TaskPoll::Ready(res) && res is Ok && *final(self) == (Worker { completed: true, ..*old(self) })),
                StepOutcome::Failed(d) => (r matches TaskPoll::Ready(res) && res matches Err(e)
                    && e.diagnostic == d && *final(self) == (Worker { failed: true, ..*old(self) })),
            },
    {
        if self.completed {
            TaskPoll::Ready(Ok(()))
        } else if self.failed {
            TaskPoll::Ready(Err(EngineError { diagnostic: "engine permanently failed".to_owned() }))
        } else {
            match step {
                StepOutcome::Pending => TaskPoll::Pending,
                StepOutcome::Complete => {
                    self.completed = true;
                    TaskPoll::Ready(Ok(()))
                },
                StepOutcome::Failed(d) => {
                    self.failed = true;
                    TaskPoll::Ready(Err(EngineError { diagnostic: d }))
                },
            }
        }
    }

    /// Posts `buf` to the unit as a host.  Fails with `ChannelError::Closed`
    /// exactly when the unit's side of the transport is gone.
    pub fn post_message(&mut self, buf: Vec<u8>) -> (r: Result<(), ChannelError>)
        ensures
            r is Ok <==> (pipe_send_open(old(self).channels.host_to_unit) && pipe_recv_open(
                old(self).channels.host_to_unit,
            )),
            r is Ok ==> final(self).inbox() == old(self).inbox().push(buf@),
            r is Err ==> final(self).inbox() == old(self).inbox(),
            pipe_flags_unchanged(final(self).channels.host_to_unit, old(self).channels.host_to_unit),
            final(self).channels.unit_to_host == old(self).channels.unit_to_host,
            final(self).outbox() == old(self).outbox(),
            same_unit_core(*final(self), *old(self)),
    {
        pipe_send(&mut self.channels.host_to_unit, buf)
    }

    /// A single-use receive adapter for the next message from the unit.
    pub fn get_message(&self) -> (r: WorkerReceiver) {
        WorkerReceiver {  }
    }

    /// The unit-side endpoint, as the messaging capability module drives it:
    /// takes the next message the host posted, in post order, or reports
    /// end of stream once the host side is gone and drained.
    pub fn unit_receive(&mut self) -> (r: ReceivePoll)
        ensures
            old(self).inbox().len() > 0 ==> (r matches ReceivePoll::Message(m) && m@ == old(self).inbox()[0] && final(self).inbox() == old(self).inbox().drop_first()),
            old(self).inbox().len() == 0 ==> final(self).inbox() == old(self).inbox(),
            old(self).inbox().len() == 0 && pipe_send_open(old(self).channels.host_to_unit)
                && pipe_recv_open(old(self).channels.host_to_unit) ==> r == ReceivePoll::Pending,
            old(self).inbox().len() == 0 && !(pipe_send_open(old(self).channels.host_to_unit)
                && pipe_recv_open(old(self).channels.host_to_unit)) ==> r == ReceivePoll::Closed,
            pipe_flags_unchanged(final(self).channels.host_to_unit, old(self).channels.host_to_unit),
            final(self).channels.unit_to_host == old(self).channels.unit_to_host,
            final(self).outbox() == old(self).outbox(),
            same_unit_core(*final(self), *old(self)),
    {
        pipe_try_receive(&mut self.channels.host_to_unit)
    }

    /// The unit-side endpoint: posts a message back to the host.
    pub fn unit_post(&mut self, buf: Vec<u8>) -> (r: Result<(), ChannelError>)
        ensures
            r is Ok <==> (pipe_send_open(old(self).channels.unit_to_host) && pipe_recv_open(
                old(self).channels.unit_to_host,
            )),
            r is Ok ==> final(self).outbox() == old(self).outbox().push(buf@),
            r is Err ==> final(self).outbox() == old(self).outbox(),
            pipe_flags_unchanged(final(self).channels.unit_to_host, old(self).channels.unit_to_host),
            final(self).channels.host_to_unit == old(self).channels.host_to_unit,
            final(self).inbox() == old(self).inbox(),
            same_unit_core(*final(self), *old(self)),
    {
        pipe_send(&mut self.channels.unit_to_host, buf)
    }

    /// The unit drops its channel ends: the sole closing signal.  Messages
    /// the unit already posted stay readable; once the host drains them it
    /// sees end of stream, and further posts from the host fail.
    pub fn unit_close(&mut self)
        ensures
            !pipe_send_open(final(self).channels.unit_to_host),
            !pipe_recv_open(final(self).channels.host_to_unit),
            pipe_send_open(final(self).channels.host_to_unit) == pipe_send_open(
                old(self).channels.host_to_unit,
            ),
            pipe_recv_open(final(self).channels.unit_to_host) == pipe_recv_open(
                old(self).channels.unit_to_host,
            ),
            final(self).inbox() == old(self).inbox(),
            final(self).outbox() == old(self).outbox(),
            same_unit_core(*final(self), *old(self)),
    {
        pipe_close_sender(&mut self.channels.unit_to_host);
        pipe_close_receiver(&mut self.channels.host_to_unit);
    }
}

/// Wraps the unit's host-facing receive half as a single-use-per-poll
/// suspendable operation: one poll yields the next message from the unit,
/// nothing yet, or end of stream once the unit has closed and drained.
pub struct WorkerReceiver {}

impl WorkerReceiver {
    /// One poll: the next message the unit posted, in post order; `Closed`
    /// once the unit's send half is gone and the queue is drained — and on
    /// every poll thereafter.
    pub fn poll(self, w: &mut Worker) -> (r: ReceivePoll)
        ensures
            old(w).outbox().len() > 0 ==> (r matches ReceivePoll::Message(m) && m@ == old(w).outbox()[0] && final(w).outbox() == old(w).outbox().drop_first()),
            old(w).outbox().len() == 0 ==> final(w).outbox() == old(w).outbox(),
            old(w).outbox().len() == 0 && pipe_send_open(old(w).channels.unit_to_host)
                && pipe_recv_open(old(w).channels.unit_to_host) ==> r == ReceivePoll::Pending,
            old(w).outbox().len() == 0 && !(pipe_send_open(old(w).channels.unit_to_host)
                && pipe_recv_open(old(w).channels.unit_to_host)) ==> r == ReceivePoll::Closed,
            pipe_flags_unchanged(final(w).channels.unit_to_host, old(w).channels.unit_to_host),
            final(w).channels.host_to_unit == old(w).channels.host_to_unit,
            final(w).inbox() == old(w).inbox(),
            same_unit_core(*final(w), *old(w)),
    {
        pipe_try_receive(&mut w.channels.unit_to_host)
    }
}

} // verus!
