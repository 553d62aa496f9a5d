//! One sandboxed invocation as a state machine.
//!
//! The session decides; its driver acts. The driver asks for the pending
//! [`Action`], performs it on the interpreter or the host, and hands back the
//! [`Event`] that tells how it went. A failure at any stage ends the
//! invocation with the kind of that stage; nothing is retried.

use crate::capability::capability_list;
use crate::capability::Capability;
use crate::codec::decoded_value;
use crate::codec::encoded_text;
use crate::codec::encoding_view;
use crate::codec::from_text;
use crate::codec::to_text;
use crate::error::Error;
use crate::error::ErrorKind;
use crate::error::ErrorView;
use crate::loader::loader_sources;
use crate::loader::resolver_paths;
use crate::peers::peer_map;
use crate::peers::PeerTable;
use rquickjs::loader::BuiltinLoader;
use rquickjs::loader::BuiltinResolver;
use vstd::prelude::*;
use vstd::utf8::encode_utf8;

verus! {

/// What the host asks for: which export of which module to run, on what.
pub struct Invocation {
    /// Correlates capability calls with this invocation; never interpreted.
    pub invocation_id: String,
    /// The name of the export to call.
    pub method: String,
    /// The name under which the target module is declared.
    pub module_name: String,
    /// The peer modules, as (name, source) pairs.
    pub peer_modules: Vec<(String, String)>,
    /// The source text of the target module.
    pub module_source: String,
    /// The input of the call, as JSON text.
    pub input_json: String,
}

/// An invocation as contracts see it.
pub struct InvocationView {
    pub invocation_id: Seq<char>,
    pub method: Seq<char>,
    pub module_name: Seq<char>,
    pub peer_modules: Seq<(Seq<char>, Seq<char>)>,
    pub module_source: Seq<char>,
    pub input_json: Seq<char>,
}

impl View for Invocation {
    type V = InvocationView;

    open spec fn view(&self) -> InvocationView {
        InvocationView {
            invocation_id: self.invocation_id@,
            method: self.method@,
            module_name: self.module_name@,
            peer_modules: self.peer_modules.deep_view(),
            module_source: self.module_source@,
            input_json: self.input_json@,
        }
    }
}

/// How far an invocation has come: the last milestone it reached.
#[derive(Clone, Copy, Debug, PartialEq, Eq, Structural)]
pub enum Stage {
    /// Nothing has been built yet.
    Requested,
    /// A fresh interpreter and context exist.
    Created,
    /// The built-in shims are in the global scope.
    ShimsInstalled,
    /// The resolver and loader for the peer modules are in place.
    LoaderInstalled,
    /// The target module is declared.
    Declared,
    /// The target module is evaluated; its pending jobs are being run.
    Evaluated,
    /// No job is pending after evaluation.
    JobsDrained,
    /// The export to call is at hand.
    ExportResolved,
    /// The input is parsed.
    InputParsed,
    /// The capabilities object is built.
    CapabilitiesBuilt,
    /// The export has returned.
    Invoked,
    /// The export returned a promise, which is awaited.
    Awaiting,
    /// The promise has settled and no job is pending.
    Drained,
    /// The final value is encoded.
    Serialized,
    /// The encoded text is ready for the host.
    Done,
    /// The invocation failed at the stage that the kind names.
    Failed(ErrorKind),
}

/// Which value the driver encodes as the result.
#[derive(Clone, Copy, Debug, PartialEq, Eq, Structural)]
pub enum ResultValue {
    /// The value that the export returned.
    Returned,
    /// The value that the returned promise settled to.
    Settled,
}

/// How the lookup of the export went.
pub enum ExportLookup {
    /// The namespace holds a callable export of the requested name.
    Found,
    /// The evaluated module gave no namespace.
    NoNamespace(String),
    /// The namespace holds no export of that name, or one that cannot be
    /// called.
    NotCallable(String),
}

/// What the driver reports back after performing an action.
pub enum Event {
    /// The interpreter and its context were constructed, or could not be.
    EngineCreated(Result<(), String>),
    /// The shims were installed, or their registration failed.
    ShimsInstalled(Result<(), String>),
    /// The resolver and loader were handed to the interpreter.
    LoaderInstalled,
    /// The module was declared, or its source did not parse.
    Declared(Result<(), String>),
    /// The module was evaluated, or it threw.
    Evaluated(Result<(), String>),
    /// One pending job was looked for: `true` if one ran, `false` if the
    /// queue was empty.
    JobRan(bool),
    /// The export was looked up.
    ExportResolved(ExportLookup),
    /// The input text was parsed, or is not JSON.
    InputParsed(Result<(), String>),
    /// The capabilities object was built, or could not be.
    CapabilitiesBuilt(Result<(), String>),
    /// The export returned, with `true` for a promise-shaped value, or threw.
    Invoked(Result<bool, String>),
    /// The awaited promise was fulfilled, or rejected.
    Settled(Result<(), String>),
    /// The value was encoded: to a text, to nothing, or the encoder threw.
    Encoded(Result<Option<String>, String>),
    /// The interpreter has finished its idle work and is released.
    TornDown,
    /// The interpreter itself failed, outside the step that was asked for.
    EngineFailed(String),
}

/// What the driver is to do next.
pub enum Action {
    /// Construct a fresh interpreter and context.
    CreateEngine,
    /// Install the built-in shims into the global scope.
    InstallShims,
    /// Hand the resolver and the loader to the interpreter.
    InstallLoader { resolver: BuiltinResolver, loader: BuiltinLoader },
    /// Declare the target module from `source` under `name`.
    Declare { name: String, source: String },
    /// Evaluate the declared module.
    Evaluate,
    /// Run one pending job of the interpreter, if there is one.
    RunPendingJob,
    /// Look up the export `method` in the module's namespace.
    ResolveExport { method: String },
    /// Parse `text` as the input value.
    ParseInput { text: String },
    /// Build the capabilities object: one property per listed capability,
    /// each bound to `invocation_id`.
    BuildCapabilities { invocation_id: String, capabilities: Vec<Capability> },
    /// Call the export with the parsed input and the capabilities object.
    Invoke,
    /// Suspend until the returned promise has settled.
    AwaitSettlement,
    /// Encode `value` as JSON text.
    Encode { value: ResultValue },
    /// Let the interpreter finish its idle work, and release it.
    Teardown,
    /// Nothing is left to do: the outcome stands.
    Finish,
}

/// The outcome of a step that yields nothing but success or a cause.
pub open spec fn unit_view(r: Result<(), String>) -> Result<(), Seq<char>> {
    match r {
        Ok(_) => Ok(()),
        Err(d) => Err(d@),
    }
}

/// An export lookup as contracts see it.
pub enum ExportLookupView {
    Found,
    NoNamespace(Seq<char>),
    NotCallable(Seq<char>),
}

impl View for ExportLookup {
    type V = ExportLookupView;

    open spec fn view(&self) -> ExportLookupView {
        match self {
            ExportLookup::Found => ExportLookupView::Found,
            ExportLookup::NoNamespace(d) => ExportLookupView::NoNamespace(d@),
            ExportLookup::NotCallable(d) => ExportLookupView::NotCallable(d@),
        }
    }
}

/// An event as contracts see it.
pub enum EventView {
    EngineCreated(Result<(), Seq<char>>),
    ShimsInstalled(Result<(), Seq<char>>),
    LoaderInstalled,
    Declared(Result<(), Seq<char>>),
    Evaluated(Result<(), Seq<char>>),
    JobRan(bool),
    ExportResolved(ExportLookupView),
    InputParsed(Result<(), Seq<char>>),
    CapabilitiesBuilt(Result<(), Seq<char>>),
    Invoked(Result<bool, Seq<char>>),
    Settled(Result<(), Seq<char>>),
    Encoded(Result<Option<Seq<char>>, Seq<char>>),
    TornDown,
    EngineFailed(Seq<char>),
}

impl View for Event {
    type V = EventView;

    open spec fn view(&self) -> EventView {
        match self {
            Event::EngineCreated(r) => EventView::EngineCreated(unit_view(*r)),
            Event::ShimsInstalled(r) => EventView::ShimsInstalled(unit_view(*r)),
            Event::LoaderInstalled => EventView::LoaderInstalled,
            Event::Declared(r) => EventView::Declared(unit_view(*r)),
            Event::Evaluated(r) => EventView::Evaluated(unit_view(*r)),
            Event::JobRan(ran) => EventView::JobRan(*ran),
            Event::ExportResolved(l) => EventView::ExportResolved(l@),
            Event::InputParsed(r) => EventView::InputParsed(unit_view(*r)),
            Event::CapabilitiesBuilt(r) => EventView::CapabilitiesBuilt(unit_view(*r)),
            Event::Invoked(r) => EventView::Invoked(
                match r {
                    Ok(p) => Ok(*p),
                    Err(d) => Err(d@),
                },
            ),
            Event::Settled(r) => EventView::Settled(unit_view(*r)),
            Event::Encoded(r) => EventView::Encoded(encoding_view(*r)),
            Event::TornDown => EventView::TornDown,
            Event::EngineFailed(d) => EventView::EngineFailed(d@),
        }
    }
}

/// An action as contracts see it.
pub enum ActionView {
    CreateEngine,
    InstallShims,
    InstallLoader { paths: Set<Seq<char>>, sources: Map<Seq<char>, Seq<u8>> },
    Declare { name: Seq<char>, source: Seq<char> },
    Evaluate,
    RunPendingJob,
    ResolveExport { method: Seq<char> },
    ParseInput { text: Seq<char> },
    BuildCapabilities { invocation_id: Seq<char>, capabilities: Seq<Capability> },
    Invoke,
    AwaitSettlement,
    Encode { value: ResultValue },
    Teardown,
    Finish,
}

impl View for Action {
    type V = ActionView;

    open spec fn view(&self) -> ActionView {
        match self {
            Action::CreateEngine => ActionView::CreateEngine,
            Action::InstallShims => ActionView::InstallShims,
            Action::InstallLoader { resolver, loader } => ActionView::InstallLoader {
                paths: resolver_paths(*resolver),
                sources: loader_sources(*loader),
            },
            Action::Declare { name, source } => ActionView::Declare { name: name@, source: source@ },
            Action::Evaluate => ActionView::Evaluate,
            Action::RunPendingJob => ActionView::RunPendingJob,
            Action::ResolveExport { method } => ActionView::ResolveExport { method: method@ },
            Action::ParseInput { text } => ActionView::ParseInput { text: text@ },
            Action::BuildCapabilities { invocation_id, capabilities } => ActionView::BuildCapabilities {
                invocation_id: invocation_id@,
                capabilities: capabilities@,
            },
            Action::Invoke => ActionView::Invoke,
            Action::AwaitSettlement => ActionView::AwaitSettlement,
            Action::Encode { value } => ActionView::Encode { value: *value },
            Action::Teardown => ActionView::Teardown,
            Action::Finish => ActionView::Finish,
        }
    }
}

/// Whether performing an action may suspend the invocation on work outside
/// the interpreter. Only the wait for the returned promise does; every other
/// step of a session runs to its end once entered.
pub open spec fn may_suspend(action: ActionView) -> bool {
    action is AwaitSettlement
}

impl Action {
    /// Whether performing the action may suspend the invocation.
    pub fn suspends(&self) -> (suspends: bool)
        ensures
            suspends == may_suspend(self@),
    {
        match self {
            Action::AwaitSettlement => true,
            _ => false,
        }
    }
}

/// A session as contracts see it.
pub struct SessionView {
    /// What the host asked for.
    pub invocation: InvocationView,
    /// The last milestone reached.
    pub stage: Stage,
    /// Whether an interpreter exists that has not been released.
    pub engine: bool,
    /// Whether the export returned a promise-shaped value.
    pub promise: bool,
    /// Whether that promise has been fulfilled.
    pub settled: bool,
    /// The encoded result; empty until the value is serialized.
    pub text: Seq<char>,
    /// The cause of the failure; empty unless the invocation failed.
    pub detail: Seq<char>,
}

/// The words put before the cause when the capabilities object cannot be
/// built.
pub open spec fn capabilities_failure_prefix() -> Seq<char> {
    "Error creating capabilities object: "@
}

/// The session of a new invocation.
pub open spec fn initial(invocation: InvocationView) -> SessionView {
    SessionView {
        invocation,
        stage: Stage::Requested,
        engine: false,
        promise: false,
        settled: false,
        text: Seq::empty(),
        detail: Seq::empty(),
    }
}

/// The peer table of an invocation: its pairs registered for its module.
pub open spec fn peers_of(invocation: InvocationView) -> Map<Seq<char>, Seq<char>> {
    peer_map(invocation.module_name, invocation.peer_modules)
}

/// The action that a session waits to have performed.
pub open spec fn pending_action(s: SessionView) -> ActionView {
    match s.stage {
        Stage::Requested => ActionView::CreateEngine,
        Stage::Created => ActionView::InstallShims,
        Stage::ShimsInstalled => ActionView::InstallLoader {
            paths: peers_of(s.invocation).dom(),
            sources: peers_of(s.invocation).map_values(|t: Seq<char>| encode_utf8(t)),
        },
        Stage::LoaderInstalled => ActionView::Declare {
            name: s.invocation.module_name,
            source: s.invocation.module_source,
        },
        Stage::Declared => ActionView::Evaluate,
        Stage::Evaluated => ActionView::RunPendingJob,
        Stage::JobsDrained => ActionView::ResolveExport { method: s.invocation.method },
        Stage::ExportResolved => ActionView::ParseInput { text: s.invocation.input_json },
        Stage::InputParsed => ActionView::BuildCapabilities {
            invocation_id: s.invocation.invocation_id,
            capabilities: capability_list(),
        },
        Stage::CapabilitiesBuilt => ActionView::Invoke,
        Stage::Invoked => if s.promise {
            ActionView::RunPendingJob
        } else {
            ActionView::Encode { value: ResultValue::Returned }
        },
        Stage::Awaiting => if s.settled {
            ActionView::RunPendingJob
        } else {
            ActionView::AwaitSettlement
        },
        Stage::Drained => ActionView::Encode { value: ResultValue::Settled },
        Stage::Serialized => ActionView::Teardown,
        Stage::Done => ActionView::Finish,
        Stage::Failed(_) => if s.engine {
            ActionView::Teardown
        } else {
            ActionView::Finish
        },
    }
}

/// Whether an event reports on the given action.
pub open spec fn answers(action: ActionView, event: EventView) -> bool {
    match (action, event) {
        (ActionView::CreateEngine, EventView::EngineCreated(_)) => true,
        (ActionView::InstallShims, EventView::ShimsInstalled(_)) => true,
        (ActionView::InstallLoader { .. }, EventView::LoaderInstalled) => true,
        (ActionView::Declare { .. }, EventView::Declared(_)) => true,
        (ActionView::Evaluate, EventView::Evaluated(_)) => true,
        (ActionView::RunPendingJob, EventView::JobRan(_)) => true,
        (ActionView::ResolveExport { .. }, EventView::ExportResolved(_)) => true,
        (ActionView::ParseInput { .. }, EventView::InputParsed(_)) => true,
        (ActionView::BuildCapabilities { .. }, EventView::CapabilitiesBuilt(_)) => true,
        (ActionView::Invoke, EventView::Invoked(_)) => true,
        (ActionView::AwaitSettlement, EventView::Settled(_)) => true,
        (ActionView::Encode { .. }, EventView::Encoded(_)) => true,
        (ActionView::Teardown, EventView::TornDown) => true,
        _ => false,
    }
}

/// Whether the invocation is still under way: it has neither produced its
/// text nor failed.
pub open spec fn under_way(s: SessionView) -> bool {
    !(s.stage is Failed) && s.stage != Stage::Done
}

/// Whether a session takes an event: a failure of the interpreter while
/// the invocation is under way, or a report on the pending action.
pub open spec fn takes(s: SessionView, event: EventView) -> bool {
    if event is EngineFailed {
        under_way(s)
    } else {
        answers(pending_action(s), event)
    }
}

/// The session at the next milestone, the rest unchanged.
pub open spec fn at_stage(s: SessionView, stage: Stage) -> SessionView {
    SessionView { stage, ..s }
}

/// The session ended by a failure of the given kind with the given cause.
pub open spec fn failed(s: SessionView, kind: ErrorKind, detail: Seq<char>) -> SessionView {
    SessionView { stage: Stage::Failed(kind), detail, ..s }
}

/// The session after a step that either succeeded, reaching `next`, or
/// failed with a cause, ending the invocation with `kind`.
pub open spec fn after(
    s: SessionView,
    outcome: Result<(), Seq<char>>,
    next: Stage,
    kind: ErrorKind,
) -> SessionView {
    match outcome {
        Ok(_) => at_stage(s, next),
        Err(d) => failed(s, kind, d),
    }
}

/// The session after the interpreter was asked for a pending job: it stays
/// where it is while jobs run, and reaches `next` once the queue is empty.
pub open spec fn after_job(s: SessionView, ran: bool, next: Stage) -> SessionView {
    if ran {
        s
    } else {
        at_stage(s, next)
    }
}

/// The transition function: the session after `event`. An event that the
/// session does not take changes nothing.
pub open spec fn step(s: SessionView, event: EventView) -> SessionView {
    match (s.stage, event) {
        (_, EventView::EngineFailed(d)) => if under_way(s) {
            failed(s, ErrorKind::EngineError, d)
        } else {
            s
        },
        (Stage::Requested, EventView::EngineCreated(r)) => match r {
            Ok(_) => SessionView { stage: Stage::Created, engine: true, ..s },
            Err(d) => failed(s, ErrorKind::EngineError, d),
        },
        (Stage::Created, EventView::ShimsInstalled(r)) => after(
            s,
            r,
            Stage::ShimsInstalled,
            ErrorKind::EngineError,
        ),
        (Stage::ShimsInstalled, EventView::LoaderInstalled) => at_stage(s, Stage::LoaderInstalled),
        (Stage::LoaderInstalled, EventView::Declared(r)) => after(
            s,
            r,
            Stage::Declared,
            ErrorKind::Loading,
        ),
        (Stage::Declared, EventView::Evaluated(r)) => after(
            s,
            r,
            Stage::Evaluated,
            ErrorKind::Evaluating,
        ),
        (Stage::Evaluated, EventView::JobRan(ran)) => after_job(s, ran, Stage::JobsDrained),
        (Stage::JobsDrained, EventView::ExportResolved(l)) => match l {
            ExportLookupView::Found => at_stage(s, Stage::ExportResolved),
            ExportLookupView::NoNamespace(d) => failed(s, ErrorKind::GettingDefaultExport, d),
            ExportLookupView::NotCallable(d) => failed(s, ErrorKind::GettingDefaultFunction, d),
        },
        (Stage::ExportResolved, EventView::InputParsed(r)) => match decoded_value(
            r,
            ErrorKind::ParsingInputValues,
        ) {
            Ok(_) => at_stage(s, Stage::InputParsed),
            Err(e) => failed(s, e.kind, e.detail),
        },
        (Stage::InputParsed, EventView::CapabilitiesBuilt(r)) => match r {
            Ok(_) => at_stage(s, Stage::CapabilitiesBuilt),
            Err(d) => failed(
                s,
                ErrorKind::CallingModuleFunction,
                capabilities_failure_prefix() + d,
            ),
        },
        (Stage::CapabilitiesBuilt, EventView::Invoked(r)) => match r {
            Ok(promise) => SessionView { stage: Stage::Invoked, promise, ..s },
            Err(d) => failed(s, ErrorKind::CallingModuleFunction, d),
        },
        (Stage::Invoked, EventView::JobRan(ran)) => if s.promise {
            after_job(s, ran, Stage::Awaiting)
        } else {
            s
        },
        (Stage::Awaiting, EventView::Settled(r)) => if s.settled {
            s
        } else {
            match r {
                Ok(_) => SessionView { settled: true, ..s },
                Err(d) => failed(s, ErrorKind::CallingModuleFunction, d),
            }
        },
        (Stage::Awaiting, EventView::JobRan(ran)) => if s.settled {
            after_job(s, ran, Stage::Drained)
        } else {
            s
        },
        (Stage::Invoked, EventView::Encoded(r)) => if s.promise {
            s
        } else {
            encoded(s, r)
        },
        (Stage::Drained, EventView::Encoded(r)) => encoded(s, r),
        (Stage::Serialized, EventView::TornDown) => SessionView {
            stage: Stage::Done,
            engine: false,
            ..s
        },
        (Stage::Failed(_), EventView::TornDown) => SessionView { engine: false, ..s },
        _ => s,
    }
}

/// The session after the final value went through the encoder: serialized
/// with the text it gave, or failed where it gave none or threw.
pub open spec fn encoded(s: SessionView, r: Result<Option<Seq<char>>, Seq<char>>) -> SessionView {
    match encoded_text(r) {
        Ok(text) => SessionView { stage: Stage::Serialized, text, ..s },
        Err(e) => failed(s, e.kind, e.detail),
    }
}

/// What the host receives: nothing while the invocation runs or its
/// interpreter is not yet released, then the encoded text or the failure.
pub open spec fn outcome_of(s: SessionView) -> Option<Result<Seq<char>, ErrorView>> {
    match s.stage {
        Stage::Done => Some(Ok(s.text)),
        Stage::Failed(kind) => if s.engine {
            None
        } else {
            Some(Err(ErrorView { kind, detail: s.detail }))
        },
        _ => None,
    }
}

/// One invocation on its way through the pipeline.
pub struct Session {
    invocation: Invocation,
    peers: PeerTable,
    stage: Stage,
    engine: bool,
    promise: bool,
    settled: bool,
    text: String,
    detail: String,
}

impl View for Session {
    type V = SessionView;

    closed spec fn view(&self) -> SessionView {
        SessionView {
            invocation: self.invocation@,
            stage: self.stage,
            engine: self.engine,
            promise: self.promise,
            settled: self.settled,
            text: self.text@,
            detail: self.detail@,
        }
    }
}

impl Session {
    #[verifier::type_invariant]
    spec fn well_formed(self) -> bool {
        &&& self.peers@ == peers_of(self.invocation@)
        &&& self.peers.target() == self.invocation@.module_name
    }

    /// A session for `invocation`, with nothing built yet. The peer table is
    /// filled here, before any module is declared, and never changed after.
    pub fn new(invocation: Invocation) -> (session: Session)
        ensures
            session@ == initial(invocation@),
    {
        let peers = PeerTable::from_entries(
            invocation.module_name.as_str(),
            &invocation.peer_modules,
        );
        Session {
            invocation,
            peers,
            stage: Stage::Requested,
            engine: false,
            promise: false,
            settled: false,
            text: String::new(),
            detail: String::new(),
        }
    }

    /// The last milestone reached.
    pub fn stage(&self) -> (stage: Stage)
        ensures
            stage == self@.stage,
    {
        self.stage
    }

    /// What the host asked for.
    pub fn invocation(&self) -> (invocation: &Invocation)
        ensures
            invocation@ == self@.invocation,
    {
        &self.invocation
    }

    /// The peer modules that the target module may import.
    pub fn peers(&self) -> (peers: &PeerTable)
        ensures
            peers@ == peers_of(self@.invocation),
            peers.target() == self@.invocation.module_name,
    {
        proof {
            use_type_invariant(self);
        }
        &self.peers
    }

    /// Whether the invocation has ended, in success or in failure, and its
    /// interpreter is released.
    pub fn is_finished(&self) -> (finished: bool)
        ensures
            finished == (outcome_of(self@) is Some),
    {
        match self.stage {
            Stage::Done => true,
            Stage::Failed(_) => !self.engine,
            _ => false,
        }
    }

    /// What the host receives: `None` while the invocation runs, then the
    /// encoded text or the failure.
    pub fn outcome(&self) -> (outcome: Option<Result<String, Error>>)
        ensures
            match outcome {
                Some(Ok(text)) => outcome_of(self@) == Some(Ok::<Seq<char>, ErrorView>(text@)),
                Some(Err(e)) => outcome_of(self@) == Some(Err::<Seq<char>, ErrorView>(e@)),
                None => outcome_of(self@) is None,
            },
    {
        match self.stage {
            Stage::Done => Some(Ok(self.text.clone())),
            Stage::Failed(kind) => if self.engine {
                None
            } else {
                Some(Err(Error::new(kind, self.detail.clone())))
            },
            _ => None,
        }
    }

    /// The action that the driver is to perform next, with what it is to
    /// hand to the interpreter.
    pub fn next_action(&self) -> (action: Action)
        ensures
            action@ == pending_action(self@),
    {
        proof {
            use_type_invariant(self);
        }
        match self.stage {
            Stage::Requested => Action::CreateEngine,
            Stage::Created => Action::InstallShims,
            Stage::ShimsInstalled => Action::InstallLoader {
                resolver: self.peers.resolver(),
                loader: self.peers.loader(),
            },
            Stage::LoaderInstalled => Action::Declare {
                name: self.invocation.module_name.clone(),
                source: self.invocation.module_source.clone(),
            },
            Stage::Declared => Action::Evaluate,
            Stage::Evaluated => Action::RunPendingJob,
            Stage::JobsDrained => Action::ResolveExport { method: self.invocation.method.clone() },
            Stage::ExportResolved => Action::ParseInput { text: self.invocation.input_json.clone() },
            Stage::InputParsed => Action::BuildCapabilities {
                invocation_id: self.invocation.invocation_id.clone(),
                capabilities: Capability::all(),
            },
            Stage::CapabilitiesBuilt => Action::Invoke,
            Stage::Invoked => if self.promise {
                Action::RunPendingJob
            } else {
                Action::Encode { value: ResultValue::Returned }
            },
            Stage::Awaiting => if self.settled {
                Action::RunPendingJob
            } else {
                Action::AwaitSettlement
            },
            Stage::Drained => Action::Encode { value: ResultValue::Settled },
            Stage::Serialized => Action::Teardown,
            Stage::Done => Action::Finish,
            Stage::Failed(_) => if self.engine {
                Action::Teardown
            } else {
                Action::Finish
            },
        }
    }

    fn fail(&mut self, kind: ErrorKind, detail: String)
        ensures
            final(self)@ == failed(old(self)@, kind, detail@),
    {
        proof {
            use_type_invariant(&*self);
        }
        self.stage = Stage::Failed(kind);
        self.detail = detail;
    }

    fn conclude(&mut self, outcome: Result<(), String>, next: Stage, kind: ErrorKind)
        ensures
            final(self)@ == after(old(self)@, unit_view(outcome), next, kind),
    {
        proof {
            use_type_invariant(&*self);
        }
        match outcome {
            Ok(_) => {
                self.stage = next;
            },
            Err(detail) => {
                self.fail(kind, detail);
            },
        }
    }

    fn job(&mut self, ran: bool, next: Stage)
        ensures
            final(self)@ == after_job(old(self)@, ran, next),
    {
        proof {
            use_type_invariant(&*self);
        }
        if !ran {
            self.stage = next;
        }
    }

    fn serialize(&mut self, r: Result<Option<String>, String>)
        ensures
            final(self)@ == encoded(old(self)@, Event::Encoded(r)@->Encoded_0),
    {
        proof {
            use_type_invariant(&*self);
        }
        match to_text(r) {
            Ok(text) => {
                self.stage = Stage::Serialized;
                self.text = text;
            },
            Err(e) => {
                self.fail(e.kind, e.detail);
            },
        }
    }

    /// Takes the driver's report on the pending action and moves on: to the
    /// next milestone, or to the failure of the stage. A failure of the
    /// interpreter itself is taken at any point while the invocation is
    /// under way. Any other report is refused and changes nothing; the
    /// result says whether the report was taken.
    pub fn advance(&mut self, event: Event) -> (taken: bool)
        ensures
            final(self)@ == step(old(self)@, event@),
            taken == takes(old(self)@, event@),
    {
        proof {
            use_type_invariant(&*self);
        }
        match (self.stage, event) {
            (Stage::Done, Event::EngineFailed(_)) => false,
            (Stage::Failed(_), Event::EngineFailed(_)) => false,
            (_, Event::EngineFailed(detail)) => {
                self.fail(ErrorKind::EngineError, detail);
                true
            },
            (Stage::Requested, Event::EngineCreated(r)) => {
                match r {
                    Ok(_) => {
                        self.stage = Stage::Created;
                        self.engine = true;
                    },
                    Err(detail) => {
                        self.fail(ErrorKind::EngineError, detail);
                    },
                }
                true
            },
            (Stage::Created, Event::ShimsInstalled(r)) => {
                self.conclude(r, Stage::ShimsInstalled, ErrorKind::EngineError);
                true
            },
            (Stage::ShimsInstalled, Event::LoaderInstalled) => {
                self.stage = Stage::LoaderInstalled;
                true
            },
            (Stage::LoaderInstalled, Event::Declared(r)) => {
                self.conclude(r, Stage::Declared, ErrorKind::Loading);
                true
            },
            (Stage::Declared, Event::Evaluated(r)) => {
                self.conclude(r, Stage::Evaluated, ErrorKind::Evaluating);
                true
            },
            (Stage::Evaluated, Event::JobRan(ran)) => {
                self.job(ran, Stage::JobsDrained);
                true
            },
            (Stage::JobsDrained, Event::ExportResolved(lookup)) => {
                match lookup {
                    ExportLookup::Found => {
                        self.stage = Stage::ExportResolved;
                    },
                    ExportLookup::NoNamespace(detail) => {
                        self.fail(ErrorKind::GettingDefaultExport, detail);
                    },
                    ExportLookup::NotCallable(detail) => {
                        self.fail(ErrorKind::GettingDefaultFunction, detail);
                    },
                }
                true
            },
            (Stage::ExportResolved, Event::InputParsed(r)) => {
                match from_text(r, ErrorKind::ParsingInputValues) {
                    Ok(_) => {
                        self.stage = Stage::InputParsed;
                    },
                    Err(e) => {
                        self.fail(e.kind, e.detail);
                    },
                }
                true
            },
            (Stage::InputParsed, Event::CapabilitiesBuilt(r)) => {
                match r {
                    Ok(_) => {
                        self.stage = Stage::CapabilitiesBuilt;
                    },
                    Err(detail) => {
                        let text = String::from_str("Error creating capabilities object: ").concat(
                            detail.as_str(),
                        );
                        self.fail(ErrorKind::CallingModuleFunction, text);
                    },
                }
                true
            },
            (Stage::CapabilitiesBuilt, Event::Invoked(r)) => {
                match r {
                    Ok(promise) => {
                        self.stage = Stage::Invoked;
                        self.promise = promise;
                    },
                    Err(detail) => {
                        self.fail(ErrorKind::CallingModuleFunction, detail);
                    },
                }
                true
            },
            (Stage::Invoked, Event::JobRan(ran)) => {
                if self.promise {
                    self.job(ran, Stage::Awaiting);
                    true
                } else {
                    false
                }
            },
            (Stage::Awaiting, Event::Settled(r)) => {
                if self.settled {
                    false
                } else {
                    match r {
                        Ok(_) => {
                            self.settled = true;
                        },
                        Err(detail) => {
                            self.fail(ErrorKind::CallingModuleFunction, detail);
                        },
                    }
                    true
                }
            },
            (Stage::Awaiting, Event::JobRan(ran)) => {
                if self.settled {
                    self.job(ran, Stage::Drained);
                    true
                } else {
                    false
                }
            },
            (Stage::Invoked, Event::Encoded(r)) => {
                if self.promise {
                    false
                } else {
                    self.serialize(r);
                    true
                }
            },
            (Stage::Drained, Event::Encoded(r)) => {
                self.serialize(r);
                true
            },
            (Stage::Serialized, Event::TornDown) => {
                self.stage = Stage::Done;
                self.engine = false;
                true
            },
            (Stage::Failed(_), Event::TornDown) => {
                if self.engine {
                    self.engine = false;
                    true
                } else {
                    false
                }
            },
            _ => false,
        }
    }
}

/// Starts the run of a module: the session for the export `method` of the
/// module `name` with source `code`, on the input `json`, with `modules` as
/// its peers, under the id `invocation_id`. Its driver carries the session
/// to its outcome, the encoded result or the failure.
pub fn run_module(
    invocation_id: String,
    method: String,
    name: String,
    modules: Vec<(String, String)>,
    code: String,
    json: String,
) -> (session: Session)
    ensures
        session@ == initial(
            InvocationView {
                invocation_id: invocation_id@,
                method: method@,
                module_name: name@,
                peer_modules: modules.deep_view(),
                module_source: code@,
                input_json: json@,
            },
        ),
{
    Session::new(
        Invocation {
            invocation_id,
            method,
            module_name: name,
            peer_modules: modules,
            module_source: code,
            input_json: json,
        },
    )
}

} // verus!
