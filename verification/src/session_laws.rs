//! What holds of every run of a session, whatever the driver reports.

use crate::capability::capability_list;
use crate::codec::encoded_text;
use crate::error::ErrorKind;
use crate::error::ErrorView;
use crate::session::capabilities_failure_prefix;
use crate::session::initial;
use crate::session::may_suspend;
use crate::session::outcome_of;
use crate::session::peers_of;
use crate::session::pending_action;
use crate::session::step;
use crate::session::takes;
use crate::session::under_way;
use crate::session::ActionView;
use crate::session::EventView;
use crate::session::ExportLookupView;
use crate::session::InvocationView;
use crate::session::ResultValue;
use crate::session::SessionView;
use crate::session::Stage;
use vstd::prelude::*;
use vstd::utf8::encode_utf8;

verus! {

/// The session after a sequence of events, taken one by one.
pub open spec fn run(s: SessionView, events: Seq<EventView>) -> SessionView
    decreases events.len(),
{
    if events.len() == 0 {
        s
    } else {
        step(run(s, events.drop_last()), events.last())
    }
}

/// The place of a stage in the pipeline. A failure ranks above all.
pub open spec fn stage_rank(stage: Stage) -> nat {
    match stage {
        Stage::Requested => 0,
        Stage::Created => 1,
        Stage::ShimsInstalled => 2,
        Stage::LoaderInstalled => 3,
        Stage::Declared => 4,
        Stage::Evaluated => 5,
        Stage::JobsDrained => 6,
        Stage::ExportResolved => 7,
        Stage::InputParsed => 8,
        Stage::CapabilitiesBuilt => 9,
        Stage::Invoked => 10,
        Stage::Awaiting => 11,
        Stage::Drained => 12,
        Stage::Serialized => 13,
        Stage::Done => 14,
        Stage::Failed(_) => 15,
    }
}

/// What holds of every session that a run from a new invocation reaches.
pub open spec fn consistent(s: SessionView) -> bool {
    &&& s.stage == Stage::Requested ==> !s.engine
    &&& 1 <= stage_rank(s.stage) <= 13 ==> s.engine
    &&& s.stage == Stage::Done ==> !s.engine
    &&& stage_rank(s.stage) < 10 ==> !s.promise
    &&& s.settled ==> s.promise
    &&& s.stage == Stage::Awaiting ==> s.promise
    &&& s.stage == Stage::Drained ==> s.promise && s.settled
    &&& (s.stage == Stage::Serialized || s.stage == Stage::Done) && s.promise ==> s.settled
    &&& stage_rank(s.stage) < 13 ==> s.text.len() == 0
    &&& s.promise && !s.settled ==> s.text.len() == 0
    &&& !(s.stage is Failed) ==> s.detail.len() == 0
}

/// Running one sequence of events after another is running them joined.
pub proof fn lemma_run_concat(s: SessionView, first: Seq<EventView>, second: Seq<EventView>)
    ensures
        run(s, first + second) == run(run(s, first), second),
    decreases second.len(),
{
    if second.len() == 0 {
        assert(first + second =~= first);
    } else {
        assert((first + second).drop_last() =~= first + second.drop_last());
        assert((first + second).last() == second.last());
        lemma_run_concat(s, first, second.drop_last());
    }
}

/// Running a single event is taking one step.
pub proof fn lemma_run_one(s: SessionView, event: EventView)
    ensures
        run(s, seq![event]) == step(s, event),
{
    assert(seq![event].drop_last() =~= Seq::<EventView>::empty());
    assert(run(s, seq![event].drop_last()) == s);
}

/// An event that the session does not take changes nothing: a report on
/// anything but the pending action, or a failure of the interpreter after
/// the invocation has ended.
pub proof fn lemma_unrelated_event_changes_nothing(s: SessionView, event: EventView)
    requires
        !takes(s, event),
    ensures
        step(s, event) == s,
{
}

/// A report on the pending action never leaves what the host asked for
/// changed: the invocation stays the same through every step.
pub proof fn lemma_invocation_is_kept(s: SessionView, events: Seq<EventView>)
    ensures
        run(s, events).invocation == s.invocation,
    decreases events.len(),
{
    if events.len() > 0 {
        lemma_invocation_is_kept(s, events.drop_last());
    }
}

/// An ended invocation stays ended: no event changes a session that has
/// handed out its outcome, so nothing is retried and no second outcome
/// appears.
pub proof fn lemma_outcome_is_final(s: SessionView, events: Seq<EventView>)
    requires
        outcome_of(s) is Some,
    ensures
        run(s, events) == s,
    decreases events.len(),
{
    if events.len() > 0 {
        lemma_outcome_is_final(s, events.drop_last());
    }
}

/// A failure stands: once an invocation has failed, no event changes its
/// kind or its cause, and nothing is retried. All that is left is the
/// release of the interpreter, if one was made.
pub proof fn lemma_failure_stands(s: SessionView, events: Seq<EventView>)
    requires
        s.stage is Failed,
    ensures
        run(s, events).stage == s.stage,
        run(s, events).detail == s.detail,
        run(s, events).engine ==> s.engine,
    decreases events.len(),
{
    if events.len() > 0 {
        lemma_failure_stands(s, events.drop_last());
    }
}

/// The pipeline is walked in order: no step leads back to an earlier stage,
/// and a step that does not fail moves at most to the next milestone, or
/// from a returned plain value straight to its encoding.
pub proof fn lemma_stages_in_order(s: SessionView, event: EventView)
    ensures
        stage_rank(step(s, event).stage) >= stage_rank(s.stage),
        !(step(s, event).stage is Failed) ==> {
            ||| stage_rank(step(s, event).stage) <= stage_rank(s.stage) + 1
            ||| (s.stage == Stage::Invoked && !s.promise && step(s, event).stage
                == Stage::Serialized)
        },
{
}

/// Every step keeps a session consistent.
pub proof fn lemma_step_keeps_consistent(s: SessionView, event: EventView)
    requires
        consistent(s),
    ensures
        consistent(step(s, event)),
{
}

/// Every session reached from a new invocation is consistent.
pub proof fn lemma_run_is_consistent(invocation: InvocationView, events: Seq<EventView>)
    ensures
        consistent(run(initial(invocation), events)),
    decreases events.len(),
{
    if events.len() > 0 {
        lemma_run_is_consistent(invocation, events.drop_last());
        lemma_step_keeps_consistent(
            run(initial(invocation), events.drop_last()),
            events.last(),
        );
    }
}

/// A session suspends at one point only: while it awaits the promise that
/// the export returned, after the queue was drained and before the promise
/// has settled. The declaration and the evaluation of the module, the
/// lookup of the export and the parsing of the input never suspend.
pub proof fn lemma_suspends_only_awaiting(s: SessionView)
    ensures
        may_suspend(pending_action(s)) <==> s.stage == Stage::Awaiting && !s.settled,
{
}

/// A promise is resolved before its value is serialized. In every run from a
/// new invocation, the returned value is encoded only where the export gave
/// a plain value; where it gave a promise, encoding is asked for the settled
/// value only, after the promise was reported fulfilled and the job queue
/// was then found empty, and no text is held before that.
pub proof fn lemma_encoding_waits_for_settlement(
    invocation: InvocationView,
    events: Seq<EventView>,
)
    ensures
        ({
            let s = run(initial(invocation), events);
            &&& pending_action(s) == (ActionView::Encode { value: ResultValue::Returned })
                ==> s.stage == Stage::Invoked && !s.promise
            &&& pending_action(s) == (ActionView::Encode { value: ResultValue::Settled })
                ==> s.stage == Stage::Drained && s.promise && s.settled
            &&& s.promise && !s.settled ==> s.text.len() == 0 && !(outcome_of(s) matches Some(
                Ok(_),
            ))
        }),
{
    lemma_run_is_consistent(invocation, events);
}

/// The settled flag is raised by nothing but a report that the awaited
/// promise was fulfilled, and the promise flag by nothing but a report that
/// the export returned a promise.
pub proof fn lemma_flags_follow_reports(s: SessionView, event: EventView)
    ensures
        step(s, event).settled && !s.settled ==> (event matches EventView::Settled(Ok(_)))
            && s.stage == Stage::Awaiting,
        step(s, event).promise && !s.promise ==> event == EventView::Invoked(Ok(true))
            && s.stage == Stage::CapabilitiesBuilt,
        step(s, event).stage == Stage::Drained && s.stage != Stage::Drained ==> event
            == EventView::JobRan(false) && s.stage == Stage::Awaiting && s.settled,
{
}

/// Whether a session has failed with the given kind and cause.
pub open spec fn failed_with(s: SessionView, kind: ErrorKind, detail: Seq<char>) -> bool {
    s.stage == Stage::Failed(kind) && s.detail == detail
}

/// Each stage fails with its own kind, and the cause reported by the driver
/// becomes the detail of the failure.
pub proof fn lemma_failure_kind_by_stage(s: SessionView, d: Seq<char>)
    ensures
        s.stage == Stage::Requested ==> failed_with(
            step(s, EventView::EngineCreated(Err(d))),
            ErrorKind::EngineError,
            d,
        ),
        s.stage == Stage::Created ==> failed_with(
            step(s, EventView::ShimsInstalled(Err(d))),
            ErrorKind::EngineError,
            d,
        ),
        s.stage == Stage::LoaderInstalled ==> failed_with(
            step(s, EventView::Declared(Err(d))),
            ErrorKind::Loading,
            d,
        ),
        s.stage == Stage::Declared ==> failed_with(
            step(s, EventView::Evaluated(Err(d))),
            ErrorKind::Evaluating,
            d,
        ),
        s.stage == Stage::JobsDrained ==> failed_with(
            step(s, EventView::ExportResolved(ExportLookupView::NoNamespace(d))),
            ErrorKind::GettingDefaultExport,
            d,
        ),
        s.stage == Stage::JobsDrained ==> failed_with(
            step(s, EventView::ExportResolved(ExportLookupView::NotCallable(d))),
            ErrorKind::GettingDefaultFunction,
            d,
        ),
        s.stage == Stage::ExportResolved ==> failed_with(
            step(s, EventView::InputParsed(Err(d))),
            ErrorKind::ParsingInputValues,
            d,
        ),
        s.stage == Stage::InputParsed ==> failed_with(
            step(s, EventView::CapabilitiesBuilt(Err(d))),
            ErrorKind::CallingModuleFunction,
            capabilities_failure_prefix() + d,
        ),
        s.stage == Stage::CapabilitiesBuilt ==> failed_with(
            step(s, EventView::Invoked(Err(d))),
            ErrorKind::CallingModuleFunction,
            d,
        ),
        s.stage == Stage::Awaiting && !s.settled ==> failed_with(
            step(s, EventView::Settled(Err(d))),
            ErrorKind::CallingModuleFunction,
            d,
        ),
        pending_action(s) is Encode ==> failed_with(
            step(s, EventView::Encoded(Err(d))),
            ErrorKind::NotStringifiable,
            d,
        ),
        pending_action(s) is Encode ==> failed_with(
            step(s, EventView::Encoded(Ok(None))),
            ErrorKind::NotStringifiable,
            Seq::empty(),
        ),
        under_way(s) ==> failed_with(
            step(s, EventView::EngineFailed(d)),
            ErrorKind::EngineError,
            d,
        ),
{
}

/// Failure is reachable from every state of an invocation that is under
/// way: whatever the stage, a failure of the interpreter ends it there.
pub proof fn lemma_failure_reachable_everywhere(s: SessionView)
    requires
        under_way(s),
    ensures
        exists|event: EventView| takes(s, event) && (#[trigger] step(s, event)).stage is Failed,
{
    let event = EventView::EngineFailed(Seq::empty());
    assert(takes(s, event) && step(s, event).stage is Failed);
}

/// One interpreter per invocation, released before the host hears of the
/// outcome. An interpreter comes to exist by nothing but the report that it
/// was constructed, taken at the very start; and in every run from a new
/// invocation, success or failure, no outcome is handed out while the
/// interpreter is still held.
pub proof fn lemma_engine_is_made_once_and_released(
    invocation: InvocationView,
    events: Seq<EventView>,
    event: EventView,
)
    ensures
        ({
            let s = run(initial(invocation), events);
            &&& outcome_of(s) is Some ==> !s.engine
            &&& step(s, event).engine && !s.engine ==> s.stage == Stage::Requested && (event
                matches EventView::EngineCreated(Ok(_)))
            &&& pending_action(s) is CreateEngine <==> s.stage == Stage::Requested
            &&& s.engine && !under_way(s) ==> pending_action(s) == ActionView::Teardown
        }),
{
    lemma_run_is_consistent(invocation, events);
}

/// What the interpreter is handed is what the host gave, unchanged. In
/// every run from a new invocation, the module is declared under the
/// invocation's module name from its source, the export looked up is its
/// method, the text parsed is its input, and the capabilities object is
/// built for its id over the ten capabilities and no other; the resolver
/// and the loader hold its peer table.
pub proof fn lemma_actions_carry_the_invocation(
    invocation: InvocationView,
    events: Seq<EventView>,
)
    ensures
        match pending_action(run(initial(invocation), events)) {
            ActionView::InstallLoader { paths, sources } => {
                &&& paths == peers_of(invocation).dom()
                &&& sources == peers_of(invocation).map_values(|t: Seq<char>| encode_utf8(t))
            },
            ActionView::Declare { name, source } => {
                &&& name == invocation.module_name
                &&& source == invocation.module_source
            },
            ActionView::ResolveExport { method } => method == invocation.method,
            ActionView::ParseInput { text } => text == invocation.input_json,
            ActionView::BuildCapabilities { invocation_id, capabilities } => {
                &&& invocation_id == invocation.invocation_id
                &&& capabilities == capability_list()
            },
            _ => true,
        },
{
    lemma_invocation_is_kept(initial(invocation), events);
}

/// The text that the encoder gives is the result, letter for letter: once
/// the value is serialized and the interpreter has gone idle, the host
/// receives exactly that text.
pub proof fn lemma_result_is_encoded_text(s: SessionView, text: Seq<char>)
    requires
        pending_action(s) is Encode,
    ensures
        outcome_of(
            run(s, seq![EventView::Encoded(Ok(Some(text))), EventView::TornDown]),
        ) == Some(Ok::<Seq<char>, ErrorView>(text)),
{
    let events = seq![EventView::Encoded(Ok(Some(text))), EventView::TornDown];
    assert(events.drop_last() =~= seq![EventView::Encoded(Ok(Some(text)))]);
    lemma_run_one(s, EventView::Encoded(Ok(Some(text))));
}

/// How one invocation goes in the world outside the session: what the
/// interpreter answers at each step, and how many jobs are pending at each
/// point where the queue is drained.
pub struct Course {
    pub engine: Result<(), Seq<char>>,
    pub shims: Result<(), Seq<char>>,
    pub declaration: Result<(), Seq<char>>,
    pub evaluation: Result<(), Seq<char>>,
    pub jobs_after_evaluation: nat,
    pub export: ExportLookupView,
    pub input: Result<(), Seq<char>>,
    pub capabilities: Result<(), Seq<char>>,
    pub call: Result<bool, Seq<char>>,
    pub jobs_before_await: nat,
    pub settlement: Result<(), Seq<char>>,
    pub jobs_after_settlement: nat,
    pub encoding: Result<Option<Seq<char>>, Seq<char>>,
}

/// A failure of the given kind, as an outcome.
pub open spec fn failure(kind: ErrorKind, detail: Seq<char>) -> Result<Seq<char>, ErrorView> {
    Err(ErrorView { kind, detail })
}

/// The reports of a driver that drains a queue of `jobs` pending jobs: one
/// report per job that ran, then the report that none is left.
pub open spec fn drain_reports(jobs: nat) -> Seq<EventView>
    decreases jobs,
{
    if jobs == 0 {
        seq![EventView::JobRan(false)]
    } else {
        seq![EventView::JobRan(true)] + drain_reports((jobs - 1) as nat)
    }
}

/// The reports from the call of the export to the encoding of its value.
pub open spec fn reports_from_call(c: Course) -> Seq<EventView> {
    seq![EventView::Invoked(c.call)] + (match c.call {
        Ok(true) => drain_reports(c.jobs_before_await) + seq![EventView::Settled(c.settlement)]
            + (if c.settlement is Ok {
            drain_reports(c.jobs_after_settlement) + seq![EventView::Encoded(c.encoding)]
        } else {
            Seq::empty()
        }),
        Ok(false) => seq![EventView::Encoded(c.encoding)],
        Err(_) => Seq::empty(),
    })
}

/// The reports from the lookup of the export on.
pub open spec fn reports_from_export(c: Course) -> Seq<EventView> {
    seq![EventView::ExportResolved(c.export)] + (if c.export is Found {
        seq![EventView::InputParsed(c.input)] + (if c.input is Ok {
            seq![EventView::CapabilitiesBuilt(c.capabilities)] + (if c.capabilities is Ok {
                reports_from_call(c)
            } else {
                Seq::empty()
            })
        } else {
            Seq::empty()
        })
    } else {
        Seq::empty()
    })
}

/// The reports from the declaration of the module on.
pub open spec fn reports_from_declaration(c: Course) -> Seq<EventView> {
    seq![EventView::Declared(c.declaration)] + (if c.declaration is Ok {
        seq![EventView::Evaluated(c.evaluation)] + (if c.evaluation is Ok {
            drain_reports(c.jobs_after_evaluation) + reports_from_export(c)
        } else {
            Seq::empty()
        })
    } else {
        Seq::empty()
    })
}

/// The reports on the work of an invocation: the driver performs each
/// pending action in turn, up to the encoding of the result or to the
/// first failure.
pub open spec fn work_reports(c: Course) -> Seq<EventView> {
    seq![EventView::EngineCreated(c.engine)] + (if c.engine is Ok {
        seq![EventView::ShimsInstalled(c.shims)] + (if c.shims is Ok {
            seq![EventView::LoaderInstalled] + reports_from_declaration(c)
        } else {
            Seq::empty()
        })
    } else {
        Seq::empty()
    })
}

/// Everything that a driver reports in the given course: its work, and
/// then, where an interpreter was made, that it has been released.
pub open spec fn reports(c: Course) -> Seq<EventView> {
    work_reports(c) + (if c.engine is Ok {
        seq![EventView::TornDown]
    } else {
        Seq::empty()
    })
}

/// What the host is owed from the call of the export on.
pub open spec fn result_of_call(c: Course) -> Result<Seq<char>, ErrorView> {
    match c.call {
        Err(d) => failure(ErrorKind::CallingModuleFunction, d),
        Ok(false) => encoded_text(c.encoding),
        Ok(true) => match c.settlement {
            Err(d) => failure(ErrorKind::CallingModuleFunction, d),
            Ok(_) => encoded_text(c.encoding),
        },
    }
}

/// What the host is owed from the lookup of the export on.
pub open spec fn result_of_export(c: Course) -> Result<Seq<char>, ErrorView> {
    match c.export {
        ExportLookupView::NoNamespace(d) => failure(ErrorKind::GettingDefaultExport, d),
        ExportLookupView::NotCallable(d) => failure(ErrorKind::GettingDefaultFunction, d),
        ExportLookupView::Found => match c.input {
            Err(d) => failure(ErrorKind::ParsingInputValues, d),
            Ok(_) => match c.capabilities {
                Err(d) => failure(
                    ErrorKind::CallingModuleFunction,
                    capabilities_failure_prefix() + d,
                ),
                Ok(_) => result_of_call(c),
            },
        },
    }
}

/// What the host is owed from the declaration of the module on.
pub open spec fn result_of_declaration(c: Course) -> Result<Seq<char>, ErrorView> {
    match c.declaration {
        Err(d) => failure(ErrorKind::Loading, d),
        Ok(_) => match c.evaluation {
            Err(d) => failure(ErrorKind::Evaluating, d),
            Ok(_) => result_of_export(c),
        },
    }
}

/// What the host is owed in the given course: the failure of the first
/// stage that fails, tagged with the kind of that stage, or else the text
/// that the encoder gave.
pub open spec fn result_of(c: Course) -> Result<Seq<char>, ErrorView> {
    match c.engine {
        Err(d) => failure(ErrorKind::EngineError, d),
        Ok(_) => match c.shims {
            Err(d) => failure(ErrorKind::EngineError, d),
            Ok(_) => result_of_declaration(c),
        },
    }
}

/// Whether the work of an invocation has left the session where `result`
/// says: serialized with the text, or failed with the kind and the cause,
/// and in either case with the interpreter still to be released.
pub open spec fn worked_out(s: SessionView, result: Result<Seq<char>, ErrorView>) -> bool {
    &&& s.engine
    &&& match result {
        Ok(text) => s.stage == Stage::Serialized && s.text == text,
        Err(e) => failed_with(s, e.kind, e.detail),
    }
}

/// Running a sequence that begins with `event` is taking that step and
/// running the rest.
pub proof fn lemma_run_cons(s: SessionView, event: EventView, rest: Seq<EventView>)
    ensures
        run(s, seq![event] + rest) == run(step(s, event), rest),
{
    lemma_run_concat(s, seq![event], rest);
    lemma_run_one(s, event);
}

/// Draining is a loop that ends with the queue empty: while jobs run the
/// session stays where it is, and the report that none is left moves it on.
/// On an empty queue that single report is all there is.
pub proof fn lemma_drain_reaches_next(s: SessionView, jobs: nat)
    requires
        pending_action(s) == ActionView::RunPendingJob,
    ensures
        run(s, drain_reports(jobs)) == step(s, EventView::JobRan(false)),
        run(s, drain_reports(jobs)).stage == (match s.stage {
            Stage::Evaluated => Stage::JobsDrained,
            Stage::Invoked => Stage::Awaiting,
            _ => Stage::Drained,
        }),
    decreases jobs,
{
    if jobs == 0 {
        lemma_run_one(s, EventView::JobRan(false));
    } else {
        lemma_run_cons(s, EventView::JobRan(true), drain_reports((jobs - 1) as nat));
        lemma_drain_reaches_next(s, (jobs - 1) as nat);
    }
}

proof fn lemma_course_from_call(s: SessionView, c: Course)
    requires
        s.stage == Stage::CapabilitiesBuilt,
        s.engine,
        !s.promise,
        !s.settled,
    ensures
        worked_out(run(s, reports_from_call(c)), result_of_call(c)),
{
    let s1 = step(s, EventView::Invoked(c.call));
    let last = seq![EventView::Encoded(c.encoding)];
    match c.call {
        Ok(true) => {
            let tail = if c.settlement is Ok {
                drain_reports(c.jobs_after_settlement) + last
            } else {
                Seq::empty()
            };
            let rest = drain_reports(c.jobs_before_await) + seq![EventView::Settled(c.settlement)]
                + tail;
            lemma_run_cons(s, EventView::Invoked(c.call), rest);
            assert(rest =~= drain_reports(c.jobs_before_await) + (seq![
                EventView::Settled(c.settlement),
            ] + tail));
            lemma_run_concat(
                s1,
                drain_reports(c.jobs_before_await),
                seq![EventView::Settled(c.settlement)] + tail,
            );
            lemma_drain_reaches_next(s1, c.jobs_before_await);
            let s2 = run(s1, drain_reports(c.jobs_before_await));
            lemma_run_cons(s2, EventView::Settled(c.settlement), tail);
            let s3 = step(s2, EventView::Settled(c.settlement));
            if c.settlement is Ok {
                lemma_run_concat(s3, drain_reports(c.jobs_after_settlement), last);
                lemma_drain_reaches_next(s3, c.jobs_after_settlement);
                lemma_run_one(
                    run(s3, drain_reports(c.jobs_after_settlement)),
                    EventView::Encoded(c.encoding),
                );
            }
        },
        Ok(false) => {
            lemma_run_cons(s, EventView::Invoked(c.call), last);
            lemma_run_one(s1, EventView::Encoded(c.encoding));
        },
        Err(_) => {
            lemma_run_cons(s, EventView::Invoked(c.call), Seq::empty());
        },
    }
}

proof fn lemma_course_from_export(s: SessionView, c: Course)
    requires
        s.stage == Stage::JobsDrained,
        s.engine,
        !s.promise,
        !s.settled,
    ensures
        worked_out(run(s, reports_from_export(c)), result_of_export(c)),
{
    let s1 = step(s, EventView::ExportResolved(c.export));
    if c.export is Found {
        let after_input = if c.input is Ok {
            seq![EventView::CapabilitiesBuilt(c.capabilities)] + (if c.capabilities is Ok {
                reports_from_call(c)
            } else {
                Seq::empty()
            })
        } else {
            Seq::empty()
        };
        lemma_run_cons(
            s,
            EventView::ExportResolved(c.export),
            seq![EventView::InputParsed(c.input)] + after_input,
        );
        lemma_run_cons(s1, EventView::InputParsed(c.input), after_input);
        let s2 = step(s1, EventView::InputParsed(c.input));
        if c.input is Ok {
            let after_capabilities = if c.capabilities is Ok {
                reports_from_call(c)
            } else {
                Seq::empty()
            };
            lemma_run_cons(s2, EventView::CapabilitiesBuilt(c.capabilities), after_capabilities);
            let s3 = step(s2, EventView::CapabilitiesBuilt(c.capabilities));
            if c.capabilities is Ok {
                lemma_course_from_call(s3, c);
            }
        }
    } else {
        lemma_run_cons(s, EventView::ExportResolved(c.export), Seq::empty());
    }
}

proof fn lemma_course_from_declaration(s: SessionView, c: Course)
    requires
        s.stage == Stage::LoaderInstalled,
        s.engine,
        !s.promise,
        !s.settled,
    ensures
        worked_out(run(s, reports_from_declaration(c)), result_of_declaration(c)),
{
    let s1 = step(s, EventView::Declared(c.declaration));
    if c.declaration is Ok {
        let after_evaluation = if c.evaluation is Ok {
            drain_reports(c.jobs_after_evaluation) + reports_from_export(c)
        } else {
            Seq::empty()
        };
        lemma_run_cons(
            s,
            EventView::Declared(c.declaration),
            seq![EventView::Evaluated(c.evaluation)] + after_evaluation,
        );
        lemma_run_cons(s1, EventView::Evaluated(c.evaluation), after_evaluation);
        let s2 = step(s1, EventView::Evaluated(c.evaluation));
        if c.evaluation is Ok {
            lemma_run_concat(s2, drain_reports(c.jobs_after_evaluation), reports_from_export(c));
            lemma_drain_reaches_next(s2, c.jobs_after_evaluation);
            lemma_course_from_export(run(s2, drain_reports(c.jobs_after_evaluation)), c);
        }
    } else {
        lemma_run_cons(s, EventView::Declared(c.declaration), Seq::empty());
    }
}

/// The work of an invocation leaves the session serialized or failed as the
/// course has it, with the interpreter still held; where no interpreter
/// could be made, the invocation has failed and holds none.
pub proof fn lemma_course_work(invocation: InvocationView, c: Course)
    ensures
        c.engine is Ok ==> worked_out(run(initial(invocation), work_reports(c)), result_of(c)),
        c.engine is Err ==> outcome_of(run(initial(invocation), work_reports(c))) == Some(
            result_of(c),
        ),
{
    let s = initial(invocation);
    let s1 = step(s, EventView::EngineCreated(c.engine));
    if c.engine is Ok {
        let after_shims = if c.shims is Ok {
            seq![EventView::LoaderInstalled] + reports_from_declaration(c)
        } else {
            Seq::empty()
        };
        lemma_run_cons(
            s,
            EventView::EngineCreated(c.engine),
            seq![EventView::ShimsInstalled(c.shims)] + after_shims,
        );
        lemma_run_cons(s1, EventView::ShimsInstalled(c.shims), after_shims);
        let s2 = step(s1, EventView::ShimsInstalled(c.shims));
        if c.shims is Ok {
            lemma_run_cons(s2, EventView::LoaderInstalled, reports_from_declaration(c));
            lemma_course_from_declaration(step(s2, EventView::LoaderInstalled), c);
        }
    } else {
        lemma_run_cons(s, EventView::EngineCreated(c.engine), Seq::empty());
    }
}

/// The whole pipeline, end to end. Whatever the invocation and however its
/// course goes, a driver that performs each pending action and reports back
/// leaves the session ended and its interpreter released, and the host
/// receives the failure of the first stage that failed, under the kind of
/// that stage, or else exactly the text that the encoder gave for the
/// returned value or, where the export returned a promise, for the value
/// it settled to.
pub proof fn lemma_course_outcome(invocation: InvocationView, c: Course)
    ensures
        outcome_of(run(initial(invocation), reports(c))) == Some(result_of(c)),
        !run(initial(invocation), reports(c)).engine,
{
    lemma_course_work(invocation, c);
    if c.engine is Ok {
        lemma_run_concat(initial(invocation), work_reports(c), seq![EventView::TornDown]);
        lemma_run_one(run(initial(invocation), work_reports(c)), EventView::TornDown);
    } else {
        assert(reports(c) =~= work_reports(c));
    }
}

/// Whether every step of a course up to the encoding succeeds, with the
/// export returning a plain value or a promise that is fulfilled.
pub open spec fn runs_to_encoding(c: Course) -> bool {
    &&& c.engine is Ok
    &&& c.shims is Ok
    &&& c.declaration is Ok
    &&& c.evaluation is Ok
    &&& c.export is Found
    &&& c.input is Ok
    &&& c.capabilities is Ok
    &&& c.call is Ok
    &&& c.call == Ok::<bool, Seq<char>>(true) ==> c.settlement is Ok
}

/// The round trip of the input, as far as the session holds it. Where every
/// step succeeds and the encoder gives back for the final value the very
/// text that the invocation brought as its input, as it does for an export
/// that returns its input wherever the interpreter's decoder and encoder
/// undo each other, the host receives that input, letter for letter: the
/// session puts nothing between the input and the decoder, and nothing
/// between the encoder and the host.
pub proof fn lemma_round_trip_where_encoder_gives_input_back(
    invocation: InvocationView,
    c: Course,
)
    requires
        runs_to_encoding(c),
        c.encoding == Ok::<Option<Seq<char>>, Seq<char>>(Some(invocation.input_json)),
    ensures
        outcome_of(run(initial(invocation), reports(c))) == Some(
            Ok::<Seq<char>, ErrorView>(invocation.input_json),
        ),
{
    lemma_course_outcome(invocation, c);
}

} // verus!
