//! What holds of every capability call, whatever the driver reports.

use crate::bridge::call_answers;
use crate::bridge::call_outcome;
use crate::bridge::call_pending;
use crate::bridge::call_start;
use crate::bridge::call_step;
use crate::bridge::after_drain;
use crate::bridge::decoded_reply;
use crate::bridge::ReplyValue;
use crate::bridge::BridgeActionView;
use crate::bridge::BridgeEventView;
use crate::bridge::BridgeStage;
use crate::bridge::CallView;
use crate::capability::Capability;
use crate::error::ErrorKind;
use crate::error::ErrorView;
use vstd::prelude::*;

verus! {

/// One call of a host function: which one, for which invocation, on what.
pub struct HostCall {
    pub capability: Capability,
    pub invocation_id: Seq<char>,
    pub payload: Seq<char>,
}

/// The call after a sequence of events, taken one by one.
pub open spec fn call_run(c: CallView, events: Seq<BridgeEventView>) -> CallView
    decreases events.len(),
{
    if events.len() == 0 {
        c
    } else {
        call_step(call_run(c, events.drop_last()), events.last())
    }
}

/// The host calls made in a run: one for each time the host was to be
/// called and the driver reported its answer.
pub open spec fn host_calls(c: CallView, events: Seq<BridgeEventView>) -> Seq<HostCall>
    decreases events.len(),
{
    if events.len() == 0 {
        Seq::empty()
    } else {
        let before = call_run(c, events.drop_last());
        let earlier = host_calls(c, events.drop_last());
        if before.stage == BridgeStage::Calling && events.last() is HostReplied {
            earlier.push(
                HostCall {
                    capability: before.capability,
                    invocation_id: before.invocation_id,
                    payload: before.payload,
                },
            )
        } else {
            earlier
        }
    }
}

/// Whether the host has been called at the given stage of a call.
pub open spec fn host_was_called(stage: BridgeStage) -> bool {
    match stage {
        BridgeStage::Encoding => false,
        BridgeStage::Calling => false,
        BridgeStage::Draining => true,
        BridgeStage::Decoding => true,
        BridgeStage::Returned(_) => true,
        BridgeStage::Failed(_) => false,
    }
}

/// A report on anything but the pending action changes nothing.
pub proof fn lemma_unrelated_report_changes_nothing(c: CallView, event: BridgeEventView)
    requires
        !call_answers(call_pending(c), event),
    ensures
        call_step(c, event) == c,
{
}

/// An ended call stays ended.
pub proof fn lemma_call_outcome_is_final(c: CallView, events: Seq<BridgeEventView>)
    requires
        call_outcome(c) is Some,
    ensures
        call_run(c, events) == c,
    decreases events.len(),
{
    if events.len() > 0 {
        lemma_call_outcome_is_final(c, events.drop_last());
    }
}

/// Exactly one host call per capability call. In every run of a call of
/// `capability` within the invocation `invocation_id`, the host is called
/// at most once; it has been called exactly once as soon as the call has
/// gone past the host, and that one call went to the function bound to
/// `capability`, with that invocation id and with the encoded payload.
/// Before the payload is encoded, and where it cannot be encoded, the host
/// is not called at all.
pub proof fn lemma_exactly_one_host_call(
    capability: Capability,
    invocation_id: Seq<char>,
    events: Seq<BridgeEventView>,
)
    ensures
        ({
            let start = call_start(capability, invocation_id);
            let end = call_run(start, events);
            let calls = host_calls(start, events);
            &&& end.capability == capability
            &&& end.invocation_id == invocation_id
            &&& calls.len() <= 1
            &&& host_was_called(end.stage) <==> calls.len() == 1
            &&& calls.len() == 1 ==> calls[0] == (HostCall {
                capability,
                invocation_id,
                payload: end.payload,
            })
            &&& end.stage == BridgeStage::Encoding ==> end.payload.len() == 0
            &&& end.stage is Failed ==> end.stage == BridgeStage::Failed(
                ErrorKind::NotStringifiable,
            )
        }),
    decreases events.len(),
{
    if events.len() > 0 {
        lemma_exactly_one_host_call(capability, invocation_id, events.drop_last());
    }
}

/// Once the payload is encoded the call cannot fail. Whatever the driver
/// reports from there on, and whatever the host answers, the call never
/// ends in a failure: the script's promise is not rejected on account of
/// the host.
pub proof fn lemma_no_failure_after_encoding(c: CallView, events: Seq<BridgeEventView>)
    requires
        c.stage != BridgeStage::Encoding,
        !(c.stage is Failed),
    ensures
        call_run(c, events).stage != BridgeStage::Encoding,
        !(call_run(c, events).stage is Failed),
    decreases events.len(),
{
    if events.len() > 0 {
        lemma_no_failure_after_encoding(c, events.drop_last());
    }
}

/// A host that gives no text leaves the script with the empty value: after
/// an absent answer the decoder is never asked, and as soon as the queue is
/// found empty the call has returned the empty value.
pub proof fn lemma_absent_answer_gives_default(c: CallView, jobs: nat)
    requires
        c.stage == BridgeStage::Calling,
    ensures
        call_outcome(
            call_run(
                call_step(c, BridgeEventView::HostReplied(None)),
                call_drain_reports(jobs),
            ),
        ) == Some(Ok::<ReplyValue, ErrorView>(ReplyValue::Default)),
{
    lemma_call_drain(call_step(c, BridgeEventView::HostReplied(None)), jobs);
}

/// A text that is no JSON leaves the script with the empty value as well:
/// the decoder's failure does not fail the call.
pub proof fn lemma_malformed_answer_gives_default(c: CallView, cause: Seq<char>)
    requires
        c.stage == BridgeStage::Decoding,
    ensures
        call_outcome(call_step(c, BridgeEventView::Decoded(Err(cause)))) == Some(
            Ok::<ReplyValue, ErrorView>(ReplyValue::Default),
        ),
{
}

/// The payload that the host receives is the text that the encoder gave for
/// the script's value, letter for letter.
pub proof fn lemma_host_receives_encoded_payload(
    capability: Capability,
    invocation_id: Seq<char>,
    payload: Seq<char>,
)
    ensures
        call_pending(
            call_step(
                call_start(capability, invocation_id),
                BridgeEventView::Encoded(Ok(Some(payload))),
            ),
        ) == (BridgeActionView::CallHost { capability, invocation_id, payload }),
{
}

/// How one capability call goes in the world outside the bridge.
pub struct CallCourse {
    pub encoding: Result<Option<Seq<char>>, Seq<char>>,
    pub reply: Option<Seq<char>>,
    pub jobs_after_reply: nat,
    pub decoding: Result<(), Seq<char>>,
}

/// The reports of a driver that drains a queue of `jobs` pending jobs.
pub open spec fn call_drain_reports(jobs: nat) -> Seq<BridgeEventView>
    decreases jobs,
{
    if jobs == 0 {
        seq![BridgeEventView::JobRan(false)]
    } else {
        seq![BridgeEventView::JobRan(true)] + call_drain_reports((jobs - 1) as nat)
    }
}

/// Everything that a driver reports in the given course of a call: it
/// performs each pending action in turn and stops where the call ends.
pub open spec fn call_reports(course: CallCourse) -> Seq<BridgeEventView> {
    seq![BridgeEventView::Encoded(course.encoding)] + (if course.encoding matches Ok(Some(_)) {
        seq![BridgeEventView::HostReplied(course.reply)] + call_drain_reports(
            course.jobs_after_reply,
        ) + (if course.reply is Some {
            seq![BridgeEventView::Decoded(course.decoding)]
        } else {
            Seq::empty()
        })
    } else {
        Seq::empty()
    })
}

/// Running one sequence of events after another is running them joined.
pub proof fn lemma_call_run_concat(
    c: CallView,
    first: Seq<BridgeEventView>,
    second: Seq<BridgeEventView>,
)
    ensures
        call_run(c, first + second) == call_run(call_run(c, first), second),
    decreases second.len(),
{
    if second.len() == 0 {
        assert(first + second =~= first);
    } else {
        assert((first + second).drop_last() =~= first + second.drop_last());
        assert((first + second).last() == second.last());
        lemma_call_run_concat(c, first, second.drop_last());
    }
}

/// Running a sequence that begins with `event` is taking that step and
/// running the rest.
pub proof fn lemma_call_run_cons(c: CallView, event: BridgeEventView, rest: Seq<BridgeEventView>)
    ensures
        call_run(c, seq![event] + rest) == call_run(call_step(c, event), rest),
{
    lemma_call_run_concat(c, seq![event], rest);
    assert(seq![event].drop_last() =~= Seq::<BridgeEventView>::empty());
    assert(call_run(c, seq![event].drop_last()) == c);
}

/// Draining after the host has answered ends with the queue empty and the
/// answer untouched, however many jobs were pending; on an empty queue the
/// one report that none is left is all there is.
pub proof fn lemma_call_drain(c: CallView, jobs: nat)
    requires
        c.stage == BridgeStage::Draining,
    ensures
        call_run(c, call_drain_reports(jobs)) == (CallView { stage: after_drain(c.reply), ..c }),
    decreases jobs,
{
    if jobs == 0 {
        lemma_call_run_cons(c, BridgeEventView::JobRan(false), Seq::empty());
        assert(seq![BridgeEventView::JobRan(false)] + Seq::<BridgeEventView>::empty() =~= seq![
            BridgeEventView::JobRan(false),
        ]);
    } else {
        lemma_call_run_cons(
            c,
            BridgeEventView::JobRan(true),
            call_drain_reports((jobs - 1) as nat),
        );
        lemma_call_drain(c, (jobs - 1) as nat);
    }
}

/// What the script receives in a course whose payload can be encoded: the
/// decoded value where the host gave a text that is JSON, the empty value
/// where it gave none or one that is no JSON.
pub open spec fn value_of_course(course: CallCourse) -> ReplyValue {
    match course.reply {
        Some(_) => decoded_reply(course.decoding),
        None => ReplyValue::Default,
    }
}

/// One capability call, end to end, for each of the ten capabilities. The
/// host is handed the invocation id and the encoded payload; the decoder is
/// handed the host's text as it came; and the script receives the decoded
/// value, or the empty value where the host gave no usable text. The call
/// fails only where the payload cannot be encoded, before the host is
/// called.
pub proof fn lemma_call_course(capability: Capability, invocation_id: Seq<char>, course: CallCourse)
    ensures
        ({
            let end = call_run(call_start(capability, invocation_id), call_reports(course));
            match course.encoding {
                Ok(Some(payload)) => {
                    &&& end.payload == payload
                    &&& end.reply == course.reply
                    &&& call_outcome(end) == Some(
                        Ok::<ReplyValue, ErrorView>(value_of_course(course)),
                    )
                },
                Ok(None) => call_outcome(end) == Some(
                    Err::<ReplyValue, ErrorView>(
                        ErrorView { kind: ErrorKind::NotStringifiable, detail: Seq::empty() },
                    ),
                ),
                Err(d) => call_outcome(end) == Some(
                    Err::<ReplyValue, ErrorView>(
                        ErrorView { kind: ErrorKind::NotStringifiable, detail: d },
                    ),
                ),
            }
        }),
{
    let c0 = call_start(capability, invocation_id);
    let c1 = call_step(c0, BridgeEventView::Encoded(course.encoding));
    if course.encoding matches Ok(Some(_)) {
        let drain = call_drain_reports(course.jobs_after_reply);
        let last = if course.reply is Some {
            seq![BridgeEventView::Decoded(course.decoding)]
        } else {
            Seq::empty()
        };
        let rest = seq![BridgeEventView::HostReplied(course.reply)] + drain + last;
        lemma_call_run_cons(c0, BridgeEventView::Encoded(course.encoding), rest);
        assert(rest =~= seq![BridgeEventView::HostReplied(course.reply)] + (drain + last));
        lemma_call_run_cons(c1, BridgeEventView::HostReplied(course.reply), drain + last);
        let c2 = call_step(c1, BridgeEventView::HostReplied(course.reply));
        lemma_call_run_concat(c2, drain, last);
        lemma_call_drain(c2, course.jobs_after_reply);
        let c3 = call_run(c2, drain);
        if course.reply is Some {
            lemma_call_run_cons(c3, BridgeEventView::Decoded(course.decoding), Seq::empty());
            assert(last + Seq::<BridgeEventView>::empty() =~= last);
        }
    } else {
        lemma_call_run_cons(c0, BridgeEventView::Encoded(course.encoding), Seq::empty());
        assert(seq![BridgeEventView::Encoded(course.encoding)] + Seq::<BridgeEventView>::empty()
            =~= seq![BridgeEventView::Encoded(course.encoding)]);
    }
}

/// In the course of a call whose payload can be encoded, the host is called
/// exactly once.
pub proof fn lemma_call_course_calls_host_once(
    capability: Capability,
    invocation_id: Seq<char>,
    course: CallCourse,
)
    requires
        course.encoding matches Ok(Some(_)),
    ensures
        host_calls(call_start(capability, invocation_id), call_reports(course)) == seq![
            HostCall { capability, invocation_id, payload: course.encoding->Ok_0->Some_0 },
        ],
{
    lemma_call_course(capability, invocation_id, course);
    lemma_exactly_one_host_call(capability, invocation_id, call_reports(course));
    let calls = host_calls(call_start(capability, invocation_id), call_reports(course));
    assert(calls =~= seq![
        HostCall { capability, invocation_id, payload: course.encoding->Ok_0->Some_0 },
    ]);
}

} // verus!
