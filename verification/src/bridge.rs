//! The capability bridge: one call from a script to the host, as a state
//! machine.
//!
//! A call crosses the trust boundary as JSON text tagged with the invocation
//! id. The bridge has the payload encoded, has the host called once with the
//! id and the encoded text, has the interpreter's job queue drained after
//! the host has answered, and has the answer decoded for the script. Once
//! the host has been called the bridge does not fail: where the host gives
//! no usable text, none at all or one that is no JSON, the script sees the
//! empty value.

use crate::capability::capability_named;
use crate::capability::Capability;
use crate::codec::encoded_text;
use crate::codec::encoding_view;
use crate::codec::to_text;
use crate::error::Error;
use crate::error::ErrorKind;
use crate::error::ErrorView;
use vstd::prelude::*;

verus! {

/// The text that a host answer stands for: the answer itself, or the empty
/// text where the host gave none.
pub open spec fn reply_text_spec(reply: Option<Seq<char>>) -> Seq<char> {
    match reply {
        Some(text) => text,
        None => Seq::empty(),
    }
}

/// The text that a host answer stands for, where a binding hands the answer
/// on as text: the answer itself, or the empty text where the host gave
/// none. An absent answer is no failure.
pub fn reply_text(reply: Option<String>) -> (text: String)
    ensures
        text@ == reply_text_spec(
            match reply {
                Some(s) => Some(s@),
                None => None,
            },
        ),
{
    match reply {
        Some(s) => s,
        None => String::new(),
    }
}

/// What the script receives from a call that returns.
#[derive(Clone, Copy, Debug, PartialEq, Eq, Structural)]
pub enum ReplyValue {
    /// The value that the host's text was decoded to.
    Decoded,
    /// The empty value, `null`: the host gave no usable text.
    Default,
}

/// How far a capability call has come.
#[derive(Clone, Copy, Debug, PartialEq, Eq, Structural)]
pub enum BridgeStage {
    /// The payload is being encoded.
    Encoding,
    /// The host is being called.
    Calling,
    /// The host has answered; pending jobs are being run.
    Draining,
    /// The answer is being decoded.
    Decoding,
    /// The call has returned; the script has the value.
    Returned(ReplyValue),
    /// The payload could not be encoded; the script sees the failure
    /// thrown.
    Failed(ErrorKind),
}

/// What the driver reports back to the bridge.
pub enum BridgeEvent {
    /// The payload was encoded: to a text, to nothing, or the encoder threw.
    Encoded(Result<Option<String>, String>),
    /// The host function has resumed, with a text or with nothing usable.
    HostReplied(Option<String>),
    /// One pending job was looked for: `true` if one ran, `false` if the
    /// queue was empty.
    JobRan(bool),
    /// The answer was decoded, or is not JSON.
    Decoded(Result<(), String>),
}

/// What the driver is to do next for the call.
pub enum BridgeAction {
    /// Encode the script's payload as JSON text.
    EncodePayload,
    /// Call the host function bound to `capability` with the id and the
    /// encoded payload, and wait for it.
    CallHost { capability: Capability, invocation_id: String, payload: String },
    /// Run one pending job of the interpreter, if there is one.
    RunPendingJob,
    /// Decode `text` and give the value to the script.
    DecodeReply { text: String },
    /// Nothing is left to do: the outcome stands.
    Finish,
}

/// A bridge event as contracts see it.
pub enum BridgeEventView {
    Encoded(Result<Option<Seq<char>>, Seq<char>>),
    HostReplied(Option<Seq<char>>),
    JobRan(bool),
    Decoded(Result<(), Seq<char>>),
}

impl View for BridgeEvent {
    type V = BridgeEventView;

    open spec fn view(&self) -> BridgeEventView {
        match self {
            BridgeEvent::Encoded(r) => BridgeEventView::Encoded(encoding_view(*r)),
            BridgeEvent::HostReplied(r) => BridgeEventView::HostReplied(
                match r {
                    Some(t) => Some(t@),
                    None => None,
                },
            ),
            BridgeEvent::JobRan(ran) => BridgeEventView::JobRan(*ran),
            BridgeEvent::Decoded(r) => BridgeEventView::Decoded(
                match r {
                    Ok(_) => Ok(()),
                    Err(d) => Err(d@),
                },
            ),
        }
    }
}

/// A bridge action as contracts see it.
pub enum BridgeActionView {
    EncodePayload,
    CallHost { capability: Capability, invocation_id: Seq<char>, payload: Seq<char> },
    RunPendingJob,
    DecodeReply { text: Seq<char> },
    Finish,
}

impl View for BridgeAction {
    type V = BridgeActionView;

    open spec fn view(&self) -> BridgeActionView {
        match self {
            BridgeAction::EncodePayload => BridgeActionView::EncodePayload,
            BridgeAction::CallHost { capability, invocation_id, payload } => BridgeActionView::CallHost {
                capability: *capability,
                invocation_id: invocation_id@,
                payload: payload@,
            },
            BridgeAction::RunPendingJob => BridgeActionView::RunPendingJob,
            BridgeAction::DecodeReply { text } => BridgeActionView::DecodeReply { text: text@ },
            BridgeAction::Finish => BridgeActionView::Finish,
        }
    }
}

/// Whether performing an action of a call may suspend the invocation on
/// work outside the interpreter. Only the call of the host does.
pub open spec fn call_may_suspend(action: BridgeActionView) -> bool {
    action is CallHost
}

impl BridgeAction {
    /// Whether performing the action may suspend the invocation.
    pub fn suspends(&self) -> (suspends: bool)
        ensures
            suspends == call_may_suspend(self@),
    {
        match self {
            BridgeAction::CallHost { .. } => true,
            _ => false,
        }
    }
}

/// A capability call as contracts see it.
pub struct CallView {
    /// The capability that the script invoked.
    pub capability: Capability,
    /// The id of the invocation that the script runs in.
    pub invocation_id: Seq<char>,
    /// How far the call has come.
    pub stage: BridgeStage,
    /// The encoded payload; empty until the payload is encoded.
    pub payload: Seq<char>,
    /// The text that the host answered with; `None` until it has answered
    /// and where it gave none.
    pub reply: Option<Seq<char>>,
    /// The cause of the failure; empty unless the call failed.
    pub detail: Seq<char>,
}

/// A call that has just been made by the script.
pub open spec fn call_start(capability: Capability, invocation_id: Seq<char>) -> CallView {
    CallView {
        capability,
        invocation_id,
        stage: BridgeStage::Encoding,
        payload: Seq::empty(),
        reply: None,
        detail: Seq::empty(),
    }
}

/// The action that a call waits to have performed.
pub open spec fn call_pending(c: CallView) -> BridgeActionView {
    match c.stage {
        BridgeStage::Encoding => BridgeActionView::EncodePayload,
        BridgeStage::Calling => BridgeActionView::CallHost {
            capability: c.capability,
            invocation_id: c.invocation_id,
            payload: c.payload,
        },
        BridgeStage::Draining => BridgeActionView::RunPendingJob,
        BridgeStage::Decoding => BridgeActionView::DecodeReply { text: reply_text_spec(c.reply) },
        BridgeStage::Returned(_) => BridgeActionView::Finish,
        BridgeStage::Failed(_) => BridgeActionView::Finish,
    }
}

/// Whether an event reports on the given action of a call.
pub open spec fn call_answers(action: BridgeActionView, event: BridgeEventView) -> bool {
    match (action, event) {
        (BridgeActionView::EncodePayload, BridgeEventView::Encoded(_)) => true,
        (BridgeActionView::CallHost { .. }, BridgeEventView::HostReplied(_)) => true,
        (BridgeActionView::RunPendingJob, BridgeEventView::JobRan(_)) => true,
        (BridgeActionView::DecodeReply { .. }, BridgeEventView::Decoded(_)) => true,
        _ => false,
    }
}

/// The call ended by a failure of the given kind with the given cause.
pub open spec fn call_failed(c: CallView, kind: ErrorKind, detail: Seq<char>) -> CallView {
    CallView { stage: BridgeStage::Failed(kind), detail, ..c }
}

/// Where a call stands once the queue is empty after the host's answer: a
/// text goes to the decoder; without one the call returns the empty value.
pub open spec fn after_drain(reply: Option<Seq<char>>) -> BridgeStage {
    match reply {
        Some(_) => BridgeStage::Decoding,
        None => BridgeStage::Returned(ReplyValue::Default),
    }
}

/// What the script receives once the decoder has answered: the decoded
/// value, or the empty value where the host's text is no JSON.
pub open spec fn decoded_reply(answer: Result<(), Seq<char>>) -> ReplyValue {
    match answer {
        Ok(_) => ReplyValue::Decoded,
        Err(_) => ReplyValue::Default,
    }
}

/// The transition function of a call. An event that does not report on the
/// pending action changes nothing.
pub open spec fn call_step(c: CallView, event: BridgeEventView) -> CallView {
    match (c.stage, event) {
        (BridgeStage::Encoding, BridgeEventView::Encoded(r)) => match encoded_text(r) {
            Ok(text) => CallView { stage: BridgeStage::Calling, payload: text, ..c },
            Err(e) => call_failed(c, e.kind, e.detail),
        },
        (BridgeStage::Calling, BridgeEventView::HostReplied(r)) => CallView {
            stage: BridgeStage::Draining,
            reply: r,
            ..c
        },
        (BridgeStage::Draining, BridgeEventView::JobRan(ran)) => if ran {
            c
        } else {
            CallView { stage: after_drain(c.reply), ..c }
        },
        (BridgeStage::Decoding, BridgeEventView::Decoded(r)) => CallView {
            stage: BridgeStage::Returned(decoded_reply(r)),
            ..c
        },
        _ => c,
    }
}

/// What the script sees of the call: nothing while it runs, then the value
/// it receives or the failure thrown.
pub open spec fn call_outcome(c: CallView) -> Option<Result<ReplyValue, ErrorView>> {
    match c.stage {
        BridgeStage::Returned(value) => Some(Ok(value)),
        BridgeStage::Failed(kind) => Some(Err(ErrorView { kind, detail: c.detail })),
        _ => None,
    }
}

/// One call of a capability by a script.
pub struct CapabilityCall {
    capability: Capability,
    invocation_id: String,
    stage: BridgeStage,
    payload: String,
    reply: Option<String>,
    detail: String,
}

impl View for CapabilityCall {
    type V = CallView;

    closed spec fn view(&self) -> CallView {
        CallView {
            capability: self.capability,
            invocation_id: self.invocation_id@,
            stage: self.stage,
            payload: self.payload@,
            reply: match self.reply {
                Some(text) => Some(text@),
                None => None,
            },
            detail: self.detail@,
        }
    }
}

impl CapabilityCall {
    /// A call of `capability` made within the invocation `invocation_id`.
    pub fn new(capability: Capability, invocation_id: &str) -> (call: CapabilityCall)
        ensures
            call@ == call_start(capability, invocation_id@),
    {
        CapabilityCall {
            capability,
            invocation_id: String::from_str(invocation_id),
            stage: BridgeStage::Encoding,
            payload: String::new(),
            reply: None,
            detail: String::new(),
        }
    }

    /// A call of the capability that a script reaches under `name`; `None`
    /// for a name outside the closed set, which reaches nothing.
    pub fn by_name(name: &str, invocation_id: &str) -> (call: Option<CapabilityCall>)
        ensures
            match call {
                Some(c) => capability_named(name@) == Some(c@.capability) && c@ == call_start(
                    c@.capability,
                    invocation_id@,
                ),
                None => capability_named(name@) is None,
            },
    {
        match Capability::from_name(name) {
            Some(capability) => Some(CapabilityCall::new(capability, invocation_id)),
            None => None,
        }
    }

    /// How far the call has come.
    pub fn stage(&self) -> (stage: BridgeStage)
        ensures
            stage == self@.stage,
    {
        self.stage
    }

    /// The capability that the script invoked.
    pub fn capability(&self) -> (capability: Capability)
        ensures
            capability == self@.capability,
    {
        self.capability
    }

    /// What the script sees of the call: `None` while it runs, then the
    /// value that it receives or the failure thrown.
    pub fn outcome(&self) -> (outcome: Option<Result<ReplyValue, Error>>)
        ensures
            match outcome {
                Some(Ok(value)) => call_outcome(self@) == Some(Ok::<ReplyValue, ErrorView>(value)),
                Some(Err(e)) => call_outcome(self@) == Some(Err::<ReplyValue, ErrorView>(e@)),
                None => call_outcome(self@) is None,
            },
    {
        match self.stage {
            BridgeStage::Returned(value) => Some(Ok(value)),
            BridgeStage::Failed(kind) => Some(Err(Error::new(kind, self.detail.clone()))),
            _ => None,
        }
    }

    /// The action that the driver is to perform next for the call.
    pub fn next_action(&self) -> (action: BridgeAction)
        ensures
            action@ == call_pending(self@),
    {
        match self.stage {
            BridgeStage::Encoding => BridgeAction::EncodePayload,
            BridgeStage::Calling => BridgeAction::CallHost {
                capability: self.capability,
                invocation_id: self.invocation_id.clone(),
                payload: self.payload.clone(),
            },
            BridgeStage::Draining => BridgeAction::RunPendingJob,
            BridgeStage::Decoding => BridgeAction::DecodeReply {
                text: match &self.reply {
                    Some(text) => text.clone(),
                    None => String::new(),
                },
            },
            BridgeStage::Returned(_) => BridgeAction::Finish,
            BridgeStage::Failed(_) => BridgeAction::Finish,
        }
    }

    /// Takes the driver's report on the pending action and moves the call
    /// on. A report on anything else is refused and changes nothing; the
    /// result says whether the report was taken.
    pub fn advance(&mut self, event: BridgeEvent) -> (taken: bool)
        ensures
            final(self)@ == call_step(old(self)@, event@),
            taken == call_answers(call_pending(old(self)@), event@),
    {
        match (self.stage, event) {
            (BridgeStage::Encoding, BridgeEvent::Encoded(r)) => {
                match to_text(r) {
                    Ok(text) => {
                        self.stage = BridgeStage::Calling;
                        self.payload = text;
                    },
                    Err(e) => {
                        self.stage = BridgeStage::Failed(e.kind);
                        self.detail = e.detail;
                    },
                }
                true
            },
            (BridgeStage::Calling, BridgeEvent::HostReplied(r)) => {
                self.stage = BridgeStage::Draining;
                self.reply = r;
                true
            },
            (BridgeStage::Draining, BridgeEvent::JobRan(ran)) => {
                if !ran {
                    self.stage = match &self.reply {
                        Some(_) => BridgeStage::Decoding,
                        None => BridgeStage::Returned(ReplyValue::Default),
                    };
                }
                true
            },
            (BridgeStage::Decoding, BridgeEvent::Decoded(r)) => {
                self.stage = match r {
                    Ok(_) => BridgeStage::Returned(ReplyValue::Decoded),
                    Err(_) => BridgeStage::Returned(ReplyValue::Default),
                };
                true
            },
            _ => false,
        }
    }
}

} // verus!
