//! One exchange with a resolved endpoint: send a payload and, for a bounded
//! time, wait for the answer on a reply port that lives for this exchange only.
//!
//! The exchange is a machine. It hands out one action at a time, is told what
//! the kernel made of it, and decides what comes next. Whatever happens on the
//! way, a reply port that was allocated is released before the exchange ends.

use vstd::prelude::*;
use crate::codec::{decode, utf8_lossy};
use crate::wire::{request_spec, WireMessage, KERN_SUCCESS, PORT_NULL};

verus! {

/// Why an exchange delivered nothing.
#[derive(Clone, Copy, Debug, PartialEq, Eq, Structural)]
pub enum TransportError {
    /// No reply port could be set up.
    AllocationFailed,
    /// The kernel refused the message.
    SendFailed,
}

impl TransportError {
    pub open spec fn message_spec(self) -> Seq<char> {
        match self {
            TransportError::AllocationFailed => "Failed to allocate port"@,
            TransportError::SendFailed => "Failed to send message"@,
        }
    }

    /// What the error says.
    pub fn message(&self) -> (text: &'static str)
        ensures
            text@ == self.message_spec(),
    {
        match self {
            TransportError::AllocationFailed => "Failed to allocate port",
            TransportError::SendFailed => "Failed to send message",
        }
    }
}

/// What an exchange that sent its message came to. A missing response is no
/// failure: only the send is owed.
#[derive(Clone, Debug, PartialEq, Eq)]
pub struct Outcome {
    pub delivered: bool,
    pub response: Option<String>,
}

pub struct OutcomeView {
    pub delivered: bool,
    pub response: Option<Seq<char>>,
}

impl View for Outcome {
    type V = OutcomeView;

    open spec fn view(&self) -> OutcomeView {
        OutcomeView {
            delivered: self.delivered,
            response: match self.response {
                Some(text) => Some(text@),
                None => None,
            },
        }
    }
}

/// The result of an exchange as contracts speak of it.
pub open spec fn result_view(result: Result<Outcome, TransportError>) -> Result<
    OutcomeView,
    TransportError,
> {
    match result {
        Ok(outcome) => Ok(outcome@),
        Err(error) => Err(error),
    }
}

/// The action whose result the machine waits for.
#[derive(Clone, Copy, Debug, PartialEq, Eq, Structural)]
pub enum Phase {
    Allocating,
    Installing,
    Sending,
    Receiving,
    Destroying,
    Releasing,
}

/// What the machine asks of the kernel.
#[derive(Clone, Copy, Debug, PartialEq, Eq, Structural)]
pub enum TransportAction {
    /// Allocate a receive right: the reply port.
    AllocateReplyPort,
    /// Give the reply port a send right, so that the receiver can answer.
    InstallSendRight { port: u32 },
    /// Send the message, with the payload behind its descriptor. A full queue
    /// at the destination may block; that is accepted.
    Send { message: WireMessage },
    /// Wait for a message on the reply port, no longer than the timeout.
    Receive { port: u32, timeout_ms: u32 },
    /// Give back what the kernel attached to the received message.
    DestroyReply,
    /// Release the reply port.
    ReleaseReplyPort { port: u32 },
}

/// What the kernel made of an action. A `code` is a kernel return code.
#[derive(Clone, Debug, PartialEq, Eq)]
pub enum TransportEvent {
    PortAllocated { code: i32, port: u32 },
    RightInstalled { code: i32 },
    Sent { code: i32 },
    /// The bytes behind the received descriptor, or none where its address is
    /// null.
    Received { code: i32, payload: Option<Vec<u8>> },
    ReplyDestroyed,
    PortReleased { code: i32 },
}

pub enum TransportEventView {
    PortAllocated { code: i32, port: u32 },
    RightInstalled { code: i32 },
    Sent { code: i32 },
    Received { code: i32, payload: Option<Seq<u8>> },
    ReplyDestroyed,
    PortReleased { code: i32 },
}

impl View for TransportEvent {
    type V = TransportEventView;

    open spec fn view(&self) -> TransportEventView {
        match *self {
            TransportEvent::PortAllocated { code, port } => TransportEventView::PortAllocated {
                code,
                port,
            },
            TransportEvent::RightInstalled { code } => TransportEventView::RightInstalled { code },
            TransportEvent::Sent { code } => TransportEventView::Sent { code },
            TransportEvent::Received { code, payload } => TransportEventView::Received {
                code,
                payload: match payload {
                    Some(bytes) => Some(bytes@),
                    None => None,
                },
            },
            TransportEvent::ReplyDestroyed => TransportEventView::ReplyDestroyed,
            TransportEvent::PortReleased { code } => TransportEventView::PortReleased { code },
        }
    }
}

/// The state of an exchange as contracts speak of it.
pub struct TransportModel {
    pub phase: Phase,
    pub endpoint: u32,
    pub payload_len: u32,
    pub frame_size: u32,
    pub timeout_ms: u32,
    /// The reply port, once allocated.
    pub reply_port: u32,
    /// Set where the exchange is bound to fail.
    pub failure: Option<TransportError>,
    /// The decoded answer, where one came.
    pub response: Option<Seq<char>>,
}

pub enum TransportStepView {
    Continue(TransportModel, TransportAction),
    Finished(Result<OutcomeView, TransportError>),
    Ignored(TransportModel),
}

impl TransportModel {
    /// What the exchange comes to once the reply port is released.
    pub open spec fn result(self) -> Result<OutcomeView, TransportError> {
        match self.failure {
            Some(error) => Err(error),
            None => Ok(OutcomeView { delivered: true, response: self.response }),
        }
    }

    pub open spec fn release(self) -> TransportStepView {
        TransportStepView::Continue(
            TransportModel { phase: Phase::Releasing, ..self },
            TransportAction::ReleaseReplyPort { port: self.reply_port },
        )
    }

    pub open spec fn fail(self, error: TransportError) -> TransportStepView {
        TransportStepView::Continue(
            TransportModel { phase: Phase::Releasing, failure: Some(error), ..self },
            TransportAction::ReleaseReplyPort { port: self.reply_port },
        )
    }

    /// The next step of an exchange. An event that does not answer the
    /// pending action is ignored.
    pub open spec fn step(self, event: TransportEventView) -> TransportStepView {
        match (self.phase, event) {
            (Phase::Allocating, TransportEventView::PortAllocated { code, port }) => {
                if code == KERN_SUCCESS {
                    TransportStepView::Continue(
                        TransportModel { phase: Phase::Installing, reply_port: port, ..self },
                        TransportAction::InstallSendRight { port },
                    )
                } else {
                    TransportStepView::Finished(Err(TransportError::AllocationFailed))
                }
            },
            (Phase::Installing, TransportEventView::RightInstalled { code }) => {
                if code == KERN_SUCCESS {
                    TransportStepView::Continue(
                        TransportModel { phase: Phase::Sending, ..self },
                        TransportAction::Send {
                            message: request_spec(
                                self.endpoint,
                                self.reply_port,
                                self.payload_len,
                                self.frame_size,
                            ),
                        },
                    )
                } else {
                    self.fail(TransportError::AllocationFailed)
                }
            },
            (Phase::Sending, TransportEventView::Sent { code }) => {
                if code == KERN_SUCCESS {
                    TransportStepView::Continue(
                        TransportModel { phase: Phase::Receiving, ..self },
                        TransportAction::Receive {
                            port: self.reply_port,
                            timeout_ms: self.timeout_ms,
                        },
                    )
                } else {
                    self.fail(TransportError::SendFailed)
                }
            },
            (Phase::Receiving, TransportEventView::Received { code, payload }) => {
                if code == KERN_SUCCESS && payload is Some {
                    TransportStepView::Continue(
                        TransportModel {
                            phase: Phase::Destroying,
                            response: Some(utf8_lossy(payload->0)),
                            ..self
                        },
                        TransportAction::DestroyReply,
                    )
                } else {
                    self.release()
                }
            },
            (Phase::Destroying, TransportEventView::ReplyDestroyed) => self.release(),
            (Phase::Releasing, TransportEventView::PortReleased { code }) => {
                TransportStepView::Finished(self.result())
            },
            _ => TransportStepView::Ignored(self),
        }
    }
}

/// Whether an exchange can be begun at all: the endpoint is resolved, and
/// there is a payload that a descriptor can measure.
pub open spec fn sendable(endpoint: u32, payload_len: nat) -> bool {
    endpoint != PORT_NULL && 0 < payload_len <= u32::MAX
}

/// The first step of an exchange: allocate the reply port. An exchange with
/// the null endpoint, without a payload, or with a payload too long for any
/// message is refused as a failed send before anything is allocated.
pub open spec fn start_spec(endpoint: u32, payload_len: nat, frame_size: u32, timeout_ms: u32)
    -> TransportStepView {
    if sendable(endpoint, payload_len) {
        TransportStepView::Continue(
            TransportModel {
                phase: Phase::Allocating,
                endpoint,
                payload_len: payload_len as u32,
                frame_size,
                timeout_ms,
                reply_port: 0,
                failure: None,
                response: None,
            },
            TransportAction::AllocateReplyPort,
        )
    } else {
        TransportStepView::Finished(Err(TransportError::SendFailed))
    }
}

/// An exchange under way.
pub struct Transport {
    phase: Phase,
    endpoint: u32,
    payload_len: u32,
    frame_size: u32,
    timeout_ms: u32,
    reply_port: u32,
    failure: Option<TransportError>,
    response: Option<String>,
}

impl View for Transport {
    type V = TransportModel;

    closed spec fn view(&self) -> TransportModel {
        TransportModel {
            phase: self.phase,
            endpoint: self.endpoint,
            payload_len: self.payload_len,
            frame_size: self.frame_size,
            timeout_ms: self.timeout_ms,
            reply_port: self.reply_port,
            failure: self.failure,
            response: match self.response {
                Some(text) => Some(text@),
                None => None,
            },
        }
    }
}

/// What a step of the machine hands back.
pub enum TransportStep {
    /// Perform the action and report its result to the machine.
    Continue(Transport, TransportAction),
    /// The exchange is over.
    Finished(Result<Outcome, TransportError>),
    /// The event did not answer the pending action; nothing changed and
    /// nothing is to be done for it.
    Ignored(Transport),
}

impl View for TransportStep {
    type V = TransportStepView;

    open spec fn view(&self) -> TransportStepView {
        match *self {
            TransportStep::Continue(machine, action) => TransportStepView::Continue(
                machine@,
                action,
            ),
            TransportStep::Finished(result) => TransportStepView::Finished(result_view(result)),
            TransportStep::Ignored(machine) => TransportStepView::Ignored(machine@),
        }
    }
}

impl Transport {
    /// Starts an exchange that sends `payload_len` bytes to `endpoint` and
    /// waits up to `timeout_ms` for the answer. The null endpoint and an
    /// empty payload are refused here, before any reply port is asked for.
    pub fn start(endpoint: u32, payload_len: usize, frame_size: u32, timeout_ms: u32) -> (step:
        TransportStep)
        ensures
            step@ == start_spec(endpoint, payload_len as nat, frame_size, timeout_ms),
    {
        if endpoint == PORT_NULL || payload_len == 0 || payload_len > u32::MAX as usize {
            return TransportStep::Finished(Err(TransportError::SendFailed));
        }
        TransportStep::Continue(
            Transport {
                phase: Phase::Allocating,
                endpoint,
                payload_len: payload_len as u32,
                frame_size,
                timeout_ms,
                reply_port: 0,
                failure: None,
                response: None,
            },
            TransportAction::AllocateReplyPort,
        )
    }

    fn release(self) -> (step: TransportStep)
        ensures
            step@ == self@.release(),
    {
        let port = self.reply_port;
        TransportStep::Continue(
            Transport { phase: Phase::Releasing, ..self },
            TransportAction::ReleaseReplyPort { port },
        )
    }

    fn fail(self, error: TransportError) -> (step: TransportStep)
        ensures
            step@ == self@.fail(error),
    {
        let port = self.reply_port;
        TransportStep::Continue(
            Transport { phase: Phase::Releasing, failure: Some(error), ..self },
            TransportAction::ReleaseReplyPort { port },
        )
    }

    /// Takes the result of the pending action and decides what comes next.
    pub fn step(self, event: TransportEvent) -> (step: TransportStep)
        ensures
            step@ == self@.step(event@),
    {
        match (self.phase, event) {
            (Phase::Allocating, TransportEvent::PortAllocated { code, port }) => {
                if code == KERN_SUCCESS {
                    TransportStep::Continue(
                        Transport { phase: Phase::Installing, reply_port: port, ..self },
                        TransportAction::InstallSendRight { port },
                    )
                } else {
                    TransportStep::Finished(Err(TransportError::AllocationFailed))
                }
            },
            (Phase::Installing, TransportEvent::RightInstalled { code }) => {
                if code == KERN_SUCCESS {
                    let message = WireMessage::request(
                        self.endpoint,
                        self.reply_port,
                        self.payload_len,
                        self.frame_size,
                    );
                    TransportStep::Continue(
                        Transport { phase: Phase::Sending, ..self },
                        TransportAction::Send { message },
                    )
                } else {
                    self.fail(TransportError::AllocationFailed)
                }
            },
            (Phase::Sending, TransportEvent::Sent { code }) => {
                if code == KERN_SUCCESS {
                    let port = self.reply_port;
                    let timeout_ms = self.timeout_ms;
                    TransportStep::Continue(
                        Transport { phase: Phase::Receiving, ..self },
                        TransportAction::Receive { port, timeout_ms },
                    )
                } else {
                    self.fail(TransportError::SendFailed)
                }
            },
            (Phase::Receiving, TransportEvent::Received { code, payload }) => {
                match payload {
                    Some(bytes) => {
                        if code == KERN_SUCCESS {
                            let text = decode(Some(bytes.as_slice()));
                            TransportStep::Continue(
                                Transport {
                                    phase: Phase::Destroying,
                                    response: Some(text),
                                    ..self
                                },
                                TransportAction::DestroyReply,
                            )
                        } else {
                            self.release()
                        }
                    },
                    None => self.release(),
                }
            },
            (Phase::Destroying, TransportEvent::ReplyDestroyed) => self.release(),
            (Phase::Releasing, TransportEvent::PortReleased { code }) => {
                let result = match self.failure {
                    Some(error) => Err(error),
                    None => Ok(Outcome { delivered: true, response: self.response }),
                };
                TransportStep::Finished(result)
            },
            (_, _) => TransportStep::Ignored(self),
        }
    }
}

/// What a run of events did to reply ports: those allocated, those released,
/// and what the exchange came to if it ended.
pub struct Ledger {
    pub acquired: Seq<u32>,
    pub released: Seq<u32>,
    pub result: Option<Result<OutcomeView, TransportError>>,
}

/// The port that an event hands to the machine.
pub open spec fn acquired_by(machine: TransportModel, event: TransportEventView) -> Seq<u32> {
    match (machine.phase, event) {
        (Phase::Allocating, TransportEventView::PortAllocated { code, port }) => {
            if code == KERN_SUCCESS {
                seq![port]
            } else {
                Seq::empty()
            }
        },
        _ => Seq::empty(),
    }
}

/// The port that a step asks to release.
pub open spec fn released_by(step: TransportStepView) -> Seq<u32> {
    match step {
        TransportStepView::Continue(_, TransportAction::ReleaseReplyPort { port }) => seq![port],
        _ => Seq::empty(),
    }
}

/// The ledger of a machine that is fed `events` in order, each action being
/// performed as it is handed out. Events after the end are not looked at.
pub open spec fn run(machine: TransportModel, events: Seq<TransportEventView>) -> Ledger
    decreases events.len(),
{
    if events.len() == 0 {
        Ledger { acquired: Seq::empty(), released: Seq::empty(), result: None }
    } else {
        let step = machine.step(events.first());
        match step {
            TransportStepView::Continue(next, _) => {
                let rest = run(next, events.drop_first());
                Ledger {
                    acquired: acquired_by(machine, events.first()) + rest.acquired,
                    released: released_by(step) + rest.released,
                    result: rest.result,
                }
            },
            TransportStepView::Finished(result) => Ledger {
                acquired: acquired_by(machine, events.first()),
                released: Seq::empty(),
                result: Some(result),
            },
            TransportStepView::Ignored(next) => run(next, events.drop_first()),
        }
    }
}

/// The ledger of a whole exchange, from its start.
pub open spec fn exchange(
    endpoint: u32,
    payload_len: nat,
    frame_size: u32,
    timeout_ms: u32,
    events: Seq<TransportEventView>,
) -> Ledger {
    match start_spec(endpoint, payload_len, frame_size, timeout_ms) {
        TransportStepView::Continue(machine, _) => run(machine, events),
        TransportStepView::Finished(result) => Ledger {
            acquired: Seq::empty(),
            released: Seq::empty(),
            result: Some(result),
        },
        TransportStepView::Ignored(machine) => run(machine, events),
    }
}

/// The reply port that a machine holds and has not yet asked to release.
pub open spec fn owed(machine: TransportModel) -> Seq<u32> {
    match machine.phase {
        Phase::Allocating => Seq::empty(),
        Phase::Releasing => Seq::empty(),
        _ => seq![machine.reply_port],
    }
}

proof fn lemma_run_settles(machine: TransportModel, events: Seq<TransportEventView>)
    ensures
        run(machine, events).released.is_prefix_of(owed(machine) + run(machine, events).acquired),
        run(machine, events).result is Some ==> run(machine, events).released == owed(machine)
            + run(machine, events).acquired,
        run(machine, events).acquired.len() <= (if machine.phase == Phase::Allocating {
            1nat
        } else {
            0nat
        }),
    decreases events.len(),
{
    if events.len() > 0 {
        match machine.step(events.first()) {
            TransportStepView::Continue(next, _) => {
                lemma_run_settles(next, events.drop_first());
            },
            TransportStepView::Finished(_) => {},
            TransportStepView::Ignored(next) => {
                lemma_run_settles(next, events.drop_first());
            },
        }
    }
}

/// Whatever the kernel answers and in whatever order the answers come, an
/// exchange allocates at most one reply port, never releases a port that it
/// does not hold, and has released the port it allocated exactly once when it
/// ends.
pub proof fn law_reply_port_released_once(
    endpoint: u32,
    payload_len: nat,
    frame_size: u32,
    timeout_ms: u32,
    events: Seq<TransportEventView>,
)
    ensures
        ({
            let ledger = exchange(endpoint, payload_len, frame_size, timeout_ms, events);
            &&& ledger.acquired.len() <= 1
            &&& ledger.released.is_prefix_of(ledger.acquired)
            &&& ledger.result is Some ==> ledger.released == ledger.acquired
        }),
{
    match start_spec(endpoint, payload_len, frame_size, timeout_ms) {
        TransportStepView::Continue(machine, _) => {
            lemma_run_settles(machine, events);
        },
        _ => {},
    }
}

/// An exchange with the null endpoint or without a payload fails as a send
/// that was never made: whatever events are offered, no reply port is
/// allocated and none is released.
pub proof fn law_unsendable_is_refused(
    endpoint: u32,
    payload_len: nat,
    frame_size: u32,
    timeout_ms: u32,
    events: Seq<TransportEventView>,
)
    requires
        endpoint == PORT_NULL || payload_len == 0,
    ensures
        exchange(endpoint, payload_len, frame_size, timeout_ms, events) == (Ledger {
            acquired: Seq::empty(),
            released: Seq::empty(),
            result: Some(Err(TransportError::SendFailed)),
        }),
{
}

/// The message that an exchange sends, once its reply port is set up, is
/// the request for exactly the payload it was begun with: to the endpoint,
/// with the reply port as the local port and as the identifier, and with one
/// descriptor of the payload's length.
pub proof fn law_sent_message_describes_payload(
    endpoint: u32,
    payload_len: nat,
    frame_size: u32,
    timeout_ms: u32,
    reply_port: u32,
)
    requires
        sendable(endpoint, payload_len),
    ensures
        ({
            &&& start_spec(endpoint, payload_len, frame_size, timeout_ms)
                matches TransportStepView::Continue(allocating, first)
            &&& first == TransportAction::AllocateReplyPort
            &&& allocating.step(
                TransportEventView::PortAllocated { code: KERN_SUCCESS, port: reply_port },
            ) matches TransportStepView::Continue(installing, second)
            &&& second == (TransportAction::InstallSendRight { port: reply_port })
            &&& installing.step(TransportEventView::RightInstalled { code: KERN_SUCCESS })
                matches TransportStepView::Continue(_, third)
            &&& third == (TransportAction::Send {
                message: request_spec(endpoint, reply_port, payload_len as u32, frame_size),
            })
        }),
{
}

proof fn lemma_delivery_stands(machine: TransportModel, events: Seq<TransportEventView>)
    requires
        machine.failure is None,
        machine.phase == Phase::Receiving || machine.phase == Phase::Destroying || machine.phase
            == Phase::Releasing,
    ensures
        run(machine, events).result matches Some(result) ==> result is Ok
            && result->Ok_0.delivered,
    decreases events.len(),
{
    if events.len() > 0 {
        match machine.step(events.first()) {
            TransportStepView::Continue(next, _) => {
                lemma_delivery_stands(next, events.drop_first());
            },
            TransportStepView::Finished(_) => {},
            TransportStepView::Ignored(next) => {
                lemma_delivery_stands(next, events.drop_first());
            },
        }
    }
}

/// Once the kernel has accepted the message, the exchange cannot fail:
/// whether the answer comes, times out or cannot be received, and whatever
/// the release of the reply port reports, the result is a delivery.
pub proof fn law_reply_is_optional(machine: TransportModel, events: Seq<TransportEventView>)
    requires
        machine.phase == Phase::Sending,
        machine.failure is None,
        events.len() > 0,
        events.first() == (TransportEventView::Sent { code: KERN_SUCCESS }),
    ensures
        run(machine, events).result matches Some(result) ==> result is Ok
            && result->Ok_0.delivered,
{
    match machine.step(events.first()) {
        TransportStepView::Continue(next, _) => {
            lemma_delivery_stands(next, events.drop_first());
        },
        _ => {},
    }
}

} // verus!
