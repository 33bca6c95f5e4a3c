//! The client: composes a command, encodes it once and delivers it in up to
//! three attempts.
//!
//! A delivery is a machine. It asks for the endpoint, for the exchange with it
//! and for the pause between two attempts, and is told what came of each. On a
//! failed attempt it clears the shared cache, so that no caller goes on with an
//! endpoint that has just let one down.

use vstd::prelude::*;
use vstd::string::{StringExecFns, StringSliceAdditionalSpecFns};
use crate::cache::ConnectionCache;
use crate::codec::{encode, encode_spec};
use crate::resolver::{contains_nul, has_nul, ResolutionError};
use crate::transport::{
    result_view, start_spec, Outcome, OutcomeView, Transport, TransportError, TransportStep,
};

verus! {

/// How often a delivery is tried before it is given up.
pub const MAX_ATTEMPTS: u32 = 3;

/// How long an exchange waits for the answer, in milliseconds.
pub const REPLY_TIMEOUT_MS: u32 = 100;

/// The pause after the first failed attempt, in milliseconds. The pause
/// after the second is twice as long.
pub const BACKOFF_UNIT_MS: u64 = 100;

/// Why one attempt failed.
#[derive(Clone, Copy, Debug, PartialEq, Eq, Structural)]
pub enum SendError {
    Resolution(ResolutionError),
    Transport(TransportError),
}

/// Why a delivery was given up.
#[derive(Clone, Copy, Debug, PartialEq, Eq, Structural)]
pub enum ClientError {
    /// Every attempt failed; `last` is what the last one failed with.
    MaxRetriesExceeded { last: SendError },
}

impl SendError {
    pub open spec fn message_spec(self) -> Seq<char> {
        match self {
            SendError::Resolution(error) => error.message_spec(),
            SendError::Transport(error) => error.message_spec(),
        }
    }

    /// What the error says.
    pub fn message(&self) -> (text: &'static str)
        ensures
            text@ == self.message_spec(),
    {
        match self {
            SendError::Resolution(error) => error.message(),
            SendError::Transport(error) => error.message(),
        }
    }
}

impl ClientError {
    /// The error of the last attempt.
    pub fn last(&self) -> (error: SendError)
        ensures
            *self == (ClientError::MaxRetriesExceeded { last: error }),
    {
        match self {
            ClientError::MaxRetriesExceeded { last } => *last,
        }
    }

    pub open spec fn message_spec(self) -> Seq<char> {
        "Max retries reached. Failed to send message to SketchyBar."@
    }

    /// What the error says.
    pub fn message(&self) -> (text: &'static str)
        ensures
            text@ == self.message_spec(),
    {
        "Max retries reached. Failed to send message to SketchyBar."
    }
}

/// The command for a flag, an event and a payload.
pub open spec fn command_spec(flag: Seq<char>, event: Seq<char>, payload: Seq<char>) -> Seq<char> {
    "--"@ + flag + " "@ + event + " "@ + payload
}

/// Composes the command `--<flag> <event> <payload>`.
pub fn compose(flag: &str, event: &str, payload: &str) -> (command: String)
    ensures
        command@ == command_spec(flag@, event@, payload@),
{
    let mut command = "--".to_owned();
    command.append(flag);
    command.append(" ");
    command.append(event);
    command.append(" ");
    command.append(payload);
    command
}

/// The action whose result the machine waits for.
#[derive(Clone, Copy, Debug, PartialEq, Eq, Structural)]
pub enum ClientPhase {
    Resolving,
    Sending { endpoint: u32 },
    Backoff,
}

/// What the machine asks of its driver.
#[derive(Clone, Copy, Debug, PartialEq, Eq, Structural)]
pub enum ClientAction {
    /// Get the endpoint of the delivery's target from the shared cache,
    /// resolving it on a miss, all under the cache's lock.
    Resolve,
    /// Run one exchange with the endpoint, with the cache's lock let go:
    /// the exchange that `begin_exchange` starts, with the delivery's payload.
    Transmit { endpoint: u32, timeout_ms: u32 },
    /// Pause before the next attempt.
    Wait { millis: u64 },
}

/// What came of an action.
#[derive(Debug, PartialEq, Eq)]
pub enum ClientEvent {
    Resolved(Result<u32, ResolutionError>),
    Transmitted(Result<Outcome, TransportError>),
    Waited,
}

pub enum ClientEventView {
    Resolved(Result<u32, ResolutionError>),
    Transmitted(Result<OutcomeView, TransportError>),
    Waited,
}

impl View for ClientEvent {
    type V = ClientEventView;

    open spec fn view(&self) -> ClientEventView {
        match *self {
            ClientEvent::Resolved(result) => ClientEventView::Resolved(result),
            ClientEvent::Transmitted(result) => ClientEventView::Transmitted(result_view(result)),
            ClientEvent::Waited => ClientEventView::Waited,
        }
    }
}

/// The state of a delivery as contracts speak of it.
pub struct DeliveryModel {
    /// The name of the bar that the command is for.
    pub target: Seq<char>,
    /// The encoded command.
    pub payload: Seq<u8>,
    /// The number of the attempt under way, from 1.
    pub attempt: nat,
    pub phase: ClientPhase,
}

pub enum ClientStepView {
    Continue(DeliveryModel, ClientAction),
    Finished(Result<Seq<char>, ClientError>),
    Ignored(DeliveryModel),
}

/// The text that a delivery hands back: the answer, or nothing where none
/// came.
pub open spec fn response_text(outcome: OutcomeView) -> Seq<char> {
    match outcome.response {
        Some(text) => text,
        None => Seq::empty(),
    }
}

impl DeliveryModel {
    /// Attempts are numbered from 1 to the last, and a pause is followed by
    /// another attempt.
    pub open spec fn well_formed(self) -> bool {
        &&& 1 <= self.attempt <= MAX_ATTEMPTS
        &&& self.phase == ClientPhase::Backoff ==> self.attempt < MAX_ATTEMPTS
    }

    /// The error of the pending action, where the event reports one.
    pub open spec fn failure(self, event: ClientEventView) -> Option<SendError> {
        match (self.phase, event) {
            (ClientPhase::Resolving, ClientEventView::Resolved(Err(error))) => Some(
                SendError::Resolution(error),
            ),
            (ClientPhase::Sending { endpoint }, ClientEventView::Transmitted(Err(error))) => Some(
                SendError::Transport(error),
            ),
            _ => None,
        }
    }

    /// After a failed attempt: a pause that grows with the attempt's number
    /// and then the next attempt, or the end after the last one.
    pub open spec fn failed(self, error: SendError) -> ClientStepView {
        if self.attempt < MAX_ATTEMPTS {
            ClientStepView::Continue(
                DeliveryModel { phase: ClientPhase::Backoff, ..self },
                ClientAction::Wait { millis: (self.attempt * BACKOFF_UNIT_MS) as u64 },
            )
        } else {
            ClientStepView::Finished(Err(ClientError::MaxRetriesExceeded { last: error }))
        }
    }

    /// The next step of a delivery. An event that does not answer the pending
    /// action is ignored.
    pub open spec fn step(self, event: ClientEventView) -> ClientStepView {
        match (self.phase, event) {
            (ClientPhase::Resolving, ClientEventView::Resolved(Ok(endpoint))) => {
                ClientStepView::Continue(
                    DeliveryModel { phase: ClientPhase::Sending { endpoint }, ..self },
                    ClientAction::Transmit { endpoint, timeout_ms: REPLY_TIMEOUT_MS },
                )
            },
            (ClientPhase::Resolving, ClientEventView::Resolved(Err(error))) => self.failed(
                SendError::Resolution(error),
            ),
            (ClientPhase::Sending { endpoint }, ClientEventView::Transmitted(Ok(outcome))) => {
                ClientStepView::Finished(Ok(response_text(outcome)))
            },
            (ClientPhase::Sending { endpoint }, ClientEventView::Transmitted(Err(error))) => {
                self.failed(SendError::Transport(error))
            },
            (ClientPhase::Backoff, ClientEventView::Waited) => ClientStepView::Continue(
                DeliveryModel {
                    phase: ClientPhase::Resolving,
                    attempt: self.attempt + 1,
                    ..self
                },
                ClientAction::Resolve,
            ),
            _ => ClientStepView::Ignored(self),
        }
    }
}

/// The first state of the delivery of a command to a target.
pub open spec fn delivery_spec(target: Seq<char>, command: Seq<char>) -> DeliveryModel {
    DeliveryModel {
        target,
        payload: encode_spec(vstd::utf8::encode_utf8(command)),
        attempt: 1,
        phase: ClientPhase::Resolving,
    }
}

/// The payload of a delivery is never empty, whatever the command: it ends in
/// its terminator, so no exchange is refused for want of a payload.
pub proof fn law_payload_never_empty(target: Seq<char>, command: Seq<char>)
    ensures
        delivery_spec(target, command).payload.len() > 0,
        delivery_spec(target, command).payload.last() == crate::codec::SEPARATOR,
{
}

/// A delivery under way.
pub struct Delivery {
    target: String,
    payload: Vec<u8>,
    attempt: u32,
    phase: ClientPhase,
}

impl View for Delivery {
    type V = DeliveryModel;

    closed spec fn view(&self) -> DeliveryModel {
        DeliveryModel {
            target: self.target@,
            payload: self.payload@,
            attempt: self.attempt as nat,
            phase: self.phase,
        }
    }
}

/// What a step of the machine hands back.
pub enum ClientStep {
    /// Perform the action and report its result to the machine.
    Continue(Delivery, ClientAction),
    /// The delivery is over: the answer's text, or why it was given up.
    Finished(Result<String, ClientError>),
    /// The event did not answer the pending action; nothing changed and
    /// nothing is to be done for it.
    Ignored(Delivery),
}

impl View for ClientStep {
    type V = ClientStepView;

    open spec fn view(&self) -> ClientStepView {
        match *self {
            ClientStep::Continue(machine, action) => ClientStepView::Continue(machine@, action),
            ClientStep::Finished(result) => ClientStepView::Finished(
                match result {
                    Ok(text) => Ok(text@),
                    Err(error) => Err(error),
                },
            ),
            ClientStep::Ignored(machine) => ClientStepView::Ignored(machine@),
        }
    }
}

impl Delivery {
    #[verifier::type_invariant]
    spec fn attempt_in_range(self) -> bool {
        &&& 1 <= self.attempt <= MAX_ATTEMPTS
        &&& self.phase == ClientPhase::Backoff ==> self.attempt < MAX_ATTEMPTS
    }

    /// Starts the delivery of a command to the bar named `target`. The
    /// command is encoded here, once; the first action is to resolve.
    pub fn start(target: &str, command: &str) -> (start: (Delivery, ClientAction))
        ensures
            start.0@ == delivery_spec(target@, command@),
            start.0@.well_formed(),
            start.1 == ClientAction::Resolve,
    {
        (
            Delivery {
                target: target.to_owned(),
                payload: encode(command),
                attempt: 1,
                phase: ClientPhase::Resolving,
            },
            ClientAction::Resolve,
        )
    }

    /// The name of the bar that the command is for.
    pub fn target(&self) -> (name: &str)
        ensures
            name@ == self@.target,
    {
        self.target.as_str()
    }

    /// The encoded command, as every attempt sends it.
    pub fn payload(&self) -> (bytes: &[u8])
        ensures
            bytes@ == self@.payload,
    {
        self.payload.as_slice()
    }

    /// Begins the exchange that the pending `Transmit` asks for: with the
    /// endpoint of this attempt, for the length of this delivery's payload and
    /// with the fixed bound on the wait for the answer. The payload that goes
    /// with the exchange is `payload()`. `frame_size` is the size in bytes of
    /// header and descriptor as they are laid out for the kernel. There is no
    /// exchange to begin while no `Transmit` is pending.
    pub fn begin_exchange(&self, frame_size: u32) -> (step: Option<TransportStep>)
        ensures
            match self@.phase {
                ClientPhase::Sending { endpoint } => step matches Some(s) && s@ == start_spec(
                    endpoint,
                    self@.payload.len(),
                    frame_size,
                    REPLY_TIMEOUT_MS,
                ),
                _ => step is None,
            },
    {
        match self.phase {
            ClientPhase::Sending { endpoint } => Some(
                Transport::start(endpoint, self.payload.len(), frame_size, REPLY_TIMEOUT_MS),
            ),
            _ => None,
        }
    }

    /// The number of the attempt under way, from 1.
    pub fn attempt(&self) -> (number: u32)
        ensures
            number == self@.attempt,
            self@.well_formed(),
    {
        proof {
            use_type_invariant(self);
        }
        self.attempt
    }

    fn failed(self, cache: &mut ConnectionCache, error: SendError) -> (step: ClientStep)
        ensures
            step@ == self@.failed(error),
            final(cache)@ is None,
    {
        proof {
            use_type_invariant(&self);
        }
        cache.invalidate();
        if self.attempt < MAX_ATTEMPTS {
            let millis = self.attempt as u64 * BACKOFF_UNIT_MS;
            ClientStep::Continue(
                Delivery { phase: ClientPhase::Backoff, ..self },
                ClientAction::Wait { millis },
            )
        } else {
            ClientStep::Finished(Err(ClientError::MaxRetriesExceeded { last: error }))
        }
    }

    /// Takes the result of the pending action and decides what comes next.
    /// A failed attempt clears the cache; nothing else touches it.
    pub fn step(self, cache: &mut ConnectionCache, event: ClientEvent) -> (step: ClientStep)
        ensures
            step@ == self@.step(event@),
            self@.failure(event@) is Some ==> final(cache)@ is None,
            self@.failure(event@) is None ==> final(cache)@ == old(cache)@,
    {
        proof {
            use_type_invariant(&self);
        }
        match (self.phase, event) {
            (ClientPhase::Resolving, ClientEvent::Resolved(Ok(endpoint))) => {
                ClientStep::Continue(
                    Delivery { phase: ClientPhase::Sending { endpoint }, ..self },
                    ClientAction::Transmit { endpoint, timeout_ms: REPLY_TIMEOUT_MS },
                )
            },
            (ClientPhase::Resolving, ClientEvent::Resolved(Err(error))) => self.failed(
                cache,
                SendError::Resolution(error),
            ),
            (ClientPhase::Sending { endpoint }, ClientEvent::Transmitted(Ok(outcome))) => {
                let text = match outcome.response {
                    Some(text) => text,
                    None => String::new(),
                };
                ClientStep::Finished(Ok(text))
            },
            (ClientPhase::Sending { endpoint }, ClientEvent::Transmitted(Err(error))) => {
                self.failed(cache, SendError::Transport(error))
            },
            (ClientPhase::Backoff, ClientEvent::Waited) => {
                let attempt = self.attempt + 1;
                ClientStep::Continue(
                    Delivery { phase: ClientPhase::Resolving, attempt, ..self },
                    ClientAction::Resolve,
                )
            },
            (_, _) => ClientStep::Ignored(self),
        }
    }
}

/// The bar that a command goes to: the one named, or the default.
pub open spec fn target_spec(bar_name: Option<Seq<char>>) -> Seq<char> {
    match bar_name {
        Some(name) => name,
        None => "sketchybar"@,
    }
}

/// A bar's name that holds a NUL byte, which no registered name does.
#[derive(Clone, Copy, Debug, PartialEq, Eq, Structural)]
pub struct InvalidBarName;

/// The client of one bar.
pub struct Sketchybar {
    bar_name: String,
}

impl View for Sketchybar {
    type V = Seq<char>;

    /// The bar's name.
    closed spec fn view(&self) -> Seq<char> {
        self.bar_name@
    }
}

impl Sketchybar {
    /// A client of the bar of that name, or of the default bar. A name with a
    /// NUL byte is refused.
    pub fn new(bar_name: Option<&str>) -> (client: Result<Sketchybar, InvalidBarName>)
        ensures
            match bar_name {
                Some(name) => match client {
                    Ok(bar) => bar@ == name@ && !has_nul(name.spec_bytes()),
                    Err(_) => has_nul(name.spec_bytes()),
                },
                None => client is Ok && client->Ok_0@ == target_spec(None),
            },
    {
        match bar_name {
            Some(name) => {
                if contains_nul(name) {
                    Err(InvalidBarName)
                } else {
                    Ok(Sketchybar { bar_name: name.to_owned() })
                }
            },
            None => Ok(Sketchybar { bar_name: "sketchybar".to_owned() }),
        }
    }

    /// The bar's name.
    pub fn bar_name(&self) -> (name: &str)
        ensures
            name@ == self@,
    {
        self.bar_name.as_str()
    }

    /// Starts the delivery of `--<flag> <event> <payload>` to this bar, with
    /// an empty payload where none is given.
    pub fn send_message(&self, flag: &str, event: &str, payload: Option<&str>) -> (start: (
        Delivery,
        ClientAction,
    ))
        ensures
            start.0@ == delivery_spec(
                self@,
                command_spec(
                    flag@,
                    event@,
                    match payload {
                        Some(text) => text@,
                        None => Seq::empty(),
                    },
                ),
            ),
            start.0@.well_formed(),
            start.1 == ClientAction::Resolve,
    {
        let command = match payload {
            Some(text) => compose(flag, event, text),
            None => {
                proof {
                    reveal_strlit("");
                }
                compose(flag, event, "")
            },
        };
        Delivery::start(self.bar_name.as_str(), command.as_str())
    }
}

/// Starts the delivery of `--<flag> <event> <vars>` to the bar of that name,
/// or to the default bar, with an empty payload where `vars` is absent.
pub fn send_to_sketchybar(
    flag: &str,
    event: &str,
    vars: Option<String>,
    bar_name: Option<&String>,
) -> (start: (Delivery, ClientAction))
    ensures
        start.0@ == delivery_spec(
            target_spec(
                match bar_name {
                    Some(name) => Some(name@),
                    None => None,
                },
            ),
            command_spec(
                flag@,
                event@,
                match vars {
                    Some(text) => text@,
                    None => Seq::empty(),
                },
            ),
        ),
        start.0@.well_formed(),
        start.1 == ClientAction::Resolve,
{
    let command = match vars {
        Some(text) => compose(flag, event, text.as_str()),
        None => {
            proof {
                reveal_strlit("");
            }
            compose(flag, event, "")
        },
    };
    match bar_name {
        Some(name) => Delivery::start(name.as_str(), command.as_str()),
        None => Delivery::start("sketchybar", command.as_str()),
    }
}

/// What a run of events made of a delivery.
pub struct Report {
    /// The attempts begun during the run: the `Resolve` actions handed out.
    pub attempts: nat,
    /// What the failed attempts failed with, in order. The step that takes
    /// in a failure is the step that clears the cache.
    pub failures: Seq<SendError>,
    /// The pauses asked for, in order, in milliseconds.
    pub pauses: Seq<u64>,
    /// For each pause, whether the step that asked for it cleared the cache.
    pub cleared: Seq<bool>,
    /// What the delivery came to, if it ended.
    pub result: Option<Result<Seq<char>, ClientError>>,
}

pub open spec fn failures_of(failure: Option<SendError>) -> Seq<SendError> {
    match failure {
        Some(error) => seq![error],
        None => Seq::empty(),
    }
}

pub open spec fn attempts_in(action: ClientAction) -> nat {
    if action == ClientAction::Resolve {
        1
    } else {
        0
    }
}

pub open spec fn pauses_in(action: ClientAction) -> Seq<u64> {
    match action {
        ClientAction::Wait { millis } => seq![millis],
        _ => Seq::empty(),
    }
}

/// Whether a step that asks for a pause clears the cache, for each pause
/// that the step asks for.
pub open spec fn cleared_in(
    machine: DeliveryModel,
    event: ClientEventView,
    action: ClientAction,
) -> Seq<bool> {
    match action {
        ClientAction::Wait { millis } => seq![machine.failure(event) is Some],
        _ => Seq::empty(),
    }
}

/// The report of a machine that is fed `events` in order, each action being
/// performed as it is handed out. Events after the end are not looked at.
pub open spec fn run(machine: DeliveryModel, events: Seq<ClientEventView>) -> Report
    decreases events.len(),
{
    if events.len() == 0 {
        Report {
            attempts: 0,
            failures: Seq::empty(),
            pauses: Seq::empty(),
            cleared: Seq::empty(),
            result: None,
        }
    } else {
        let failures = failures_of(machine.failure(events.first()));
        match machine.step(events.first()) {
            ClientStepView::Continue(next, action) => {
                let rest = run(next, events.drop_first());
                Report {
                    attempts: attempts_in(action) + rest.attempts,
                    failures: failures + rest.failures,
                    pauses: pauses_in(action) + rest.pauses,
                    cleared: cleared_in(machine, events.first(), action) + rest.cleared,
                    result: rest.result,
                }
            },
            ClientStepView::Finished(result) => Report {
                attempts: 0,
                failures,
                pauses: Seq::empty(),
                cleared: Seq::empty(),
                result: Some(result),
            },
            ClientStepView::Ignored(next) => run(next, events.drop_first()),
        }
    }
}

/// The attempts that have failed before the pending action.
pub open spec fn failed_so_far(machine: DeliveryModel) -> nat {
    if machine.phase == ClientPhase::Backoff {
        machine.attempt
    } else {
        (machine.attempt - 1) as nat
    }
}

pub open spec fn smaller(a: nat, b: nat) -> nat {
    if a <= b {
        a
    } else {
        b
    }
}

proof fn lemma_run_bounded(machine: DeliveryModel, events: Seq<ClientEventView>)
    requires
        machine.well_formed(),
    ensures
        ({
            let report = run(machine, events);
            let attempts = machine.attempt + report.attempts;
            let failed = failed_so_far(machine) + report.failures.len();
            &&& attempts <= MAX_ATTEMPTS
            &&& failed <= MAX_ATTEMPTS
            &&& failed <= attempts <= failed + 1
            &&& report.result matches Some(Ok(_)) ==> attempts == failed + 1
            &&& report.result matches Some(Err(error)) ==> attempts == MAX_ATTEMPTS && failed
                == MAX_ATTEMPTS && report.failures.len() > 0 && error
                == (ClientError::MaxRetriesExceeded { last: report.failures.last() })
            &&& report.pauses.len() + smaller(failed_so_far(machine), 2) == smaller(failed, 2)
            &&& forall|k: int|
                0 <= k < report.pauses.len() ==> #[trigger] report.pauses[k] == (failed_so_far(
                    machine,
                ) + k + 1) * BACKOFF_UNIT_MS
            &&& report.cleared.len() == report.pauses.len()
            &&& forall|k: int| 0 <= k < report.cleared.len() ==> #[trigger] report.cleared[k]
        }),
    decreases events.len(),
{
    if events.len() > 0 {
        match machine.step(events.first()) {
            ClientStepView::Continue(next, _) => {
                lemma_run_bounded(next, events.drop_first());
            },
            ClientStepView::Finished(_) => {},
            ClientStepView::Ignored(next) => {
                lemma_run_bounded(next, events.drop_first());
            },
        }
    }
}

/// Whatever the attempts come to and in whatever order the events arrive, a
/// delivery makes at most three attempts; it makes one attempt more than the
/// number of attempts that failed before the first that succeeded; it is given
/// up exactly when three attempts have failed, with the error of the third;
/// and it pauses after the first and the second failure only, for one and for
/// two units of time, each time in the step that has cleared the cache.
pub proof fn law_bounded_retries(
    target: Seq<char>,
    command: Seq<char>,
    events: Seq<ClientEventView>,
)
    ensures
        ({
            let report = run(delivery_spec(target, command), events);
            let attempts = 1 + report.attempts;
            let failed = report.failures.len();
            &&& attempts <= MAX_ATTEMPTS
            &&& failed <= attempts <= failed + 1
            &&& report.result matches Some(Ok(_)) ==> attempts == failed + 1
            &&& report.result matches Some(Err(error)) ==> attempts == MAX_ATTEMPTS && failed
                == MAX_ATTEMPTS && error == (ClientError::MaxRetriesExceeded {
                last: report.failures[2],
            })
            &&& report.pauses.len() == smaller(failed, 2)
            &&& forall|k: int|
                0 <= k < report.pauses.len() ==> #[trigger] report.pauses[k] == (k + 1)
                    * BACKOFF_UNIT_MS
            &&& report.cleared.len() == report.pauses.len()
            &&& forall|k: int| 0 <= k < report.cleared.len() ==> #[trigger] report.cleared[k]
        }),
{
    lemma_run_bounded(delivery_spec(target, command), events);
}

} // verus!
