//! Finding the receiver's endpoint in the name registry.
//!
//! A lookup borrows the process's registry handle for exactly one query and
//! gives it back before it ends, whether the name was found or not.

use vstd::prelude::*;
use vstd::string::{StringExecFns, StringSliceAdditionalSpecFns};
use vstd::utf8::encode_utf8;
use crate::wire::KERN_SUCCESS;

verus! {

/// Why no endpoint was found.
#[derive(Clone, Copy, Debug, PartialEq, Eq, Structural)]
pub enum ResolutionError {
    /// The process could not obtain its registry handle.
    BootstrapUnavailable,
    /// The registry holds no service of that name.
    NotFound,
}

impl ResolutionError {
    pub open spec fn message_spec(self) -> Seq<char> {
        match self {
            ResolutionError::BootstrapUnavailable => "Failed to get bootstrap port"@,
            ResolutionError::NotFound => "Failed to look up sketchybar port"@,
        }
    }

    /// What the error says.
    pub fn message(&self) -> (text: &'static str)
        ensures
            text@ == self.message_spec(),
    {
        match self {
            ResolutionError::BootstrapUnavailable => "Failed to get bootstrap port",
            ResolutionError::NotFound => "Failed to look up sketchybar port",
        }
    }
}

/// The name under which the bar with the given target name is registered.
pub open spec fn service_name_spec(target: Seq<char>) -> Seq<char> {
    "git.felix."@ + target
}

/// A name that holds a NUL byte cannot be handed to the registry.
pub open spec fn has_nul(name: Seq<u8>) -> bool {
    name.contains(0u8)
}

pub fn service_name(target: &str) -> (name: String)
    ensures
        name@ == service_name_spec(target@),
{
    let mut name = "git.felix.".to_owned();
    name.append(target);
    name
}

pub fn contains_nul(name: &str) -> (found: bool)
    ensures
        found == has_nul(name.spec_bytes()),
{
    let bytes = name.as_bytes();
    let mut i: usize = 0;
    while i < bytes.len()
        invariant
            i <= bytes.len(),
            bytes@ == name.spec_bytes(),
            forall|j: int| 0 <= j < i ==> bytes@[j] != 0u8,
        decreases bytes.len() - i,
    {
        if bytes[i] == 0 {
            return true;
        }
        i += 1;
    }
    false
}

/// The action whose result the machine waits for.
#[derive(Clone, Copy, Debug, PartialEq, Eq, Structural)]
pub enum ResolverPhase {
    Acquiring,
    LookingUp,
    Releasing,
}

/// What the machine asks of the kernel.
#[derive(Clone, Copy, Debug, PartialEq, Eq, Structural)]
pub enum ResolverAction {
    /// Obtain the process's registry handle.
    AcquireRegistry,
    /// Ask the registry for the machine's service name.
    LookUp { registry: u32 },
    /// Give the registry handle back.
    ReleaseRegistry { registry: u32 },
}

/// What the kernel made of an action. A `code` is a kernel return code.
#[derive(Clone, Copy, Debug, PartialEq, Eq, Structural)]
pub enum ResolverEvent {
    RegistryAcquired { code: i32, registry: u32 },
    LookedUp { code: i32, endpoint: u32 },
    RegistryReleased { code: i32 },
}

/// The state of a lookup as contracts speak of it.
pub struct ResolverModel {
    pub phase: ResolverPhase,
    /// The name that is looked up.
    pub service: Seq<char>,
    /// The registry handle, once acquired.
    pub registry: u32,
    /// The endpoint, once found.
    pub found: Option<u32>,
}

pub enum ResolverStepView {
    Continue(ResolverModel, ResolverAction),
    Finished(Result<u32, ResolutionError>),
    Ignored(ResolverModel),
}

impl ResolverModel {
    /// What the lookup comes to once the registry handle is given back.
    pub open spec fn result(self) -> Result<u32, ResolutionError> {
        match self.found {
            Some(endpoint) => Ok(endpoint),
            None => Err(ResolutionError::NotFound),
        }
    }

    pub open spec fn release(self, found: Option<u32>) -> ResolverStepView {
        ResolverStepView::Continue(
            ResolverModel { phase: ResolverPhase::Releasing, found, ..self },
            ResolverAction::ReleaseRegistry { registry: self.registry },
        )
    }

    /// The next step of a lookup. A name that cannot be handed to the registry
    /// is not found, without a query. An event that does not answer the
    /// pending action is ignored.
    pub open spec fn step(self, event: ResolverEvent) -> ResolverStepView {
        match (self.phase, event) {
            (ResolverPhase::Acquiring, ResolverEvent::RegistryAcquired { code, registry }) => {
                if code != KERN_SUCCESS {
                    ResolverStepView::Finished(Err(ResolutionError::BootstrapUnavailable))
                } else if has_nul(encode_utf8(self.service)) {
                    ResolverStepView::Continue(
                        ResolverModel { phase: ResolverPhase::Releasing, registry, ..self },
                        ResolverAction::ReleaseRegistry { registry },
                    )
                } else {
                    ResolverStepView::Continue(
                        ResolverModel { phase: ResolverPhase::LookingUp, registry, ..self },
                        ResolverAction::LookUp { registry },
                    )
                }
            },
            (ResolverPhase::LookingUp, ResolverEvent::LookedUp { code, endpoint }) => {
                if code == KERN_SUCCESS {
                    self.release(Some(endpoint))
                } else {
                    self.release(None)
                }
            },
            (ResolverPhase::Releasing, ResolverEvent::RegistryReleased { code }) => {
                ResolverStepView::Finished(self.result())
            },
            _ => ResolverStepView::Ignored(self),
        }
    }
}

/// The first state of the lookup of a target's service.
pub open spec fn resolve_spec(target: Seq<char>) -> ResolverModel {
    ResolverModel {
        phase: ResolverPhase::Acquiring,
        service: service_name_spec(target),
        registry: 0,
        found: None,
    }
}

/// A lookup under way.
pub struct Resolver {
    phase: ResolverPhase,
    service: String,
    registry: u32,
    found: Option<u32>,
}

impl View for Resolver {
    type V = ResolverModel;

    closed spec fn view(&self) -> ResolverModel {
        ResolverModel {
            phase: self.phase,
            service: self.service@,
            registry: self.registry,
            found: self.found,
        }
    }
}

/// What a step of the machine hands back.
pub enum ResolverStep {
    /// Perform the action and report its result to the machine.
    Continue(Resolver, ResolverAction),
    /// The lookup is over.
    Finished(Result<u32, ResolutionError>),
    /// The event did not answer the pending action; nothing changed and
    /// nothing is to be done for it.
    Ignored(Resolver),
}

impl View for ResolverStep {
    type V = ResolverStepView;

    open spec fn view(&self) -> ResolverStepView {
        match *self {
            ResolverStep::Continue(machine, action) => ResolverStepView::Continue(machine@, action),
            ResolverStep::Finished(result) => ResolverStepView::Finished(result),
            ResolverStep::Ignored(machine) => ResolverStepView::Ignored(machine@),
        }
    }
}

impl Resolver {
    /// Starts the lookup of the service of the bar named `target`. The first
    /// action is always to acquire the registry handle.
    pub fn resolve(target: &str) -> (start: (Resolver, ResolverAction))
        ensures
            start.0@ == resolve_spec(target@),
            start.1 == ResolverAction::AcquireRegistry,
    {
        (
            Resolver {
                phase: ResolverPhase::Acquiring,
                service: service_name(target),
                registry: 0,
                found: None,
            },
            ResolverAction::AcquireRegistry,
        )
    }

    /// The name that is looked up.
    pub fn service(&self) -> (name: &str)
        ensures
            name@ == self@.service,
    {
        self.service.as_str()
    }

    fn release(self, found: Option<u32>) -> (step: ResolverStep)
        ensures
            step@ == self@.release(found),
    {
        let registry = self.registry;
        ResolverStep::Continue(
            Resolver { phase: ResolverPhase::Releasing, found, ..self },
            ResolverAction::ReleaseRegistry { registry },
        )
    }

    /// Takes the result of the pending action and decides what comes next.
    pub fn step(self, event: ResolverEvent) -> (step: ResolverStep)
        ensures
            step@ == self@.step(event),
    {
        match (self.phase, event) {
            (ResolverPhase::Acquiring, ResolverEvent::RegistryAcquired { code, registry }) => {
                if code != KERN_SUCCESS {
                    ResolverStep::Finished(Err(ResolutionError::BootstrapUnavailable))
                } else if contains_nul(self.service.as_str()) {
                    ResolverStep::Continue(
                        Resolver { phase: ResolverPhase::Releasing, registry, ..self },
                        ResolverAction::ReleaseRegistry { registry },
                    )
                } else {
                    ResolverStep::Continue(
                        Resolver { phase: ResolverPhase::LookingUp, registry, ..self },
                        ResolverAction::LookUp { registry },
                    )
                }
            },
            (ResolverPhase::LookingUp, ResolverEvent::LookedUp { code, endpoint }) => {
                if code == KERN_SUCCESS {
                    self.release(Some(endpoint))
                } else {
                    self.release(None)
                }
            },
            (ResolverPhase::Releasing, ResolverEvent::RegistryReleased { code }) => {
                let result = match self.found {
                    Some(endpoint) => Ok(endpoint),
                    None => Err(ResolutionError::NotFound),
                };
                ResolverStep::Finished(result)
            },
            (_, _) => ResolverStep::Ignored(self),
        }
    }
}

/// What a run of events did to registry handles: those acquired, those given
/// back, and what the lookup came to if it ended.
pub struct Ledger {
    pub acquired: Seq<u32>,
    pub released: Seq<u32>,
    pub result: Option<Result<u32, ResolutionError>>,
}

/// The handle that an event hands to the machine.
pub open spec fn acquired_by(machine: ResolverModel, event: ResolverEvent) -> Seq<u32> {
    match (machine.phase, event) {
        (ResolverPhase::Acquiring, ResolverEvent::RegistryAcquired { code, registry }) => {
            if code == KERN_SUCCESS {
                seq![registry]
            } else {
                Seq::empty()
            }
        },
        _ => Seq::empty(),
    }
}

/// The handle that a step asks to give back.
pub open spec fn released_by(step: ResolverStepView) -> Seq<u32> {
    match step {
        ResolverStepView::Continue(_, ResolverAction::ReleaseRegistry { registry }) => seq![
            registry,
        ],
        _ => Seq::empty(),
    }
}

/// The ledger of a machine that is fed `events` in order, each action being
/// performed as it is handed out. Events after the end are not looked at.
pub open spec fn run(machine: ResolverModel, events: Seq<ResolverEvent>) -> Ledger
    decreases events.len(),
{
    if events.len() == 0 {
        Ledger { acquired: Seq::empty(), released: Seq::empty(), result: None }
    } else {
        let step = machine.step(events.first());
        match step {
            ResolverStepView::Continue(next, _) => {
                let rest = run(next, events.drop_first());
                Ledger {
                    acquired: acquired_by(machine, events.first()) + rest.acquired,
                    released: released_by(step) + rest.released,
                    result: rest.result,
                }
            },
            ResolverStepView::Finished(result) => Ledger {
                acquired: acquired_by(machine, events.first()),
                released: Seq::empty(),
                result: Some(result),
            },
            ResolverStepView::Ignored(next) => run(next, events.drop_first()),
        }
    }
}

/// The registry handle that a machine holds and has not yet asked to give
/// back.
pub open spec fn owed(machine: ResolverModel) -> Seq<u32> {
    match machine.phase {
        ResolverPhase::LookingUp => seq![machine.registry],
        _ => Seq::empty(),
    }
}

proof fn lemma_run_settles(machine: ResolverModel, events: Seq<ResolverEvent>)
    ensures
        run(machine, events).released.is_prefix_of(owed(machine) + run(machine, events).acquired),
        run(machine, events).result is Some ==> run(machine, events).released == owed(machine)
            + run(machine, events).acquired,
        run(machine, events).acquired.len() <= (if machine.phase == ResolverPhase::Acquiring {
            1nat
        } else {
            0nat
        }),
    decreases events.len(),
{
    if events.len() > 0 {
        match machine.step(events.first()) {
            ResolverStepView::Continue(next, _) => {
                lemma_run_settles(next, events.drop_first());
            },
            ResolverStepView::Finished(_) => {},
            ResolverStepView::Ignored(next) => {
                lemma_run_settles(next, events.drop_first());
            },
        }
    }
}

/// Whatever the kernel answers and in whatever order the answers come, a
/// lookup acquires at most one registry handle, never gives back a handle
/// that it does not hold, and holds none when it ends.
pub proof fn law_registry_handle_returned(target: Seq<char>, events: Seq<ResolverEvent>)
    ensures
        ({
            let ledger = run(resolve_spec(target), events);
            &&& ledger.acquired.len() <= 1
            &&& ledger.released.is_prefix_of(ledger.acquired)
            &&& ledger.result is Some ==> ledger.released == ledger.acquired
        }),
{
    lemma_run_settles(resolve_spec(target), events);
}

/// The lookup of a name that the registry does not hold fails with
/// `NotFound`, and the registry handle that it took has been given back.
pub proof fn law_unregistered_name_not_found(
    target: Seq<char>,
    registry: u32,
    lookup_code: i32,
    endpoint: u32,
    release_code: i32,
)
    requires
        lookup_code != KERN_SUCCESS,
    ensures
        ({
            let ledger = run(
                resolve_spec(target),
                seq![
                    ResolverEvent::RegistryAcquired { code: KERN_SUCCESS, registry },
                    ResolverEvent::LookedUp { code: lookup_code, endpoint },
                    ResolverEvent::RegistryReleased { code: release_code },
                ],
            );
            &&& ledger.result == Some(Err::<u32, ResolutionError>(ResolutionError::NotFound))
            &&& ledger.acquired == seq![registry]
            &&& ledger.released == seq![registry]
        }),
{
    reveal_with_fuel(run, 4);
}

} // verus!
