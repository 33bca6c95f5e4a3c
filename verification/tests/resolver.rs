use stats_provider::resolver::{
    contains_nul, service_name, ResolutionError, Resolver, ResolverAction, ResolverEvent,
    ResolverStep,
};

/// A registry that knows some names and keeps count of its handles.
struct FakeRegistry {
    acquire_code: i32,
    handle: u32,
    known: Vec<(String, u32)>,
    acquired: u32,
    released: u32,
    lookups: Vec<String>,
}

fn registry() -> FakeRegistry {
    FakeRegistry {
        acquire_code: 0,
        handle: 0x0707,
        known: vec![("git.felix.sketchybar".to_string(), 0x0b07)],
        acquired: 0,
        released: 0,
        lookups: Vec::new(),
    }
}

fn look_up(registry: &mut FakeRegistry, target: &str) -> Result<u32, ResolutionError> {
    let (mut machine, mut action) = Resolver::resolve(target);
    let mut rounds = 0;
    loop {
        rounds += 1;
        assert!(rounds < 10);
        let event = match action {
            ResolverAction::AcquireRegistry => {
                if registry.acquire_code == 0 {
                    registry.acquired += 1;
                }
                ResolverEvent::RegistryAcquired {
                    code: registry.acquire_code,
                    registry: registry.handle,
                }
            }
            ResolverAction::LookUp { registry: handle } => {
                assert_eq!(handle, registry.handle);
                let name = machine.service().to_string();
                registry.lookups.push(name.clone());
                match registry.known.iter().find(|entry| entry.0 == name) {
                    Some(entry) => ResolverEvent::LookedUp { code: 0, endpoint: entry.1 },
                    None => ResolverEvent::LookedUp { code: 1102, endpoint: 0 },
                }
            }
            ResolverAction::ReleaseRegistry { registry: handle } => {
                assert_eq!(handle, registry.handle);
                registry.released += 1;
                ResolverEvent::RegistryReleased { code: 0 }
            }
        };
        match machine.step(event) {
            ResolverStep::Continue(next, then) => {
                machine = next;
                action = then;
            }
            ResolverStep::Finished(result) => return result,
            ResolverStep::Ignored(_) => panic!("the registry's answer was not taken"),
        }
    }
}

#[test]
fn service_name_has_the_fixed_prefix() {
    assert_eq!(service_name("sketchybar"), "git.felix.sketchybar");
    assert_eq!(service_name(""), "git.felix.");
    assert_eq!(service_name("bottom bar"), "git.felix.bottom bar");
}

#[test]
fn nul_is_found_wherever_it_stands() {
    assert!(!contains_nul(""));
    assert!(!contains_nul("sketchybar"));
    assert!(contains_nul("\0"));
    assert!(contains_nul("a\0b"));
    assert!(contains_nul("ab\0"));
    assert!(!contains_nul("é0"));
}

#[test]
fn registered_name_resolves_and_returns_the_handle() {
    let mut r = registry();
    assert_eq!(look_up(&mut r, "sketchybar"), Ok(0x0b07));
    assert_eq!(r.lookups, vec!["git.felix.sketchybar".to_string()]);
    assert_eq!(r.acquired, 1);
    assert_eq!(r.released, 1);
}

#[test]
fn unregistered_name_is_not_found_and_nets_no_handle() {
    let mut r = registry();
    assert_eq!(look_up(&mut r, "nobody"), Err(ResolutionError::NotFound));
    assert_eq!(r.lookups, vec!["git.felix.nobody".to_string()]);
    assert_eq!(r.acquired, 1);
    assert_eq!(r.released, 1);
}

#[test]
fn missing_registry_handle_is_reported_without_a_query() {
    let mut r = registry();
    r.acquire_code = 4;
    assert_eq!(look_up(&mut r, "sketchybar"), Err(ResolutionError::BootstrapUnavailable));
    assert!(r.lookups.is_empty());
    assert_eq!(r.acquired, 0);
    assert_eq!(r.released, 0);
}

#[test]
fn name_with_nul_is_not_found_without_a_query() {
    let mut r = registry();
    assert_eq!(look_up(&mut r, "sketchy\0bar"), Err(ResolutionError::NotFound));
    assert!(r.lookups.is_empty());
    assert_eq!(r.acquired, 1);
    assert_eq!(r.released, 1);
}

#[test]
fn missing_registry_handle_comes_before_a_bad_name() {
    let mut r = registry();
    r.acquire_code = 4;
    assert_eq!(look_up(&mut r, "sketchy\0bar"), Err(ResolutionError::BootstrapUnavailable));
    assert_eq!(r.released, 0);
}

#[test]
fn handles_net_zero_over_many_lookups() {
    let mut r = registry();
    for target in ["sketchybar", "nobody", "a\0", "", "sketchybar"] {
        let _ = look_up(&mut r, target);
        assert_eq!(r.acquired, r.released);
    }
    assert_eq!(r.acquired, 5);
}

#[test]
fn lookup_ignores_events_out_of_turn() {
    let (machine, action) = Resolver::resolve("sketchybar");
    assert_eq!(action, ResolverAction::AcquireRegistry);
    let machine = match machine.step(ResolverEvent::LookedUp { code: 0, endpoint: 5 }) {
        ResolverStep::Ignored(machine) => machine,
        _ => panic!("nothing was looked up yet"),
    };
    let machine = match machine.step(ResolverEvent::RegistryAcquired { code: 0, registry: 3 }) {
        ResolverStep::Continue(machine, action) => {
            assert_eq!(action, ResolverAction::LookUp { registry: 3 });
            machine
        }
        _ => panic!("the handle was not taken"),
    };
    let machine = match machine.step(ResolverEvent::RegistryAcquired { code: 0, registry: 4 }) {
        ResolverStep::Ignored(machine) => machine,
        _ => panic!("a second handle was taken"),
    };
    let machine = match machine.step(ResolverEvent::LookedUp { code: 0, endpoint: 5 }) {
        ResolverStep::Continue(machine, action) => {
            assert_eq!(action, ResolverAction::ReleaseRegistry { registry: 3 });
            machine
        }
        _ => panic!("the endpoint was not taken"),
    };
    match machine.step(ResolverEvent::RegistryReleased { code: 9 }) {
        ResolverStep::Finished(result) => assert_eq!(result, Ok(5)),
        _ => panic!("the lookup did not end"),
    }
}

#[test]
fn resolution_errors_say_what_failed() {
    assert_eq!(ResolutionError::BootstrapUnavailable.message(), "Failed to get bootstrap port");
    assert_eq!(ResolutionError::NotFound.message(), "Failed to look up sketchybar port");
}
