//! The registry coordinator: how register, unregister, list, switch and
//! trigger combine the membership set with the addressed project's actor.
//!
//! The platform addresses exactly one actor per unique key and serializes
//! its operations; each function here takes the registry together with the
//! actor addressed by the key it concerns, performs the forwarding decision,
//! and leaves both in the state the operation prescribes. An absent key
//! means no actor call at all: switch and trigger on an unknown project are
//! safe no-ops, not errors.

use vstd::prelude::*;
use crate::config::{MonitorState, ProjectConfig};
use crate::errors::WatchResult;
use crate::monitor::MonitorStore;
use crate::registry::Registry;
use crate::time::Timestamp;

verus! {

/// Register a project: forward setup to its actor (overwriting any prior
/// configuration), then record the key in the membership set. Registering
/// an already-registered key re-runs setup and leaves the set unchanged:
/// registration is idempotent, not additive.
pub fn register_monitor(
    registry: &mut Registry,
    monitor: &mut MonitorStore,
    config: ProjectConfig,
    now: Timestamp,
) -> (r: WatchResult<String>)
    requires
        old(registry).wf(),
        config.request.initial_delay.spec_millis() <= i64::MAX,
        now.spec_millis() + config.request.initial_delay.spec_millis() <= i64::MAX,
    ensures
        final(registry).wf(),
        r matches Ok(key) && key@ == config.unique_key@,
        final(registry).has_key(config.unique_key@),
        old(registry).has_key(config.unique_key@) ==> final(registry).spec_keys() == old(
            registry,
        ).spec_keys(),
        !old(registry).has_key(config.unique_key@) ==> final(registry).spec_keys() == old(
            registry,
        ).spec_keys().push(config.unique_key@),
        forall|k: Seq<char>|
            k != config.unique_key@ ==> final(registry).has_key(k) == old(registry).has_key(k),
        final(monitor).config matches Some(c) && c.unique_key == config.unique_key && c.request
            == config.request && c.state == (MonitorState::Running {
            next_check_at: Timestamp {
                millis: (now.spec_millis() + config.request.initial_delay.spec_millis()) as i64,
            },
        }),
        final(monitor).timer == Some(config.request.initial_delay.spec_millis() as u64),
        final(monitor).fingerprint == old(monitor).fingerprint,
{
    let unique_key = config.unique_key.clone();
    let _ = monitor.setup(config, now);
    registry.add(&unique_key);
    Ok(unique_key)
}

/// Unregister a project. A key absent from the set returns `false` at once,
/// with no actor call: the addressed actor is left exactly as it was.
/// Otherwise the actor is stopped (configuration, fingerprint and timer all
/// cleared), the key is removed, and `true` is returned.
pub fn unregister_monitor(
    registry: &mut Registry,
    monitor: &mut MonitorStore,
    unique_key: &String,
) -> (r: WatchResult<bool>)
    requires
        old(registry).wf(),
    ensures
        final(registry).wf(),
        r matches Ok(removed) && removed == old(registry).has_key(unique_key@),
        !final(registry).has_key(unique_key@),
        !old(registry).has_key(unique_key@) ==> {
            &&& final(registry).spec_keys() == old(registry).spec_keys()
            &&& *final(monitor) == *old(monitor)
        },
        old(registry).has_key(unique_key@) ==> {
            &&& final(registry).spec_keys().len() + 1 == old(registry).spec_keys().len()
            &&& final(monitor).config is None
            &&& final(monitor).fingerprint is None
            &&& final(monitor).timer is None
        },
        forall|k: Seq<char>|
            k != unique_key@ ==> final(registry).has_key(k) == old(registry).has_key(k),
{
    if !registry.contains(unique_key) {
        return Ok(false);
    }
    let _ = monitor.stop();
    let removed = registry.remove(unique_key);
    Ok(removed)
}

/// Whether a project is registered.
pub fn is_registered(registry: &Registry, unique_key: &String) -> (r: WatchResult<bool>)
    ensures
        r == WatchResult::<bool>::Ok(registry.has_key(unique_key@)),
{
    Ok(registry.contains(unique_key))
}

/// Switch a registered project's paused-ness. An unknown key returns
/// `false` without forwarding anything; a known key forwards the switch to
/// its actor and returns `true` (the switch itself is the actor's
/// transition, a no-op when the paused-ness already holds).
pub fn switch_monitor(
    registry: &Registry,
    monitor: &mut MonitorStore,
    unique_key: &String,
    paused: bool,
    now: Timestamp,
) -> (r: WatchResult<bool>)
    ensures
        !registry.has_key(unique_key@) ==> (r matches Ok(forwarded) && !forwarded
            && *final(monitor) == *old(monitor)),
        registry.has_key(unique_key@) ==> (r is Err <==> old(monitor).config is None),
        registry.has_key(unique_key@) && old(monitor).config is Some ==> r
            == WatchResult::<bool>::Ok(true),
        registry.has_key(unique_key@) && old(monitor).config is None ==> *final(monitor) == *old(
            monitor,
        ),
        registry.has_key(unique_key@) ==> (old(monitor).config matches Some(c) ==> {
            &&& final(monitor).fingerprint == old(monitor).fingerprint
            &&& if (c.state is Paused) == paused {
                *final(monitor) == *old(monitor)
            } else if paused {
                final(monitor).config == Some(
                    ProjectConfig { state: MonitorState::Paused, ..c },
                ) && final(monitor).timer is None
            } else {
                final(monitor).config == Some(
                    ProjectConfig { state: MonitorState::Running { next_check_at: now }, ..c },
                ) && final(monitor).timer == Some(0u64)
            }
        }),
{
    if !registry.contains(unique_key) {
        return Ok(false);
    }
    match monitor.switch(paused, now) {
        Ok(()) => Ok(true),
        Err(e) => Err(e),
    }
}

/// Trigger a registered project's check. An unknown key returns `false`
/// without forwarding; a known key passes the actor's trigger gate, handing
/// the caller the configuration to run the check with. The actor is not
/// modified: a manual trigger never touches the timer or the cadence.
pub fn trigger_check(registry: &Registry, monitor: &MonitorStore, unique_key: &String) -> (r:
    WatchResult<bool>)
    ensures
        !registry.has_key(unique_key@) ==> r == WatchResult::<bool>::Ok(false),
        registry.has_key(unique_key@) ==> (r is Err <==> monitor.config is None),
        registry.has_key(unique_key@) && monitor.config is Some ==> r == WatchResult::<
            bool,
        >::Ok(true),
{
    if !registry.contains(unique_key) {
        return Ok(false);
    }
    match monitor.trigger_gate() {
        Ok(_config) => Ok(true),
        Err(e) => Err(e),
    }
}

/// Find the first project with this unique key in a fetched listing.
pub fn find_config(configs: &Vec<ProjectConfig>, id: &String) -> (r: Option<usize>)
    ensures
        r matches Some(i) ==> i < configs@.len() && configs@[i as int].unique_key@ == id@
            && (forall|j: int| 0 <= j < i ==> configs@[j].unique_key@ != id@),
        r is None ==> forall|j: int|
            0 <= j < configs@.len() ==> configs@[j].unique_key@ != id@,
{
    let mut i: usize = 0;
    while i < configs.len()
        invariant
            0 <= i <= configs.len(),
            forall|j: int| 0 <= j < i ==> configs@[j].unique_key@ != id@,
        decreases configs.len() - i,
    {
        if configs[i].unique_key == *id {
            return Some(i);
        }
        i += 1;
    }
    None
}

} // verus!
