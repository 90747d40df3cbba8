//! The admin operations: create, delete, pop. They validate caller-supplied
//! data, enforce the no-duplicate-create rule, and drive the registry
//! coordinator.

use vstd::prelude::*;
use crate::config::{CreateProjectRequest, DeleteTarget, ProjectConfig};
use crate::coordinator::{register_monitor, unregister_monitor};
use crate::errors::{WatchError, WatchErrorStatus, WatchResult};
use crate::monitor::MonitorStore;
use crate::registry::Registry;
use crate::time::Timestamp;

verus! {

/// The Unicode white-space characters, the set `str::trim` strips: the
/// ASCII whitespace controls and space, next line, no-break space, ogham
/// space mark, the en/em quad-to-hair spaces, the line and paragraph
/// separators, narrow no-break space, medium mathematical space, and
/// ideographic space.
pub open spec fn is_space(c: char) -> bool {
    let n = c as u32;
    ||| (0x09 <= n && n <= 0x0D)
    ||| n == 0x20
    ||| n == 0x85
    ||| n == 0xA0
    ||| n == 0x1680
    ||| (0x2000 <= n && n <= 0x200A)
    ||| n == 0x2028
    ||| n == 0x2029
    ||| n == 0x202F
    ||| n == 0x205F
    ||| n == 0x3000
}

/// A string is blank when every character is whitespace; the empty string
/// is blank.
pub open spec fn spec_blank(s: Seq<char>) -> bool {
    forall|i: int| 0 <= i < s.len() ==> is_space(s[i])
}

pub fn is_blank(s: &str) -> (r: bool)
    ensures
        r == spec_blank(s@),
{
    let len = s.unicode_len();
    let mut i: usize = 0;
    while i < len
        invariant
            len == s@.len(),
            0 <= i <= len,
            forall|j: int| 0 <= j < i ==> is_space(s@[j]),
        decreases len - i,
    {
        let c = s.get_char(i);
        let n = c as u32;
        let space = (0x09 <= n && n <= 0x0D) || n == 0x20 || n == 0x85 || n == 0xA0 || n == 0x1680
            || (0x2000 <= n && n <= 0x200A) || n == 0x2028 || n == 0x2029 || n == 0x202F || n
            == 0x205F || n == 0x3000;
        if !space {
            return false;
        }
        i += 1;
    }
    true
}

/// Create a project: reject a blank upstream repository name; reject a
/// request whose derived key is already registered; otherwise register it
/// (setup on its actor, then membership) and return the stored record. The
/// caller hands in the actor addressed by the request's derived key.
pub fn create_project(
    registry: &mut Registry,
    monitor: &mut MonitorStore,
    req: CreateProjectRequest,
    now: Timestamp,
) -> (r: WatchResult<ProjectConfig>)
    requires
        old(registry).wf(),
        req.initial_delay.spec_millis() <= i64::MAX,
        now.spec_millis() + req.initial_delay.spec_millis() <= i64::MAX,
    ensures
        final(registry).wf(),
        spec_blank(req.base_config.upstream_repo@) ==> {
            &&& r is Err
            &&& r->Err_0.status == WatchErrorStatus::InvalidInput
            &&& r->Err_0.message@ == "Upstream repo cannot be empty"@
            &&& *final(registry) == *old(registry)
            &&& *final(monitor) == *old(monitor)
        },
        !spec_blank(req.base_config.upstream_repo@) && old(registry).has_key(
            crate::config::unique_key_of(req.base_config),
        ) ==> {
            &&& r is Err
            &&& r->Err_0.status == WatchErrorStatus::Conflict
            &&& r->Err_0.message@ == "Project '"@ + crate::config::unique_key_of(req.base_config)
                + "' already exists"@
            &&& *final(registry) == *old(registry)
            &&& *final(monitor) == *old(monitor)
        },
        !spec_blank(req.base_config.upstream_repo@) && !old(registry).has_key(
            crate::config::unique_key_of(req.base_config),
        ) ==> {
            &&& (r matches Ok(c) && c.unique_key@ == crate::config::unique_key_of(req.base_config)
                && c.request == req)
            &&& final(registry).has_key(crate::config::unique_key_of(req.base_config))
            &&& final(registry).spec_keys() == old(registry).spec_keys().push(
                crate::config::unique_key_of(req.base_config),
            )
            &&& final(monitor).config is Some
            &&& final(monitor).config->0.request == req
            &&& final(monitor).config->0.state is Running
            &&& final(monitor).timer == Some(req.initial_delay.spec_millis() as u64)
        },
{
    if is_blank(req.base_config.upstream_repo.as_str()) {
        let e = WatchError::invalid_input(String::from_str("Upstream repo cannot be empty"));
        return Err(e.in_op(String::from_str("admin.create.validate")));
    }
    let config = ProjectConfig::new(req);
    if registry.contains(&config.unique_key) {
        let mut message = String::from_str("Project '");
        message.append(config.unique_key.as_str());
        message.append("' already exists");
        let e = WatchError::conflict(message);
        return Err(e.in_op(String::from_str("admin.create")));
    }
    let result = config.clone();
    match register_monitor(registry, monitor, config, now) {
        Ok(_key) => Ok(result),
        Err(e) => Err(e.in_op(String::from_str("admin.create.register"))),
    }
}

/// Delete a project: unregister it through the coordinator, reporting
/// whether it existed. Deleting an unknown project is `false`, not an
/// error, and touches no actor; deleting a registered one stops its actor
/// (configuration, fingerprint and timer all cleared) and removes exactly
/// its key.
pub fn delete_project(
    registry: &mut Registry,
    monitor: &mut MonitorStore,
    target: &DeleteTarget,
) -> (r: WatchResult<bool>)
    requires
        old(registry).wf(),
    ensures
        final(registry).wf(),
        r matches Ok(removed) && removed == old(registry).has_key(target.id@),
        !final(registry).has_key(target.id@),
        forall|k: Seq<char>|
            k != target.id@ ==> final(registry).has_key(k) == old(registry).has_key(k),
        !old(registry).has_key(target.id@) ==> (*final(monitor) == *old(monitor)
            && final(registry).spec_keys() == old(registry).spec_keys()),
        old(registry).has_key(target.id@) ==> {
            &&& final(registry).spec_keys().len() + 1 == old(registry).spec_keys().len()
            &&& final(monitor).config is None
            &&& final(monitor).fingerprint is None
            &&& final(monitor).timer is None
        },
{
    match unregister_monitor(registry, monitor, &target.id) {
        Ok(removed) => Ok(removed),
        Err(e) => Err(e.in_op(String::from_str("admin.delete"))),
    }
}

/// Pop a project: find it in a fetched listing by its unique key,
/// unregister it (stop its actor, drop its key), and return the found
/// record; an id not in the listing is answered with nothing and neither
/// the registry nor the actor is touched. The caller hands in the listing
/// and the actor addressed by the id.
pub fn pop_project(
    registry: &mut Registry,
    monitor: &mut MonitorStore,
    configs: &Vec<ProjectConfig>,
    target: &DeleteTarget,
) -> (r: WatchResult<Option<ProjectConfig>>)
    requires
        old(registry).wf(),
    ensures
        final(registry).wf(),
        (forall|j: int| 0 <= j < configs@.len() ==> configs@[j].unique_key@ != target.id@) ==> {
            &&& r == WatchResult::<Option<ProjectConfig>>::Ok(None)
            &&& *final(registry) == *old(registry)
            &&& *final(monitor) == *old(monitor)
        },
        (exists|j: int| 0 <= j < configs@.len() && configs@[j].unique_key@ == target.id@) ==> {
            &&& (r matches Ok(found) && found matches Some(c) && c.unique_key@ == target.id@
                && configs@.contains(c))
            &&& !final(registry).has_key(target.id@)
            &&& (forall|k: Seq<char>|
                k != target.id@ ==> final(registry).has_key(k) == old(registry).has_key(k))
            &&& (old(registry).has_key(target.id@) ==> final(monitor).config is None
                && final(monitor).fingerprint is None && final(monitor).timer is None)
            &&& (!old(registry).has_key(target.id@) ==> *final(monitor) == *old(monitor))
        },
{
    match crate::coordinator::find_config(configs, &target.id) {
        Some(i) => {
            let config = configs[i].clone();
            match unregister_monitor(registry, monitor, &config.unique_key) {
                Ok(_removed) => Ok(Some(config)),
                Err(e) => Err(e.in_op(String::from_str("admin.pop"))),
            }
        },
        None => Ok(None),
    }
}

} // verus!
