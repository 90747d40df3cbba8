//! The command transport contract: the typed requests that cross actor
//! boundaries, each with its route path and HTTP method.
//!
//! A request is a small serializable record with an associated response
//! type; the transport posts it to the addressed actor and decodes the
//! typed response. The wire encoding itself happens at the boundary; here
//! stand the commands, their payloads, and their routing data.

use vstd::prelude::*;
use crate::config::{CreateProjectRequest, DeleteTarget, ProjectConfig};
use crate::errors::{ErrorResponse, WatchError, WatchErrorStatus};

verus! {

/// The HTTP method a request is carried with.
#[derive(Debug, Clone, Copy, PartialEq, Eq, Structural)]
pub enum HttpMethod {
    Get,
    Post,
    Put,
    Delete,
    Patch,
}

// =========================================================
// Commands addressed to one project's monitor actor
// =========================================================

/// Store a configuration and schedule the first check after its initial
/// delay. Response: nothing.
pub struct SetupMonitorCmd {
    pub config: ProjectConfig,
}

impl SetupMonitorCmd {
    pub fn path() -> (p: &'static str)
        ensures
            p@ == "/monitor/setup"@,
    {
        "/monitor/setup"
    }

    pub fn method() -> (m: HttpMethod)
        ensures
            m == HttpMethod::Post,
    {
        HttpMethod::Post
    }
}

/// Clear all state and cancel the timer. Response: nothing.
pub struct StopMonitorCmd;

impl StopMonitorCmd {
    pub fn path() -> (p: &'static str)
        ensures
            p@ == "/monitor/stop"@,
    {
        "/monitor/stop"
    }

    pub fn method() -> (m: HttpMethod)
        ensures
            m == HttpMethod::Delete,
    {
        HttpMethod::Delete
    }
}

/// Run one check immediately, without touching the timer. Response:
/// nothing.
pub struct TriggerCheckCmd;

impl TriggerCheckCmd {
    pub fn path() -> (p: &'static str)
        ensures
            p@ == "/monitor/trigger"@,
    {
        "/monitor/trigger"
    }

    pub fn method() -> (m: HttpMethod)
        ensures
            m == HttpMethod::Post,
    {
        HttpMethod::Post
    }
}

/// Read the stored configuration. Response: the configuration, or absence.
pub struct GetConfigCmd;

impl GetConfigCmd {
    pub fn path() -> (p: &'static str)
        ensures
            p@ == "/monitor/config"@,
    {
        "/monitor/config"
    }

    pub fn method() -> (m: HttpMethod)
        ensures
            m == HttpMethod::Get,
    {
        HttpMethod::Get
    }
}

/// Switch the paused-ness. Response: nothing.
pub struct SwitchMonitorCmd {
    pub paused: bool,
}

impl SwitchMonitorCmd {
    pub fn path() -> (p: &'static str)
        ensures
            p@ == "/monitor/switch"@,
    {
        "/monitor/switch"
    }

    pub fn method() -> (m: HttpMethod)
        ensures
            m == HttpMethod::Post,
    {
        HttpMethod::Post
    }
}

// =========================================================
// Commands addressed to the registry coordinator
// =========================================================

/// Register a project: setup its actor, then record the key. Response: the
/// unique key.
pub struct RegisterMonitorCmd {
    pub config: ProjectConfig,
}

impl RegisterMonitorCmd {
    pub fn path() -> (p: &'static str)
        ensures
            p@ == "/registry/register"@,
    {
        "/registry/register"
    }

    pub fn method() -> (m: HttpMethod)
        ensures
            m == HttpMethod::Post,
    {
        HttpMethod::Post
    }
}

/// Unregister a project: stop its actor and drop the key. Response: whether
/// the key was registered.
pub struct UnregisterMonitorCmd {
    pub unique_key: String,
}

impl UnregisterMonitorCmd {
    pub fn path() -> (p: &'static str)
        ensures
            p@ == "/registry/unregister"@,
    {
        "/registry/unregister"
    }

    pub fn method() -> (m: HttpMethod)
        ensures
            m == HttpMethod::Delete,
    {
        HttpMethod::Delete
    }
}

/// List the configurations of every registered project. Response: the
/// configurations whose actors answered.
pub struct ListMonitorsCmd;

impl ListMonitorsCmd {
    pub fn path() -> (p: &'static str)
        ensures
            p@ == "/registry/list"@,
    {
        "/registry/list"
    }

    pub fn method() -> (m: HttpMethod)
        ensures
            m == HttpMethod::Get,
    {
        HttpMethod::Get
    }
}

/// Membership test. Response: whether the key is registered.
pub struct IsRegisteredCmd {
    pub unique_key: String,
}

impl IsRegisteredCmd {
    pub fn path() -> (p: &'static str)
        ensures
            p@ == "/registry/exists"@,
    {
        "/registry/exists"
    }

    pub fn method() -> (m: HttpMethod)
        ensures
            m == HttpMethod::Get,
    {
        HttpMethod::Get
    }
}

/// Switch a registered project's paused-ness. Response: whether the key was
/// registered and the switch forwarded.
pub struct RegistrySwitchMonitorCmd {
    pub unique_key: String,
    pub paused: bool,
}

impl RegistrySwitchMonitorCmd {
    pub fn path() -> (p: &'static str)
        ensures
            p@ == "/registry/switch"@,
    {
        "/registry/switch"
    }

    pub fn method() -> (m: HttpMethod)
        ensures
            m == HttpMethod::Post,
    {
        HttpMethod::Post
    }
}

/// Trigger a registered project's check. Response: whether the key was
/// registered and the trigger forwarded.
pub struct RegistryTriggerCheckCmd {
    pub unique_key: String,
}

impl RegistryTriggerCheckCmd {
    pub fn path() -> (p: &'static str)
        ensures
            p@ == "/registry/trigger"@,
    {
        "/registry/trigger"
    }

    pub fn method() -> (m: HttpMethod)
        ensures
            m == HttpMethod::Post,
    {
        HttpMethod::Post
    }
}

// =========================================================
// Requests of the admin API surface
// =========================================================

/// List all projects. Response: their configurations.
pub struct ListProjectsRequest;

impl ListProjectsRequest {
    pub fn path() -> (p: &'static str)
        ensures
            p@ == "/api/projects"@,
    {
        "/api/projects"
    }

    pub fn method() -> (m: HttpMethod)
        ensures
            m == HttpMethod::Get,
    {
        HttpMethod::Get
    }
}

/// Delete a project and return its configuration. Response: the
/// configuration, or absence.
pub struct PopProjectRequest {
    pub id: String,
}

impl PopProjectRequest {
    pub fn path() -> (p: &'static str)
        ensures
            p@ == "/api/projects/pop"@,
    {
        "/api/projects/pop"
    }

    pub fn method() -> (m: HttpMethod)
        ensures
            m == HttpMethod::Delete,
    {
        HttpMethod::Delete
    }
}

impl From<DeleteTarget> for PopProjectRequest {
    fn from(target: DeleteTarget) -> (r: PopProjectRequest) {
        PopProjectRequest { id: target.id }
    }
}

impl vstd::std_specs::convert::FromSpecImpl<DeleteTarget> for PopProjectRequest {
    open spec fn obeys_from_spec() -> bool {
        true
    }

    open spec fn from_spec(target: DeleteTarget) -> PopProjectRequest {
        PopProjectRequest { id: target.id }
    }
}

/// Switch a project's paused-ness. Response: whether it was registered.
pub struct SwitchMonitorRequest {
    pub unique_key: String,
    pub paused: bool,
}

impl SwitchMonitorRequest {
    pub fn path() -> (p: &'static str)
        ensures
            p@ == "/api/projects/switch"@,
    {
        "/api/projects/switch"
    }

    pub fn method() -> (m: HttpMethod)
        ensures
            m == HttpMethod::Post,
    {
        HttpMethod::Post
    }
}

/// Trigger a project's check. Response: nothing.
pub struct TriggerCheckRequest {
    pub unique_key: String,
}

impl TriggerCheckRequest {
    pub fn path() -> (p: &'static str)
        ensures
            p@ == "/api/projects/trigger"@,
    {
        "/api/projects/trigger"
    }

    pub fn method() -> (m: HttpMethod)
        ensures
            m == HttpMethod::Post,
    {
        HttpMethod::Post
    }
}

/// The create request reuses [`CreateProjectRequest`]; it travels on the
/// projects route with a POST.
pub fn create_project_path() -> (p: &'static str)
    ensures
        p@ == "/api/projects"@,
{
    "/api/projects"
}

/// The header carrying the admin credential.
pub fn auth_header_key() -> (h: &'static str)
    ensures
        h@ == "X-Auth-Key"@,
{
    "X-Auth-Key"
}

/// The header that marks a non-success reply as a structured error
/// envelope, so the caller only tries to decode bodies the callee wrote.
pub fn rpc_error_header_key() -> (h: &'static str)
    ensures
        h@ == "X-Rpc-Error"@,
{
    "X-Rpc-Error"
}

/// How a command reply is read. A success status is no error. A failure
/// carrying the structured-error marker and a decodable envelope
/// reconstructs the remote error — classification, message and trail — and
/// appends the local call site to the trail; any other failure (a plain
/// transport error page, an undecodable body) collapses to a Store failure
/// with the same call-site breadcrumb. The caller hands in whether the
/// marker header was present and its attempt to decode the body.
pub fn interpret_rpc_response(
    status: u16,
    has_error_marker: bool,
    decoded: Option<ErrorResponse>,
    path: &str,
) -> (r: Option<WatchError>)
    ensures
        status == 200 <==> r is None,
        status != 200 ==> (r matches Some(e) && {
            &&& e.spans@.len() >= 1
            &&& e.spans@.last().operation@ == "rpc.call"@
            &&& e.spans@.last().detail matches Some(d) && d@ == path@
        }),
        status != 200 && has_error_marker ==> (decoded matches Some(env) ==> (r matches Some(e)
            && {
            &&& e.status == env.status
            &&& e.message == env.message
            &&& e.spans@.len() == env.spans@.len() + 1
            &&& e.spans@.subrange(0, env.spans@.len() as int) == env.spans@
        })),
        status != 200 && !(has_error_marker && decoded is Some) ==> (r matches Some(e) && {
            &&& e.status == WatchErrorStatus::Store
            &&& e.message@ == "RPC transport error"@
            &&& e.spans@.len() == 1
        }),
{
    if status == 200 {
        return None;
    }
    let e = if has_error_marker {
        match decoded {
            Some(envelope) => WatchError::from(envelope),
            None => WatchError::store(String::from_str("RPC transport error")),
        }
    } else {
        WatchError::store(String::from_str("RPC transport error"))
    };
    Some(e.in_op_with(String::from_str("rpc.call"), String::from_str(path)))
}

} // verus!
