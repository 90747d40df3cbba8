//! The domain model: a watched project's configuration, its run state, and
//! the derived identity and storage keys.
//!
//! A project's identity is the unique key
//! `upstream_owner/upstream_repo->my_owner/my_repo`, derived from the four
//! identity fields and nothing else; the registry, actor addressing and
//! version storage all key on it.

use vstd::prelude::*;
use crate::time::{DurationSecs, Timestamp};

verus! {

/// Which upstream timestamp field defines "newer".
#[derive(Debug, Clone, Copy, PartialEq, Eq, Structural)]
pub enum ComparisonMode {
    PublishedAt,
    UpdatedAt,
}

impl Default for ComparisonMode {
    fn default() -> (mode: ComparisonMode)
        ensures
            mode == ComparisonMode::PublishedAt,
    {
        ComparisonMode::PublishedAt
    }
}

/// A monitor's run state: paused, or running with the time of its next check.
#[derive(Debug, Clone, Copy, PartialEq, Eq, Structural)]
pub enum MonitorState {
    Paused,
    Running { next_check_at: Timestamp },
}

impl Default for MonitorState {
    fn default() -> (state: MonitorState)
        ensures
            state == MonitorState::Paused,
    {
        MonitorState::Paused
    }
}

impl MonitorState {
    pub fn is_paused(&self) -> (r: bool)
        ensures
            r == (self is Paused),
    {
        match self {
            MonitorState::Paused => true,
            MonitorState::Running { .. } => false,
        }
    }

    pub fn running(next_check_at: Timestamp) -> (state: MonitorState)
        ensures
            state == (MonitorState::Running { next_check_at }),
    {
        MonitorState::Running { next_check_at }
    }

    pub fn next_check_at(&self) -> (r: Option<Timestamp>)
        ensures
            self is Running ==> r == Some(self->next_check_at),
            self is Paused ==> r is None,
    {
        match self {
            MonitorState::Running { next_check_at } => Some(*next_check_at),
            MonitorState::Paused => None,
        }
    }
}

/// The four identity fields: the upstream repository being watched and the
/// downstream repository to notify.
#[derive(Debug)]
pub struct BaseConfig {
    pub upstream_owner: String,
    pub upstream_repo: String,
    pub my_owner: String,
    pub my_repo: String,
}

impl Clone for BaseConfig {
    fn clone(&self) -> (c: Self)
        ensures
            c == self,
    {
        BaseConfig {
            upstream_owner: self.upstream_owner.clone(),
            upstream_repo: self.upstream_repo.clone(),
            my_owner: self.my_owner.clone(),
            my_repo: self.my_repo.clone(),
        }
    }
}

/// The unique key derived from the four identity fields:
/// `upstream_owner/upstream_repo->my_owner/my_repo`.
pub open spec fn unique_key_of(b: BaseConfig) -> Seq<char> {
    b.upstream_owner@ + "/"@ + b.upstream_repo@ + "->"@ + b.my_owner@ + "/"@ + b.my_repo@
}

/// The storage key under which a project's last-seen release is kept:
/// `v:upstream_owner/upstream_repo`. It depends on the upstream path only,
/// not on the comparison mode or the downstream repository.
pub open spec fn version_key_of(b: BaseConfig) -> Seq<char> {
    "v:"@ + b.upstream_owner@ + "/"@ + b.upstream_repo@
}

impl BaseConfig {
    pub fn generate_unique_key(&self) -> (key: String)
        ensures
            key@ == unique_key_of(*self),
    {
        let mut key = self.upstream_owner.clone();
        key.append("/");
        key.append(self.upstream_repo.as_str());
        key.append("->");
        key.append(self.my_owner.as_str());
        key.append("/");
        key.append(self.my_repo.as_str());
        key
    }

    pub fn version_store_key(&self) -> (key: String)
        ensures
            key@ == version_key_of(*self),
    {
        let mut key = String::from_str("v:");
        key.append(self.upstream_owner.as_str());
        key.append("/");
        key.append(self.upstream_repo.as_str());
        key
    }
}

/// The unique key is a function of the four identity fields alone, so any
/// two configurations that agree on those fields derive the same key, and
/// repeated derivation from the same configuration always yields it again.
pub proof fn lemma_unique_key_deterministic(a: BaseConfig, b: BaseConfig)
    requires
        a.upstream_owner@ == b.upstream_owner@,
        a.upstream_repo@ == b.upstream_repo@,
        a.my_owner@ == b.my_owner@,
        a.my_repo@ == b.my_repo@,
    ensures
        unique_key_of(a) == unique_key_of(b),
{
}

/// The two check cadences: the interval after a successful check and the
/// shorter interval after a failed one.
#[derive(Debug, Clone, Copy, PartialEq, Eq, Structural)]
pub struct TimeConfig {
    pub check_interval: DurationSecs,
    pub retry_interval: DurationSecs,
}

impl Default for TimeConfig {
    /// One hour between successful checks, ten seconds before a retry.
    fn default() -> (t: TimeConfig)
        ensures
            t.check_interval.spec_secs() == 3600,
            t.retry_interval.spec_secs() == 10,
    {
        TimeConfig {
            check_interval: DurationSecs::from_secs(3600),
            retry_interval: DurationSecs::from_secs(10),
        }
    }
}

/// Everything the caller supplies to create or update a watched project.
#[derive(Debug)]
pub struct CreateProjectRequest {
    pub base_config: BaseConfig,
    pub time_config: TimeConfig,
    pub initial_delay: DurationSecs,
    /// The name of the secret holding the dispatch token; when absent, or
    /// when the name does not resolve, the global token is used.
    pub dispatch_token_secret: Option<String>,
    pub comparison_mode: ComparisonMode,
}

impl Clone for CreateProjectRequest {
    fn clone(&self) -> (c: Self)
        ensures
            c == self,
    {
        CreateProjectRequest {
            base_config: self.base_config.clone(),
            time_config: self.time_config,
            initial_delay: self.initial_delay,
            dispatch_token_secret: match &self.dispatch_token_secret {
                Some(s) => Some(s.clone()),
                None => None,
            },
            comparison_mode: self.comparison_mode,
        }
    }
}

/// A watched project as persisted: the caller-supplied request, the derived
/// unique key, and the current run state.
#[derive(Debug)]
pub struct ProjectConfig {
    pub unique_key: String,
    pub state: MonitorState,
    pub request: CreateProjectRequest,
}

impl Clone for ProjectConfig {
    fn clone(&self) -> (c: Self)
        ensures
            c == self,
    {
        ProjectConfig {
            unique_key: self.unique_key.clone(),
            state: self.state,
            request: self.request.clone(),
        }
    }
}

impl ProjectConfig {
    /// Build a project record from a request: the key is derived from the
    /// identity fields and the state starts paused until setup runs.
    pub fn new(request: CreateProjectRequest) -> (config: ProjectConfig)
        ensures
            config.unique_key@ == unique_key_of(request.base_config),
            config.state == MonitorState::Paused,
            config.request == request,
    {
        let unique_key = request.base_config.generate_unique_key();
        ProjectConfig { unique_key, state: MonitorState::Paused, request }
    }

    pub fn version_store_key(&self) -> (key: String)
        ensures
            key@ == version_key_of(self.request.base_config),
    {
        self.request.base_config.version_store_key()
    }

    pub fn generate_unique_key(&self) -> (key: String)
        ensures
            key@ == unique_key_of(self.request.base_config),
    {
        self.request.base_config.generate_unique_key()
    }
}

/// Identifies the project an admin deletion addresses.
#[derive(Debug, Clone)]
pub struct DeleteTarget {
    pub id: String,
}

} // verus!
