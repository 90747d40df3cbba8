//! The check-and-dispatch decision: given what the fetch returned and what
//! fingerprint is stored, decide whether to dispatch, resolve the dispatch
//! token, and word the operator-facing status line.
//!
//! Every function here is a pure decision over plain values; the fetch and
//! the dispatch call themselves happen outside and hand their results in.

use vstd::prelude::*;
use crate::config::BaseConfig;
use crate::errors::{WatchError, WatchResult};
use crate::release::{
    fresh_against, spec_comparison_timestamp, GitHubRelease, ReleaseInfo, ReleaseTimestamp,
};
use crate::config::ProjectConfig;

verus! {

/// What one check decided, before any dispatch call is made.
#[derive(Debug, Clone)]
pub enum CheckEval {
    /// The upstream fetch failed; the error carries its classification.
    FetchFailed { error: WatchError },
    /// The release lacks the timestamp field the comparison mode needs:
    /// a successful no-op.
    Skipped,
    /// The remote release is not newer than the stored fingerprint.
    NoChange,
    /// The remote release is fresh: dispatch, and on success store this
    /// fingerprint.
    Dispatch { fingerprint: GitHubRelease },
}

/// The check decision: a failed fetch is reported as-is; a release without
/// the mode's timestamp field is skipped; otherwise the freshness rule of
/// [`fresh_against`] decides between no-change and dispatch, and the
/// fingerprint to be stored is the remote tag with its mode-tagged
/// timestamp.
pub fn evaluate_check(
    config: &ProjectConfig,
    fetched: WatchResult<ReleaseInfo>,
    stored: &Option<GitHubRelease>,
) -> (eval: CheckEval)
    ensures
        fetched is Err ==> (eval matches CheckEval::FetchFailed { error } && error
            == fetched->Err_0),
        fetched matches Ok(info) ==> match spec_comparison_timestamp(
            info,
            config.request.comparison_mode,
        ) {
            None => eval is Skipped,
            Some(ts) => {
                if fresh_against(ts, *stored) {
                    &&& eval matches CheckEval::Dispatch { fingerprint }
                    &&& fingerprint.tag_name == info.tag_name
                    &&& fingerprint.timestamp == ts
                } else {
                    eval is NoChange
                }
            },
        },
{
    let info = match fetched {
        Ok(info) => info,
        Err(error) => {
            return CheckEval::FetchFailed { error };
        },
    };
    let ts = match info.comparison_timestamp(config.request.comparison_mode) {
        Some(ts) => ts,
        None => {
            return CheckEval::Skipped;
        },
    };
    let is_fresh = match stored {
        None => true,
        Some(old) => {
            let remote = GitHubRelease { tag_name: info.tag_name.clone(), timestamp: ts };
            match remote.is_newer_than(old) {
                Ok(newer) => newer,
                // A mode mismatch means the stored fingerprint predates a
                // comparison-mode change: treat the remote as newer so one
                // dispatch repairs the stale record.
                Err(_) => true,
            }
        },
    };
    if is_fresh {
        CheckEval::Dispatch { fingerprint: GitHubRelease { tag_name: info.tag_name, timestamp: ts } }
    } else {
        CheckEval::NoChange
    }
}

/// Which bearer token the dispatch uses: the project's named secret when it
/// is named and its lookup resolved; the global token when the name did not
/// resolve or none was named.
pub fn resolve_token(
    named: &Option<String>,
    lookup: Option<String>,
    global: &String,
) -> (token: String)
    ensures
        named is Some && lookup is Some ==> token@ == lookup->0@,
        named is Some && lookup is None ==> token@ == global@,
        named is None ==> token@ == global@,
{
    match named {
        Some(_) => match lookup {
            Some(value) => value,
            None => global.clone(),
        },
        None => global.clone(),
    }
}

/// Status line for a check skipped for want of the timestamp field.
pub open spec fn spec_status_skipped(b: BaseConfig) -> Seq<char> {
    "Skipped "@ + b.upstream_owner@ + "/"@ + b.upstream_repo@ + " (No timestamp)"@
}

pub fn status_skipped(b: &BaseConfig) -> (s: String)
    ensures
        s@ == spec_status_skipped(*b),
{
    let mut s = String::from_str("Skipped ");
    s.append(b.upstream_owner.as_str());
    s.append("/");
    s.append(b.upstream_repo.as_str());
    s.append(" (No timestamp)");
    s
}

/// Status line for a check that found nothing newer.
pub open spec fn spec_status_no_change(b: BaseConfig) -> Seq<char> {
    "No change for "@ + b.upstream_owner@ + "/"@ + b.upstream_repo@
}

pub fn status_no_change(b: &BaseConfig) -> (s: String)
    ensures
        s@ == spec_status_no_change(*b),
{
    let mut s = String::from_str("No change for ");
    s.append(b.upstream_owner.as_str());
    s.append("/");
    s.append(b.upstream_repo.as_str());
    s
}

/// Status line for a successful dispatch of a new version.
pub open spec fn spec_status_updated(b: BaseConfig, tag: Seq<char>) -> Seq<char> {
    "Updated "@ + b.upstream_owner@ + "/"@ + b.upstream_repo@ + " to "@ + tag
}

pub fn status_updated(b: &BaseConfig, tag: &str) -> (s: String)
    ensures
        s@ == spec_status_updated(*b, tag@),
{
    let mut s = String::from_str("Updated ");
    s.append(b.upstream_owner.as_str());
    s.append("/");
    s.append(b.upstream_repo.as_str());
    s.append(" to ");
    s.append(tag);
    s
}

/// Status line for a check that failed, carrying the error's message.
pub open spec fn spec_status_error(b: BaseConfig, message: Seq<char>) -> Seq<char> {
    "Error checking "@ + b.upstream_repo@ + ": "@ + message
}

pub fn status_error(b: &BaseConfig, error: &WatchError) -> (s: String)
    ensures
        s@ == spec_status_error(*b, error.message@),
{
    let mut s = String::from_str("Error checking ");
    s.append(b.upstream_repo.as_str());
    s.append(": ");
    s.append(error.message.as_str());
    s
}

/// Status line for a project skipped because it is paused.
pub open spec fn spec_status_paused(b: BaseConfig) -> Seq<char> {
    "Skipped "@ + b.upstream_owner@ + "/"@ + b.upstream_repo@ + " (Paused)"@
}

pub fn status_paused(b: &BaseConfig) -> (s: String)
    ensures
        s@ == spec_status_paused(*b),
{
    let mut s = String::from_str("Skipped ");
    s.append(b.upstream_owner.as_str());
    s.append("/");
    s.append(b.upstream_repo.as_str());
    s.append(" (Paused)");
    s
}

} // verus!
