//! Release fingerprints and the freshness comparison.
//!
//! A fingerprint is the last-seen release's tag together with a mode-tagged
//! timestamp. A remote release is dispatched only when it is strictly fresher
//! than the stored fingerprint; a fingerprint recorded under a different
//! comparison mode is treated as stale and always superseded (self-healing
//! after a mode change), never as an error that blocks dispatch.

use vstd::prelude::*;
use crate::config::ComparisonMode;
use crate::errors::{WatchError, WatchErrorStatus, WatchResult};
use crate::time::Timestamp;

verus! {

/// A release timestamp tagged with the comparison mode it was read under.
#[derive(Debug, Clone, Copy, PartialEq, Eq, Structural)]
pub enum ReleaseTimestamp {
    Published(Timestamp),
    Updated(Timestamp),
}

impl ReleaseTimestamp {
    /// Whether two tagged timestamps carry the same mode tag.
    pub open spec fn same_mode(self, other: ReleaseTimestamp) -> bool {
        match (self, other) {
            (ReleaseTimestamp::Published(_), ReleaseTimestamp::Published(_)) => true,
            (ReleaseTimestamp::Updated(_), ReleaseTimestamp::Updated(_)) => true,
            _ => false,
        }
    }

    /// The timestamp value, with the mode tag stripped.
    pub open spec fn spec_time(self) -> Timestamp {
        match self {
            ReleaseTimestamp::Published(t) => t,
            ReleaseTimestamp::Updated(t) => t,
        }
    }
}

/// The stored fingerprint of an upstream release: its tag and the
/// mode-tagged timestamp it was seen with.
#[derive(Debug)]
pub struct GitHubRelease {
    pub tag_name: String,
    pub timestamp: ReleaseTimestamp,
}

impl Clone for GitHubRelease {
    fn clone(&self) -> (c: Self)
        ensures
            c == self,
    {
        GitHubRelease { tag_name: self.tag_name.clone(), timestamp: self.timestamp }
    }
}

/// Same-mode freshness: strictly greater means newer.
pub open spec fn newer_same_mode(new: ReleaseTimestamp, stored: ReleaseTimestamp) -> bool {
    new.spec_time().spec_millis() > stored.spec_time().spec_millis()
}

/// The freshness rule of the check algorithm: with no stored fingerprint the
/// remote release counts as newer; with a same-mode fingerprint it is newer
/// exactly when strictly greater; with a mismatched-mode fingerprint it is
/// treated as newer so one dispatch repairs the stale record.
pub open spec fn fresh_against(new: ReleaseTimestamp, stored: Option<GitHubRelease>) -> bool {
    match stored {
        None => true,
        Some(old) => {
            if new.same_mode(old.timestamp) {
                newer_same_mode(new, old.timestamp)
            } else {
                true
            }
        },
    }
}

impl GitHubRelease {
    /// Whether this release is strictly newer than `current`. Comparable only
    /// when both timestamps carry the same mode tag; a mismatch is reported
    /// as an invalid-input error for the caller to interpret.
    pub fn is_newer_than(&self, current: &GitHubRelease) -> (r: WatchResult<bool>)
        ensures
            self.timestamp.same_mode(current.timestamp) ==> r == WatchResult::<bool>::Ok(
                newer_same_mode(self.timestamp, current.timestamp),
            ),
            !self.timestamp.same_mode(current.timestamp) ==> {
                &&& r is Err
                &&& r->Err_0.status == WatchErrorStatus::InvalidInput
                &&& r->Err_0.message@ == "Comparison mode mismatch"@
                &&& r->Err_0.spans@.len() == 1
                &&& r->Err_0.spans@.last().operation@ == "release.compare"@
            },
    {
        match (&self.timestamp, &current.timestamp) {
            (ReleaseTimestamp::Published(t_new), ReleaseTimestamp::Published(t_old)) => {
                Ok(t_new.is_after(t_old))
            },
            (ReleaseTimestamp::Updated(t_new), ReleaseTimestamp::Updated(t_old)) => {
                Ok(t_new.is_after(t_old))
            },
            _ => {
                let e = WatchError::invalid_input(String::from_str("Comparison mode mismatch"));
                Err(e.in_op(String::from_str("release.compare")))
            },
        }
    }
}

/// The raw release data fetched from upstream: the tag and whichever
/// timestamp fields the response carried.
#[derive(Debug, Clone)]
pub struct ReleaseInfo {
    pub tag_name: String,
    pub published_at: Option<Timestamp>,
    pub updated_at: Option<Timestamp>,
}

/// The timestamp field of `info` selected by `mode`, tagged with that mode;
/// absent when the response did not carry the field.
pub open spec fn spec_comparison_timestamp(info: ReleaseInfo, mode: ComparisonMode) -> Option<
    ReleaseTimestamp,
> {
    match mode {
        ComparisonMode::PublishedAt => match info.published_at {
            Some(t) => Some(ReleaseTimestamp::Published(t)),
            None => None,
        },
        ComparisonMode::UpdatedAt => match info.updated_at {
            Some(t) => Some(ReleaseTimestamp::Updated(t)),
            None => None,
        },
    }
}

impl ReleaseInfo {
    /// The timestamp field selected by the comparison mode, tagged with that
    /// mode; absent when the response did not carry the field.
    pub fn comparison_timestamp(&self, mode: ComparisonMode) -> (r: Option<ReleaseTimestamp>)
        ensures
            r == spec_comparison_timestamp(*self, mode),
    {
        match mode {
            ComparisonMode::PublishedAt => {
                match self.published_at {
                    Some(t) => Some(ReleaseTimestamp::Published(t)),
                    None => None,
                }
            },
            ComparisonMode::UpdatedAt => {
                match self.updated_at {
                    Some(t) => Some(ReleaseTimestamp::Updated(t)),
                    None => None,
                }
            },
        }
    }
}

/// Same-mode timestamps compare by their time values: the remote release is
/// newer exactly when its timestamp is strictly greater.
pub proof fn lemma_same_mode_newer_iff_greater(new: ReleaseTimestamp, old: GitHubRelease)
    requires
        new.same_mode(old.timestamp),
    ensures
        fresh_against(new, Some(old)) <==> new.spec_time().spec_millis()
            > old.timestamp.spec_time().spec_millis(),
{
}

/// A fingerprint recorded under a different comparison mode never blocks
/// dispatch: the mismatched comparison counts as newer.
pub proof fn lemma_mismatched_mode_is_newer(new: ReleaseTimestamp, old: GitHubRelease)
    requires
        !new.same_mode(old.timestamp),
    ensures
        fresh_against(new, Some(old)),
{
}

/// With no stored fingerprint every remote release counts as newer.
pub proof fn lemma_no_fingerprint_is_newer(new: ReleaseTimestamp)
    ensures
        fresh_against(new, None),
{
}

} // verus!
