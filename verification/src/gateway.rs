//! The upstream/downstream gateway: building the request that fetches the
//! latest release, parsing the release payload, and building the dispatch
//! call that notifies the downstream repository.
//!
//! The HTTP transport itself is an outside collaborator; this module owns
//! everything around it: exact URLs, headers and bodies, and the reading of
//! the response payload into plain release data.

use vstd::prelude::*;
use crate::errors::{WatchError, WatchErrorStatus, WatchResult};
use crate::config::ProjectConfig;
use crate::release::ReleaseInfo;
use crate::time::Timestamp;

verus! {

/// The JSON encoding of a text value as a JSON string literal, quotes and
/// escapes included. The encoding is a function of the characters alone.
pub uninterp spec fn json_quoted(s: Seq<char>) -> Seq<char>;

/// The milliseconds since the Unix epoch denoted by an RFC 3339
/// date-and-time string, or nothing when the string is not one. The result
/// is a function of the characters alone.
pub uninterp spec fn rfc3339_millis(s: Seq<char>) -> Option<i64>;

/// Whether serde_json parses this text as JSON. A function of the
/// characters alone.
pub uninterp spec fn json_parses(s: Seq<char>) -> bool;

/// The string member under `key` of the text parsed as a JSON object:
/// absent when the text does not parse, is not an object, lacks the key, or
/// holds a non-string there. A function of the two texts alone.
pub uninterp spec fn json_str_field_of(body: Seq<char>, key: Seq<char>) -> Option<Seq<char>>;

/// Relies on serde_json::from_str::<Value>: whether the body is JSON; the
/// parse error's text is kept for the serialization error message.
#[verifier::external_body]
fn try_parse_json(s: &str) -> (r: Result<(), String>)
    ensures
        r is Ok <==> json_parses(s@),
{
    serde_json::from_str::<serde_json::Value>(s).map(|_| ()).map_err(|e| e.to_string())
}

/// Relies on serde_json::from_str::<Value>, Value::get and Value::as_str:
/// the string member of the body's top-level JSON object under `key`.
#[verifier::external_body]
fn json_str_field(body: &str, key: &str) -> (r: Option<String>)
    ensures
        r matches Some(s) ==> json_str_field_of(body@, key@) == Some(s@),
        r is None ==> json_str_field_of(body@, key@) is None,
{
    match serde_json::from_str::<serde_json::Value>(body) {
        Ok(v) => v.get(key).and_then(|m| m.as_str()).map(|s| s.to_string()),
        Err(_) => None,
    }
}

/// Relies on serde_json::to_string for &str, which serializes text as a JSON
/// string literal and cannot fail for strings.
#[verifier::external_body]
fn json_quote(s: &str) -> (r: String)
    ensures
        r@ == json_quoted(s@),
{
    serde_json::to_string(s).unwrap()
}

/// Relies on chrono's DateTime::parse_from_rfc3339 and timestamp_millis: an
/// RFC 3339 string parsed to milliseconds since the Unix epoch.
#[verifier::external_body]
fn parse_rfc3339_millis(s: &str) -> (r: Option<i64>)
    ensures
        r == rfc3339_millis(s@),
{
    chrono::DateTime::parse_from_rfc3339(s).ok().map(|d| d.timestamp_millis())
}

/// The URL that serves the latest release of an upstream repository.
pub open spec fn spec_release_url(owner: Seq<char>, repo: Seq<char>) -> Seq<char> {
    "https://api.github.com/repos/"@ + owner + "/"@ + repo + "/releases/latest"@
}

pub fn release_url(owner: &str, repo: &str) -> (url: String)
    ensures
        url@ == spec_release_url(owner@, repo@),
{
    let mut url = String::from_str("https://api.github.com/repos/");
    url.append(owner);
    url.append("/");
    url.append(repo);
    url.append("/releases/latest");
    url
}

/// The URL that accepts a repository-dispatch event for a downstream
/// repository.
pub open spec fn spec_dispatch_url(owner: Seq<char>, repo: Seq<char>) -> Seq<char> {
    "https://api.github.com/repos/"@ + owner + "/"@ + repo + "/dispatches"@
}

pub fn dispatch_url(owner: &str, repo: &str) -> (url: String)
    ensures
        url@ == spec_dispatch_url(owner@, repo@),
{
    let mut url = String::from_str("https://api.github.com/repos/");
    url.append(owner);
    url.append("/");
    url.append(repo);
    url.append("/dispatches");
    url
}

/// The value of the Authorization header for a bearer token.
pub open spec fn spec_bearer(token: Seq<char>) -> Seq<char> {
    "Bearer "@ + token
}

pub fn bearer_header(token: &str) -> (h: String)
    ensures
        h@ == spec_bearer(token@),
{
    let mut h = String::from_str("Bearer ");
    h.append(token);
    h
}

/// The dispatch event body: event type `upstream_update`, with the new
/// version tag as the client payload.
pub open spec fn spec_dispatch_body(version: Seq<char>) -> Seq<char> {
    "{\"event_type\":\"upstream_update\",\"client_payload\":{\"version\":"@ + json_quoted(version)
        + "}}"@
}

pub fn dispatch_body(version: &str) -> (body: String)
    ensures
        body@ == spec_dispatch_body(version@),
{
    let mut body = String::from_str(
        "{\"event_type\":\"upstream_update\",\"client_payload\":{\"version\":",
    );
    let quoted = json_quote(version);
    body.append(quoted.as_str());
    body.append("}}");
    body
}

/// A fully-determined downstream dispatch call: where to post, the bearer
/// credential to present, and the event body to send.
#[derive(Debug, Clone)]
pub struct DispatchRequest {
    pub url: String,
    pub auth_header: String,
    pub body: String,
}

/// Build the dispatch call for a project and a new version tag, with the
/// already-resolved token as the bearer credential.
pub fn build_dispatch(config: &ProjectConfig, version: &str, token: &str) -> (req: DispatchRequest)
    ensures
        req.url@ == spec_dispatch_url(
            config.request.base_config.my_owner@,
            config.request.base_config.my_repo@,
        ),
        req.auth_header@ == spec_bearer(token@),
        req.body@ == spec_dispatch_body(version@),
{
    DispatchRequest {
        url: dispatch_url(
            config.request.base_config.my_owner.as_str(),
            config.request.base_config.my_repo.as_str(),
        ),
        auth_header: bearer_header(token),
        body: dispatch_body(version),
    }
}

/// A dispatch is accepted only with the no-content status; anything else is
/// an external-API failure.
pub fn check_dispatch_status(status: u16) -> (r: WatchResult<()>)
    ensures
        status == 204 <==> r is Ok,
        r is Err ==> r->Err_0.status == WatchErrorStatus::ExternalApi,
{
    if status == 204 {
        Ok(())
    } else {
        let e = WatchError::external_api(String::from_str("Dispatch was not accepted"));
        Err(e.in_op(String::from_str("github.dispatch")))
    }
}

/// The timestamp an upstream response body carries under `key`: the string
/// member there, read as RFC 3339; absent when the member is missing, not a
/// string, or not RFC 3339-formed.
pub open spec fn spec_time_field(body: Seq<char>, key: Seq<char>) -> Option<Timestamp> {
    match json_str_field_of(body, key) {
        Some(s) => match rfc3339_millis(s) {
            Some(ms) => Some(Timestamp { millis: ms }),
            None => None,
        },
        None => None,
    }
}

/// Read the release fields out of an upstream response body. An unparseable
/// body is a serialization error and a parsed body without a string tag an
/// external-API error; otherwise the result holds exactly the body's tag,
/// and each timestamp field when present and RFC 3339-formed — a missing or
/// malformed timestamp is left absent, so it becomes a skipped check rather
/// than a failure.
pub fn parse_release_body(body: &str) -> (r: WatchResult<ReleaseInfo>)
    ensures
        r is Ok <==> json_parses(body@) && json_str_field_of(body@, "tag_name"@) is Some,
        !json_parses(body@) ==> (r matches Err(e) && e.status == WatchErrorStatus::Serialization),
        json_parses(body@) && json_str_field_of(body@, "tag_name"@) is None ==> (r matches Err(e)
            && e.status == WatchErrorStatus::ExternalApi),
        r matches Ok(info) ==> {
            &&& Some(info.tag_name@) == json_str_field_of(body@, "tag_name"@)
            &&& info.published_at == spec_time_field(body@, "published_at"@)
            &&& info.updated_at == spec_time_field(body@, "updated_at"@)
        },
{
    if let Err(msg) = try_parse_json(body) {
        return Err(WatchError::serialization(msg).in_op(String::from_str("github.parse")));
    }
    let tag_name = match json_str_field(body, "tag_name") {
        Some(s) => s,
        None => {
            let e = WatchError::external_api(String::from_str("Missing 'tag_name' in response"));
            return Err(e.in_op(String::from_str("github.parse.tag")));
        },
    };
    let published_at = parse_time_field(body, "published_at");
    let updated_at = parse_time_field(body, "updated_at");
    Ok(ReleaseInfo { tag_name, published_at, updated_at })
}

/// One optional timestamp field of the release body: present only when the
/// field exists, is a string, and parses as RFC 3339.
fn parse_time_field(body: &str, key: &str) -> (r: Option<Timestamp>)
    ensures
        r == spec_time_field(body@, key@),
{
    match json_str_field(body, key) {
        Some(s) => match parse_rfc3339_millis(s.as_str()) {
            Some(ms) => Some(Timestamp::new(ms)),
            None => None,
        },
        None => None,
    }
}

/// The cooldown before the single rate-limit retry, in seconds.
pub const RATE_LIMIT_WAIT_SECONDS: u64 = 120;

/// The transport's core-visible retry rule: retry exactly once, and only
/// when a 403 response carries a rate-limit-remaining header reading "0";
/// after that one retry the failure surfaces.
pub fn should_retry_rate_limit(
    status: u16,
    rate_limit_remaining: &Option<String>,
    retries_done: u32,
) -> (r: bool)
    ensures
        r == (status == 403 && retries_done == 0 && (rate_limit_remaining matches Some(v) && v@
            == "0"@)),
{
    if status == 403 && retries_done == 0 {
        match rate_limit_remaining {
            Some(v) => {
                let zero = String::from_str("0");
                *v == zero
            },
            None => false,
        }
    } else {
        false
    }
}

/// Classify the upstream fetch response: any status but 200 is an
/// external-API failure; a 200's body is read by [`parse_release_body`],
/// whose result this forwards unchanged.
pub fn read_fetch_response(status: u16, body: &str) -> (r: WatchResult<ReleaseInfo>)
    ensures
        status != 200 ==> (r matches Err(e) && e.status == WatchErrorStatus::ExternalApi),
        r is Ok <==> status == 200 && json_parses(body@) && json_str_field_of(
            body@,
            "tag_name"@,
        ) is Some,
        status == 200 && !json_parses(body@) ==> (r matches Err(e) && e.status
            == WatchErrorStatus::Serialization),
        status == 200 && json_parses(body@) && json_str_field_of(body@, "tag_name"@) is None ==> (
        r matches Err(e) && e.status == WatchErrorStatus::ExternalApi),
        r matches Ok(info) ==> {
            &&& Some(info.tag_name@) == json_str_field_of(body@, "tag_name"@)
            &&& info.published_at == spec_time_field(body@, "published_at"@)
            &&& info.updated_at == spec_time_field(body@, "updated_at"@)
        },
{
    if status != 200 {
        let e = WatchError::external_api(String::from_str("Upstream API error"));
        Err(e.in_op(String::from_str("github.fetch")))
    } else {
        parse_release_body(body)
    }
}

} // verus!
