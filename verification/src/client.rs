//! The backend reporting interface: the exact URLs and bucket identifiers
//! the agent talks to. Sending the requests is I/O and lives outside the
//! library.

use vstd::prelude::*;
use crate::timefmt::{dec_rep, u64_to_string};

verus! {

/// What the backend says about itself.
pub struct Info {
    pub hostname: String,
    pub testing: bool,
}

/// The API root: `http://{host}:{port}/api/0`.
pub open spec fn spec_api_url(host: Seq<char>, port: u16) -> Seq<char> {
    "http://"@ + host + seq![':'] + dec_rep(port as int) + "/api/0"@
}

pub fn api_url_of(host: &str, port: u16) -> (r: String)
    ensures
        r@ == spec_api_url(host@, port),
{
    let mut s = String::from_str("http://");
    s.append(host);
    s.append(":");
    s.append(u64_to_string(port as u64).as_str());
    s.append("/api/0");
    proof {
        reveal_strlit(":");
        assert(s@ =~= spec_api_url(host@, port));
    }
    s
}

/// The bucket resource: `{api}/buckets/{bucketId}`.
pub open spec fn spec_bucket_url(api: Seq<char>, bucket_id: Seq<char>) -> Seq<char> {
    api + "/buckets/"@ + bucket_id
}

pub fn bucket_url_of(api: &str, bucket_id: &str) -> (r: String)
    ensures
        r@ == spec_bucket_url(api@, bucket_id@),
{
    let mut s = String::from_str(api);
    s.append("/buckets/");
    s.append(bucket_id);
    s
}

/// The heartbeat endpoint:
/// `{api}/buckets/{bucketId}/heartbeat?pulsetime={seconds}`.
pub open spec fn spec_heartbeat_url(api: Seq<char>, bucket_id: Seq<char>, pulse_secs: u64)
    -> Seq<char> {
    spec_bucket_url(api, bucket_id) + "/heartbeat?pulsetime="@ + dec_rep(pulse_secs as int)
}

pub fn heartbeat_url_of(api: &str, bucket_id: &str, pulse_secs: u64) -> (r: String)
    ensures
        r@ == spec_heartbeat_url(api@, bucket_id@, pulse_secs),
{
    let mut s = bucket_url_of(api, bucket_id);
    s.append("/heartbeat?pulsetime=");
    s.append(u64_to_string(pulse_secs).as_str());
    s
}

/// The events collection: `{api}/buckets/{bucketId}/events`.
pub open spec fn spec_events_url(api: Seq<char>, bucket_id: Seq<char>) -> Seq<char> {
    spec_bucket_url(api, bucket_id) + "/events"@
}

pub fn events_url_of(api: &str, bucket_id: &str) -> (r: String)
    ensures
        r@ == spec_events_url(api@, bucket_id@),
{
    let mut s = bucket_url_of(api, bucket_id);
    s.append("/events");
    s
}

/// The buckets collection: `{api}/buckets`.
pub fn buckets_url_of(api: &str) -> (r: String)
    ensures
        r@ == api@ + "/buckets"@,
{
    let mut s = String::from_str(api);
    s.append("/buckets");
    s
}

/// The server info endpoint: `{api}/info`.
pub fn info_url_of(api: &str) -> (r: String)
    ensures
        r@ == api@ + "/info"@,
{
    let mut s = String::from_str(api);
    s.append("/info");
    s
}

/// The query pairs of an events request: `start`, `end` and `limit`, in
/// that order, each present exactly when the caller supplied it.
pub fn events_query_params(start: Option<String>, end: Option<String>, limit: Option<u64>) -> (r:
    Vec<(String, String)>)
    ensures
        r@.len() == (if start is Some { 1int } else { 0 }) + (if end is Some { 1int } else { 0 })
            + (if limit is Some { 1int } else { 0 }),
        start matches Some(s) ==> r@[0].0@ == "start"@ && r@[0].1@ == s@,
        start is None && end is Some ==> r@[0].0@ == "end"@ && r@[0].1@ == end->0@,
        start is Some && end is Some ==> r@[1].0@ == "end"@ && r@[1].1@ == end->0@,
        limit matches Some(l) ==> r@[r@.len() - 1].0@ == "limit"@ && r@[r@.len() - 1].1@ == dec_rep(
            l as int,
        ),
    {
    let mut params: Vec<(String, String)> = Vec::new();
    if let Some(s) = start {
        params.push((String::from_str("start"), s));
    }
    if let Some(e) = end {
        params.push((String::from_str("end"), e));
    }
    if let Some(l) = limit {
        params.push((String::from_str("limit"), u64_to_string(l)));
    }
    params
}

/// The per-host bucket name: `{bucketId}_{hostname}`.
pub fn full_bucket_id(bucket_id: &str, hostname: &str) -> (r: String)
    ensures
        r@ == bucket_id@ + seq!['_'] + hostname@,
{
    let mut s = String::from_str(bucket_id);
    s.append("_");
    s.append(hostname);
    proof {
        reveal_strlit("_");
        assert(s@ =~= bucket_id@ + seq!['_'] + hostname@);
    }
    s
}

/// The stock per-host bucket name used when none is configured.
pub fn default_bucket_id(hostname: &str) -> (r: String)
    ensures
        r@ == "aw-watcher-screenshot_"@ + hostname@,
{
    let mut s = String::from_str("aw-watcher-screenshot_");
    s.append(hostname);
    s
}

} // verus!
