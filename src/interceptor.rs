//! Decisions of the intercepting HTTP proxy.
//!
//! For each request the host extracts the target host, and this module
//! decides: a host without a route gets a 502 with a fixed message and no
//! call events; a routed host is forwarded to `<target><path-and-query>`,
//! with an `external-call-made` event before and an
//! `external-call-completed` (or `error-encountered`) event after.

use vstd::prelude::*;
use crate::event::{Event, EventType};
use crate::routing::{resolves, RoutingTable};
use crate::text::{decimal, json_quoted, push_decimal, push_json_string};

verus! {

/// Status of both proxy failure responses.
pub const BAD_GATEWAY: u16 = 502;

/// Body of the response for a host without a route.
pub const NO_ROUTE_MESSAGE: &'static str = "No mock service configured for this host";

/// Body of the response when the mock could not be reached.
pub const FORWARD_FAILED_MESSAGE: &'static str = "Failed to reach mock service";

/// Proxy configuration.
#[derive(Debug, Clone)]
pub struct InterceptorConfig {
    /// Listen address, `host:port`.
    pub listen_addr: String,
    /// Terminate HTTPS for routed hosts.
    pub enable_https: bool,
    /// Log request headers.
    pub log_requests: bool,
    /// Log response headers.
    pub log_responses: bool,
    /// Longest body logged, in bytes; longer ones are cut.
    pub max_log_body_size: usize,
}

impl Default for InterceptorConfig {
    fn default() -> (r: Self)
        ensures
            r.listen_addr@ == "127.0.0.1:8888"@,
            r.enable_https,
            r.log_requests,
            r.log_responses,
            r.max_log_body_size == 10_000,
    {
        InterceptorConfig {
            listen_addr: "127.0.0.1:8888".to_string(),
            enable_https: true,
            log_requests: true,
            log_responses: true,
            max_log_body_size: 10_000,
        }
    }
}

/// `s` up to its first `':'`.
pub open spec fn before_colon(s: Seq<char>) -> Seq<char>
    decreases s.len(),
{
    if s.len() == 0 {
        s
    } else if s[0] == ':' {
        Seq::empty()
    } else {
        seq![s[0]] + before_colon(s.drop_first())
    }
}

/// The host a request is for: the URI's host, else the `host` header
/// without its port, else `unknown`.
pub open spec fn host_of(uri_host: Option<Seq<char>>, header: Option<Seq<char>>) -> Seq<char> {
    match uri_host {
        Some(h) => h,
        None => match header {
            Some(h) => before_colon(h),
            None => "unknown"@,
        },
    }
}

/// The target host of a request.
pub fn request_host(uri_host: Option<&str>, host_header: Option<&str>) -> (r: String)
    ensures
        r@ == host_of(
            match uri_host {
                Some(h) => Some(h@),
                None => None,
            },
            match host_header {
                Some(h) => Some(h@),
                None => None,
            },
        ),
{
    match uri_host {
        Some(h) => h.to_string(),
        None => match host_header {
            Some(h) => {
                let n = h.unicode_len();
                let mut i: usize = 0;
                assert(h@.skip(0) =~= h@);
                assert(h@.subrange(0, 0) + before_colon(h@) =~= before_colon(h@));
                while i < n && h.get_char(i) != ':'
                    invariant
                        i <= n,
                        n == h@.len(),
                        before_colon(h@) == h@.subrange(0, i as int) + before_colon(h@.skip(i as int)),
                    decreases n - i,
                {
                    proof {
                        let rest = h@.skip(i as int);
                        assert(rest.drop_first() =~= h@.skip(i + 1));
                        assert(h@.subrange(0, i + 1) =~= h@.subrange(0, i as int) + seq![h@[i as int]]);
                    }
                    i = i + 1;
                }
                proof {
                    assert(h@.skip(0) =~= h@);
                    if i < n {
                        assert(before_colon(h@.skip(i as int)) =~= Seq::<char>::empty());
                    } else {
                        assert(h@.skip(i as int) =~= Seq::<char>::empty());
                    }
                    assert(before_colon(h@) =~= h@.subrange(0, i as int));
                }
                h.substring_char(0, i).to_string()
            },
            None => "unknown".to_string(),
        },
    }
}

/// The URI a routed request is sent to: the route's target, then the
/// request's own path and query (`/` when there is none).
pub open spec fn forward_uri(target: Seq<char>, path_and_query: Option<Seq<char>>) -> Seq<char> {
    match path_and_query {
        Some(pq) => target + pq,
        None => target + "/"@,
    }
}

/// What the proxy does with one request.
#[derive(Debug)]
pub enum RequestPlan {
    /// Send the request to the mock at `uri`.
    Forward { uri: String },
    /// Answer at once with `status` and `body`.
    Reject { status: u16, body: &'static str },
}

/// Decides how to serve a request for `host`: forward it to the route's
/// target, or answer 502 when no route serves the host.
pub fn plan_request(table: &RoutingTable, host: &str, path_and_query: Option<&str>) -> (r: RequestPlan)
    requires
        table.wf(),
    ensures
        exists|found: Option<crate::routing::Route>|
            #[trigger] resolves(table@, host@, found) && match found {
                None => r matches RequestPlan::Reject { status, body } && status == BAD_GATEWAY
                    && body@ == NO_ROUTE_MESSAGE@,
                Some(route) => r matches RequestPlan::Forward { uri } && uri@ == forward_uri(
                    route.target@,
                    match path_and_query {
                        Some(pq) => Some(pq@),
                        None => None,
                    },
                ),
            },
{
    let found = table.lookup(host);
    match found {
        None => RequestPlan::Reject { status: BAD_GATEWAY, body: NO_ROUTE_MESSAGE },
        Some(route) => {
            let mut uri = route.target.clone();
            match path_and_query {
                Some(pq) => uri.append(pq),
                None => uri.append("/"),
            }
            RequestPlan::Forward { uri }
        },
    }
}

/// The answer when forwarding to the mock failed.
pub fn forward_failure() -> (r: (u16, &'static str))
    ensures
        r.0 == BAD_GATEWAY,
        r.1@ == FORWARD_FAILED_MESSAGE@,
{
    (BAD_GATEWAY, FORWARD_FAILED_MESSAGE)
}

/// The first `max` characters of a body, for logging.
pub fn log_excerpt(body: &str, max: usize) -> (r: String)
    ensures
        body@.len() <= max ==> r@ == body@,
        body@.len() > max ==> r@ == body@.subrange(0, max as int),
{
    let n = body.unicode_len();
    if n <= max {
        body.to_string()
    } else {
        body.substring_char(0, max).to_string()
    }
}

/// Payload of an `external-call-made` event.
pub open spec fn call_made_data(method: Seq<char>, uri: Seq<char>) -> Seq<char> {
    "{\"method\":"@ + json_quoted(method) + ",\"url\":"@ + json_quoted(uri) + "}"@
}

/// Payload of an `external-call-completed` event.
pub open spec fn call_completed_data(status: u16) -> Seq<char> {
    "{\"status\":"@ + decimal(status as nat) + "}"@
}

/// Payload of an `error-encountered` event for a failed forward.
pub open spec fn forward_error_data(uri: Seq<char>, message: Seq<char>) -> Seq<char> {
    "{\"url\":"@ + json_quoted(uri) + ",\"error\":"@ + json_quoted(message) + "}"@
}

/// The event recorded before a request is forwarded.
pub fn call_made_event(id: String, run_id: String, timestamp_ns: u64, method: &str, uri: &str) -> (r: Event)
    ensures
        r.id == id,
        r.run_id == run_id,
        r.event_type == EventType::ExternalCallMade,
        r.timestamp_ns == timestamp_ns,
        r.data@ == call_made_data(method@, uri@),
        r.duration_us is None,
{
    let mut data = "{\"method\":".to_string();
    push_json_string(&mut data, method);
    data.append(",\"url\":");
    push_json_string(&mut data, uri);
    data.append("}");
    Event { id, run_id, event_type: EventType::ExternalCallMade, timestamp_ns, data, duration_us: None }
}

/// The event recorded once the mock answered with `status` after
/// `elapsed_us` microseconds.
pub fn call_completed_event(id: String, run_id: String, timestamp_ns: u64, status: u16, elapsed_us: u64) -> (r: Event)
    ensures
        r.id == id,
        r.run_id == run_id,
        r.event_type == EventType::ExternalCallCompleted,
        r.timestamp_ns == timestamp_ns,
        r.data@ == call_completed_data(status),
        r.duration_us == Some(elapsed_us),
{
    let mut data = "{\"status\":".to_string();
    push_decimal(&mut data, status as u64);
    data.append("}");
    Event {
        id,
        run_id,
        event_type: EventType::ExternalCallCompleted,
        timestamp_ns,
        data,
        duration_us: Some(elapsed_us),
    }
}

/// The event recorded when forwarding to `uri` failed with `message`.
pub fn forward_error_event(id: String, run_id: String, timestamp_ns: u64, uri: &str, message: &str) -> (r: Event)
    ensures
        r.id == id,
        r.run_id == run_id,
        r.event_type == EventType::ErrorEncountered,
        r.timestamp_ns == timestamp_ns,
        r.data@ == forward_error_data(uri@, message@),
        r.duration_us is None,
{
    let mut data = "{\"url\":".to_string();
    push_json_string(&mut data, uri);
    data.append(",\"error\":");
    push_json_string(&mut data, message);
    data.append("}");
    Event { id, run_id, event_type: EventType::ErrorEncountered, timestamp_ns, data, duration_us: None }
}

} // verus!
