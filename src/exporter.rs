//! Export of a recorded event sequence as JSON, an HTTP archive, or a
//! test report.

use vstd::prelude::*;
use crate::error::EngineError;
use crate::event::{events_json, events_to_json, Event, EventType};
use crate::text::{decimal, json_quoted, pow10, push_decimal, push_json_string, push_scaled, scaled_decimal};

verus! {

/// Output formats.
#[derive(Debug, Clone, Copy, PartialEq, Eq, Structural)]
pub enum ExportFormat {
    /// The event array, pretty-printed.
    Json,
    /// An HTTP archive of the external calls.
    Har,
    /// A JUnit-style test report with one test case per event.
    JUnit,
}

/// The RFC 3339 UTC text of the instant `secs` seconds and `nanos`
/// nanoseconds after the epoch, as chrono writes it.
pub uninterp spec fn rfc3339_text(secs: i64, nanos: u32) -> Seq<char>;

/// Relies on chrono's `DateTime::<Utc>::from_timestamp` and `to_rfc3339`:
/// the text depends on the instant alone. Every instant a `u64` of
/// nanoseconds can name lies in chrono's range.
#[verifier::external_body]
fn rfc3339_utc(secs: i64, nanos: u32) -> (r: String)
    ensures
        r@ == rfc3339_text(secs, nanos),
{
    chrono::DateTime::<chrono::Utc>::from_timestamp(secs, nanos).unwrap_or_default().to_rfc3339()
}

pub open spec fn timestamp_text(timestamp_ns: u64) -> Seq<char> {
    rfc3339_text((timestamp_ns / 1_000_000_000) as i64, (timestamp_ns % 1_000_000_000) as u32)
}

/// RFC 3339 UTC text of a time in nanoseconds since the epoch.
pub fn format_timestamp(timestamp_ns: u64) -> (r: String)
    ensures
        r@ == timestamp_text(timestamp_ns),
{
    let secs = (timestamp_ns / 1_000_000_000) as i64;
    let nanos = (timestamp_ns % 1_000_000_000) as u32;
    rfc3339_utc(secs, nanos)
}

pub open spec fn duration_of(e: Event) -> nat {
    match e.duration_us {
        Some(d) => d as nat,
        None => 0,
    }
}

/// The events that record external calls, in order.
pub open spec fn http_events(s: Seq<Event>) -> Seq<Event> {
    s.filter(|e: Event| e.event_type == EventType::ExternalCallMade || e.event_type
        == EventType::ExternalCallCompleted)
}

/// The string member `key` of the JSON object `text`, as serde_json reads
/// it; `None` when `text` is no such object or the member is no string.
pub uninterp spec fn json_text_field(text: Seq<char>, key: Seq<char>) -> Option<Seq<char>>;

/// The unsigned integer member `key` of the JSON object `text`, as
/// serde_json reads it; `None` when there is no such member.
pub uninterp spec fn json_number_field(text: Seq<char>, key: Seq<char>) -> Option<u64>;

/// Relies on `serde_json::from_str` into a `Value`, then `Value::get` and
/// `Value::as_str`: the result depends on the two texts alone.
#[verifier::external_body]
fn text_field(text: &str, key: &str) -> (r: Option<String>)
    ensures
        r is None ==> json_text_field(text@, key@) is None,
        r matches Some(s) ==> json_text_field(text@, key@) == Some(s@),
{
    serde_json::from_str::<serde_json::Value>(text)
        .ok()
        .and_then(|v| v.get(key).and_then(|f| f.as_str()).map(|s| s.to_string()))
}

/// Relies on `serde_json::from_str` into a `Value`, then `Value::get` and
/// `Value::as_u64`: the result depends on the two texts alone.
#[verifier::external_body]
fn number_field(text: &str, key: &str) -> (r: Option<u64>)
    ensures
        r == json_number_field(text@, key@),
{
    serde_json::from_str::<serde_json::Value>(text).ok().and_then(|v| v.get(key).and_then(|f| f.as_u64()))
}

pub open spec fn text_or(v: Option<Seq<char>>, fallback: Seq<char>) -> Seq<char> {
    match v {
        Some(t) => t,
        None => fallback,
    }
}

/// Request method of an entry: the payload's `method`, else `POST`.
pub open spec fn har_method(e: Event) -> Seq<char> {
    text_or(json_text_field(e.data@, "method"@), "POST"@)
}

/// Request URL of an entry: the payload's `url`, else `http://localhost`.
pub open spec fn har_url(e: Event) -> Seq<char> {
    text_or(json_text_field(e.data@, "url"@), "http://localhost"@)
}

/// Response status of an entry: the payload's `status`, else 200.
pub open spec fn har_status(e: Event) -> u64 {
    match json_number_field(e.data@, "status"@) {
        Some(n) => n,
        None => 200,
    }
}

pub open spec fn status_text(status: u64) -> Seq<char> {
    if status == 200 { "OK"@ } else { ""@ }
}

/// One archive entry; the request and response come from the payload.
pub open spec fn har_entry(e: Event) -> Seq<char> {
    "      {\n        \"startedDateTime\": "@ + json_quoted(timestamp_text(e.timestamp_ns))
        + ",\n        \"time\": "@ + scaled_decimal(duration_of(e), 3)
        + ",\n        \"request\": {\n          \"method\": "@ + json_quoted(har_method(e))
        + ",\n          \"url\": "@ + json_quoted(har_url(e))
        + "\n        },\n        \"response\": {\n          \"status\": "@ + decimal(har_status(e) as nat)
        + ",\n          \"statusText\": "@ + json_quoted(status_text(har_status(e)))
        + "\n        }\n      }"@
}

pub open spec fn har_entries(s: Seq<Event>) -> Seq<char>
    decreases s.len(),
{
    if s.len() == 0 {
        Seq::empty()
    } else if s.len() == 1 {
        har_entry(s[0])
    } else {
        har_entries(s.drop_last()) + ",\n"@ + har_entry(s.last())
    }
}

pub open spec fn har_head() -> Seq<char> {
    "{\n  \"log\": {\n    \"version\": \"1.2\",\n    \"creator\": {\n      \"name\": \"Sentra Lab\",\n      \"version\": \"0.1.0\"\n    },\n    \"entries\": "@
}

/// The archive document for a sequence of events.
pub open spec fn har_text(events: Seq<Event>) -> Seq<char> {
    let calls = http_events(events);
    if calls.len() == 0 {
        har_head() + "[]\n  }\n}"@
    } else {
        har_head() + "[\n"@ + har_entries(calls) + "\n    ]\n  }\n}"@
    }
}

pub open spec fn is_error(e: Event) -> bool {
    e.event_type == EventType::ErrorEncountered
}

pub open spec fn count_errors(s: Seq<Event>) -> nat
    decreases s.len(),
{
    if s.len() == 0 {
        0
    } else {
        count_errors(s.drop_last()) + if is_error(s.last()) { 1nat } else { 0nat }
    }
}

/// One test case of the report.
pub open spec fn junit_case(e: Event) -> Seq<char> {
    "  <testcase name=\""@ + e.id@ + "\" time=\""@ + scaled_decimal(duration_of(e), 6) + "\">\n"@
        + (if is_error(e) {
        "    <failure message=\"Error encountered\">"@ + e.data@ + "</failure>\n"@
    } else {
        Seq::empty()
    }) + "  </testcase>"@
}

pub open spec fn junit_cases(s: Seq<Event>) -> Seq<char>
    decreases s.len(),
{
    if s.len() == 0 {
        Seq::empty()
    } else if s.len() == 1 {
        junit_case(s[0])
    } else {
        junit_cases(s.drop_last()) + "\n"@ + junit_case(s.last())
    }
}

/// The test report for a sequence of events.
pub open spec fn junit_text(events: Seq<Event>) -> Seq<char> {
    "<?xml version=\"1.0\" encoding=\"UTF-8\"?>\n<testsuite name=\"Sentra Lab Simulation\" tests=\""@
        + decimal(events.len()) + "\" failures=\""@ + decimal(count_errors(events))
        + "\" time=\"0\">\n"@ + junit_cases(events) + "</testsuite>"@
}

/// Writes event sequences in one format.
pub struct Exporter {
    format: ExportFormat,
}

fn har_entry_text(e: &Event) -> (r: String)
    ensures
        r@ == har_entry(*e),
{
    let mut out = "      {\n        \"startedDateTime\": ".to_string();
    let ts = format_timestamp(e.timestamp_ns);
    push_json_string(&mut out, ts.as_str());
    out.append(",\n        \"time\": ");
    let d = match e.duration_us {
        Some(d) => d,
        None => 0,
    };
    proof {
        reveal_with_fuel(pow10, 4);
    }
    push_scaled(&mut out, d, 1000, 3);
    out.append(",\n        \"request\": {\n          \"method\": ");
    let method = match text_field(e.data.as_str(), "method") {
        Some(m) => m,
        None => "POST".to_string(),
    };
    push_json_string(&mut out, method.as_str());
    out.append(",\n          \"url\": ");
    let url = match text_field(e.data.as_str(), "url") {
        Some(u) => u,
        None => "http://localhost".to_string(),
    };
    push_json_string(&mut out, url.as_str());
    out.append("\n        },\n        \"response\": {\n          \"status\": ");
    let status = match number_field(e.data.as_str(), "status") {
        Some(n) => n,
        None => 200,
    };
    push_decimal(&mut out, status);
    out.append(",\n          \"statusText\": ");
    let text = if status == 200 { "OK" } else { "" };
    push_json_string(&mut out, text);
    out.append("\n        }\n      }");
    out
}

fn junit_case_text(e: &Event) -> (r: String)
    ensures
        r@ == junit_case(*e),
{
    let mut out = "  <testcase name=\"".to_string();
    out.append(e.id.as_str());
    out.append("\" time=\"");
    let d = match e.duration_us {
        Some(d) => d,
        None => 0,
    };
    proof {
        reveal_with_fuel(pow10, 7);
    }
    push_scaled(&mut out, d, 1_000_000, 6);
    out.append("\">\n");
    let failure = if e.event_type == EventType::ErrorEncountered {
        let mut f = "    <failure message=\"Error encountered\">".to_string();
        f.append(e.data.as_str());
        f.append("</failure>\n");
        f
    } else {
        String::new()
    };
    out.append(failure.as_str());
    out.append("  </testcase>");
    out
}

impl Exporter {
    pub closed spec fn format_spec(&self) -> ExportFormat {
        self.format
    }

    pub fn new(format: ExportFormat) -> (r: Self)
        ensures
            r.format_spec() == format,
    {
        Exporter { format }
    }

    /// The document for `events` in this exporter's format.
    pub fn export(&self, events: &Vec<Event>) -> (r: Result<String, EngineError>)
        ensures
            r matches Ok(s) && s@ == match self.format_spec() {
                ExportFormat::Json => events_json(events@, true),
                ExportFormat::Har => har_text(events@),
                ExportFormat::JUnit => junit_text(events@),
            },
    {
        match self.format {
            ExportFormat::Json => self.export_json(events),
            ExportFormat::Har => self.export_har(events),
            ExportFormat::JUnit => self.export_junit(events),
        }
    }

    /// The event array, pretty-printed.
    pub fn export_json(&self, events: &Vec<Event>) -> (r: Result<String, EngineError>)
        ensures
            r matches Ok(s) && s@ == events_json(events@, true),
    {
        Ok(events_to_json(events, true))
    }

    /// An HTTP archive, version 1.2, with one entry per external-call event.
    pub fn export_har(&self, events: &Vec<Event>) -> (r: Result<String, EngineError>)
        ensures
            r matches Ok(s) && s@ == har_text(events@),
    {
        let mut entries = String::new();
        let mut count: usize = 0;
        let mut k: usize = 0;
        while k < events.len()
            invariant
                k <= events@.len(),
                count == http_events(events@.subrange(0, k as int)).len(),
                count == 0 ==> entries@.len() == 0,
                entries@ == har_entries(http_events(events@.subrange(0, k as int))),
            decreases events@.len() - k,
        {
            let ghost prev = events@.subrange(0, k as int);
            let ghost next = events@.subrange(0, k + 1);
            assert(next.drop_last() =~= prev);
            proof {
                reveal_with_fuel(Seq::filter, 1);
            }
            if events[k].event_type.is_external_call() {
                let entry = har_entry_text(&events[k]);
                assert(http_events(next) =~= http_events(prev).push(events@[k as int]));
                if count == 0 {
                    entries = entry;
                } else {
                    entries.append(",\n");
                    entries.append(entry.as_str());
                }
                assert(http_events(next).drop_last() =~= http_events(prev));
                count = count + 1;
            } else {
                assert(http_events(next) =~= http_events(prev));
            }
            k = k + 1;
        }
        assert(events@.subrange(0, events@.len() as int) =~= events@);
        let mut out = "{\n  \"log\": {\n    \"version\": \"1.2\",\n    \"creator\": {\n      \"name\": \"Sentra Lab\",\n      \"version\": \"0.1.0\"\n    },\n    \"entries\": ".to_string();
        if count == 0 {
            out.append("[]\n  }\n}");
        } else {
            out.append("[\n");
            out.append(entries.as_str());
            out.append("\n    ]\n  }\n}");
        }
        Ok(out)
    }

    /// A test report: one suite with a case per event, where each
    /// `error-encountered` event carries a failure holding its payload.
    pub fn export_junit(&self, events: &Vec<Event>) -> (r: Result<String, EngineError>)
        ensures
            r matches Ok(s) && s@ == junit_text(events@),
    {
        let mut cases = String::new();
        let mut failures: usize = 0;
        let mut k: usize = 0;
        while k < events.len()
            invariant
                k <= events@.len(),
                failures == count_errors(events@.subrange(0, k as int)),
                failures <= k,
                cases@ == junit_cases(events@.subrange(0, k as int)),
            decreases events@.len() - k,
        {
            let ghost next = events@.subrange(0, k + 1);
            assert(next.drop_last() =~= events@.subrange(0, k as int));
            let case = junit_case_text(&events[k]);
            if k == 0 {
                cases = case;
            } else {
                cases.append("\n");
                cases.append(case.as_str());
            }
            if events[k].event_type == EventType::ErrorEncountered {
                failures = failures + 1;
            }
            k = k + 1;
        }
        assert(events@.subrange(0, events@.len() as int) =~= events@);
        let mut out = "<?xml version=\"1.0\" encoding=\"UTF-8\"?>\n<testsuite name=\"Sentra Lab Simulation\" tests=\"".to_string();
        push_decimal(&mut out, events.len() as u64);
        out.append("\" failures=\"");
        push_decimal(&mut out, failures as u64);
        out.append("\" time=\"0\">\n");
        out.append(cases.as_str());
        out.append("</testsuite>");
        Ok(out)
    }
}

} // verus!
