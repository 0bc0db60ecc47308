//! Recorded events and their canonical JSON text.

use vstd::prelude::*;
use crate::text::{decimal, json_quoted, push_decimal, push_json_string};

verus! {

/// The closed set of event kinds.
#[derive(Debug, Clone, Copy, PartialEq, Eq, Structural)]
pub enum EventType {
    AgentStarted,
    InputReceived,
    ExternalCallMade,
    ExternalCallCompleted,
    StateChanged,
    DecisionMade,
    ErrorEncountered,
    OutputProduced,
    AgentCompleted,
}

/// The tag each kind carries in serialized form.
pub open spec fn event_tag(t: EventType) -> Seq<char> {
    match t {
        EventType::AgentStarted => "agent_started"@,
        EventType::InputReceived => "input_received"@,
        EventType::ExternalCallMade => "external_call_made"@,
        EventType::ExternalCallCompleted => "external_call_completed"@,
        EventType::StateChanged => "state_changed"@,
        EventType::DecisionMade => "decision_made"@,
        EventType::ErrorEncountered => "error_encountered"@,
        EventType::OutputProduced => "output_produced"@,
        EventType::AgentCompleted => "agent_completed"@,
    }
}

impl EventType {
    /// The serialized tag of this kind.
    pub fn tag(&self) -> (r: &'static str)
        ensures
            r@ == event_tag(*self),
    {
        match self {
            EventType::AgentStarted => "agent_started",
            EventType::InputReceived => "input_received",
            EventType::ExternalCallMade => "external_call_made",
            EventType::ExternalCallCompleted => "external_call_completed",
            EventType::StateChanged => "state_changed",
            EventType::DecisionMade => "decision_made",
            EventType::ErrorEncountered => "error_encountered",
            EventType::OutputProduced => "output_produced",
            EventType::AgentCompleted => "agent_completed",
        }
    }

    /// Whether this kind records one side of an outbound HTTP call.
    pub fn is_external_call(&self) -> (r: bool)
        ensures
            r <==> (*self == EventType::ExternalCallMade || *self
                == EventType::ExternalCallCompleted),
    {
        match self {
            EventType::ExternalCallMade | EventType::ExternalCallCompleted => true,
            _ => false,
        }
    }
}

/// An event to be recorded.
#[derive(Debug, Clone)]
pub struct Event {
    /// Unique event id.
    pub id: String,
    /// Simulation run id.
    pub run_id: String,
    /// Event kind.
    pub event_type: EventType,
    /// Wall time, nanoseconds since the epoch.
    pub timestamp_ns: u64,
    /// Structured payload, as JSON text.
    pub data: String,
    /// Duration in microseconds, when the event spans time.
    pub duration_us: Option<u64>,
}

/// Separators of the two layouts: compact, or indented as an element of an
/// array.
pub open spec fn obj_open(pretty: bool) -> Seq<char> {
    if pretty { "{\n    \"id\": "@ } else { "{\"id\":"@ }
}

pub open spec fn obj_field(pretty: bool, key: Seq<char>) -> Seq<char> {
    if pretty { ",\n    \""@ + key + "\": "@ } else { ",\""@ + key + "\":"@ }
}

pub open spec fn obj_close(pretty: bool) -> Seq<char> {
    if pretty { "\n  }"@ } else { "}"@ }
}

pub open spec fn optional_number(v: Option<u64>) -> Seq<char> {
    match v {
        Some(n) => decimal(n as nat),
        None => "null"@,
    }
}

/// The JSON object for one event. The payload is already JSON and is
/// written as it stands.
pub open spec fn event_json(e: Event, pretty: bool) -> Seq<char> {
    obj_open(pretty) + json_quoted(e.id@)
        + obj_field(pretty, "run_id"@) + json_quoted(e.run_id@)
        + obj_field(pretty, "event_type"@) + json_quoted(event_tag(e.event_type))
        + obj_field(pretty, "timestamp_ns"@) + decimal(e.timestamp_ns as nat)
        + obj_field(pretty, "data"@) + e.data@
        + obj_field(pretty, "duration_us"@) + optional_number(e.duration_us)
        + obj_close(pretty)
}

pub open spec fn array_item(e: Event, pretty: bool) -> Seq<char> {
    if pretty { "  "@ + event_json(e, true) } else { event_json(e, false) }
}

pub open spec fn array_sep(pretty: bool) -> Seq<char> {
    if pretty { ",\n"@ } else { ","@ }
}

/// The elements of a JSON array of events, separated but not enclosed.
pub open spec fn events_body(s: Seq<Event>, pretty: bool) -> Seq<char>
    decreases s.len(),
{
    if s.len() == 0 {
        Seq::empty()
    } else if s.len() == 1 {
        array_item(s[0], pretty)
    } else {
        events_body(s.drop_last(), pretty) + array_sep(pretty) + array_item(s.last(), pretty)
    }
}

/// A JSON array of events: compact, or pretty-printed one field per line.
pub open spec fn events_json(s: Seq<Event>, pretty: bool) -> Seq<char> {
    if s.len() == 0 {
        "[]"@
    } else if pretty {
        "[\n"@ + events_body(s, true) + "\n]"@
    } else {
        "["@ + events_body(s, false) + "]"@
    }
}

fn push_field_name(out: &mut String, pretty: bool, key: &str)
    ensures
        final(out)@ == old(out)@ + obj_field(pretty, key@),
{
    let ghost start = out@;
    let mut piece = if pretty {
        ",\n    \"".to_string()
    } else {
        ",\"".to_string()
    };
    piece.append(key);
    if pretty {
        piece.append("\": ");
    } else {
        piece.append("\":");
    }
    out.append(piece.as_str());
}

/// The JSON object of `e`.
pub fn event_to_json(e: &Event, pretty: bool) -> (r: String)
    ensures
        r@ == event_json(*e, pretty),
{
    let mut out = if pretty {
        "{\n    \"id\": ".to_string()
    } else {
        "{\"id\":".to_string()
    };
    assert(out@ == obj_open(pretty));
    push_json_string(&mut out, e.id.as_str());
    push_field_name(&mut out, pretty, "run_id");
    push_json_string(&mut out, e.run_id.as_str());
    push_field_name(&mut out, pretty, "event_type");
    push_json_string(&mut out, e.event_type.tag());
    push_field_name(&mut out, pretty, "timestamp_ns");
    push_decimal(&mut out, e.timestamp_ns);
    push_field_name(&mut out, pretty, "data");
    out.append(e.data.as_str());
    push_field_name(&mut out, pretty, "duration_us");
    match e.duration_us {
        Some(n) => push_decimal(&mut out, n),
        None => out.append("null"),
    }
    if pretty {
        out.append("\n  }");
    } else {
        out.append("}");
    }
    out
}

fn array_item_json(e: &Event, pretty: bool) -> (r: String)
    ensures
        r@ == array_item(*e, pretty),
{
    let obj = event_to_json(e, pretty);
    if pretty {
        let mut out = "  ".to_string();
        out.append(obj.as_str());
        out
    } else {
        obj
    }
}

/// The JSON array of `events`; `pretty` selects the indented layout.
pub fn events_to_json(events: &Vec<Event>, pretty: bool) -> (r: String)
    ensures
        r@ == events_json(events@, pretty),
{
    if events.len() == 0 {
        return "[]".to_string();
    }
    let mut body = String::new();
    let mut i: usize = 0;
    while i < events.len()
        invariant
            i <= events.len(),
            body@ == events_body(events@.subrange(0, i as int), pretty),
        decreases events.len() - i,
    {
        let item = array_item_json(&events[i], pretty);
        let ghost s = events@.subrange(0, i + 1);
        assert(s.drop_last() =~= events@.subrange(0, i as int));
        if i > 0 {
            if pretty {
                body.append(",\n");
            } else {
                body.append(",");
            }
            body.append(item.as_str());
        } else {
            body = item;
            assert(s.len() == 1);
        }
        i = i + 1;
    }
    assert(events@.subrange(0, events.len() as int) =~= events@);
    let mut out = if pretty {
        "[\n".to_string()
    } else {
        "[".to_string()
    };
    out.append(body.as_str());
    if pretty {
        out.append("\n]");
    } else {
        out.append("]");
    }
    out
}

} // verus!
