use crate::timestamp::Timestamp;
use uuid::Uuid;
use vstd::prelude::*;
use vstd::string::StringExecFns;

verus! {

/// A notification as the publisher creates it: identity, category, display
/// text and the instant it refers to.
#[derive(Clone, Debug)]
pub struct NotificationEvent {
    pub id: String,
    pub event_type: String,
    pub title: String,
    pub message: String,
    pub timestamp: Timestamp,
}

/// The mathematical value of a [`NotificationEvent`].
pub struct EventView {
    pub id: Seq<char>,
    pub event_type: Seq<char>,
    pub title: Seq<char>,
    pub message: Seq<char>,
    pub timestamp: Timestamp,
}

impl View for NotificationEvent {
    type V = EventView;

    open spec fn view(&self) -> EventView {
        EventView {
            id: self.id@,
            event_type: self.event_type@,
            title: self.title@,
            message: self.message@,
            timestamp: self.timestamp,
        }
    }
}

/// Length of the hyphenated text form of a UUID.
pub const ID_LEN: usize = 36;

/// The JSON string literal (quoted and escaped) that encodes a text, or `None`
/// where the encoder reports an error.
pub uninterp spec fn json_string_literal(s: Seq<char>) -> Option<Seq<char>>;

/// Category given to an ingested event that names none.
pub open spec fn default_event_type_spec() -> Seq<char> {
    "notification"@
}

/// The instant an event gets: the supplied one where there is one, else the
/// creation instant.
pub open spec fn resolved_timestamp(supplied: Option<Timestamp>, now: Timestamp) -> Timestamp {
    match supplied {
        Some(t) => t,
        None => now,
    }
}

/// The text of an optional string.
pub open spec fn text_of(s: Option<String>) -> Option<Seq<char>> {
    match s {
        Some(t) => Some(t@),
        None => None,
    }
}

/// The instant that an optional RFC 3339 text supplies, if it parses.
pub open spec fn supplied_instant(text: Option<Seq<char>>) -> Option<Timestamp> {
    match text {
        Some(s) => match crate::timestamp::rfc3339_instant(s) {
            Some(p) => Some(Timestamp { secs: p.0, nanos: p.1 }),
            None => None,
        },
        None => None,
    }
}

/// The JSON object that carries an event on the wire, its fields in
/// declaration order and the instant in RFC 3339 form; `None` where a field
/// cannot be encoded.
pub open spec fn event_json_text(e: EventView) -> Option<Seq<char>> {
    match (
        json_string_literal(e.id),
        json_string_literal(e.event_type),
        json_string_literal(e.title),
        json_string_literal(e.message),
        crate::timestamp::rfc3339_text(e.timestamp.secs, e.timestamp.nanos),
    ) {
        (Some(id), Some(et), Some(ti), Some(me), Some(ts)) => match json_string_literal(ts) {
            Some(tq) => Some(
                "{\"id\":"@ + id + ",\"event_type\":"@ + et + ",\"title\":"@ + ti
                    + ",\"message\":"@ + me + ",\"timestamp\":"@ + tq + "}"@,
            ),
            None => None,
        },
        _ => None,
    }
}

/// The category given to an ingested event that names none: `"notification"`.
pub fn default_event_type() -> (r: String)
    ensures
        r@ == default_event_type_spec(),
{
    String::from_str("notification")
}

/// Picks the instant of a new event: the supplied one where there is one, else
/// the creation instant.
pub fn resolve_timestamp(supplied: Option<Timestamp>, now: Timestamp) -> (r: Timestamp)
    ensures
        r == resolved_timestamp(supplied, now),
{
    match supplied {
        Some(t) => t,
        None => now,
    }
}

impl NotificationEvent {
    /// A new event with a fresh identifier, stamped with the current instant.
    pub fn new(event_type: String, title: String, message: String) -> (r: NotificationEvent)
        ensures
            r.event_type@ == event_type@,
            r.title@ == title@,
            r.message@ == message@,
            r.id@.len() == ID_LEN,
            r.timestamp.wf(),
    {
        NotificationEvent {
            id: fresh_id(),
            event_type,
            title,
            message,
            timestamp: Timestamp::now(),
        }
    }

    /// A new event with a fresh identifier, stamped with the supplied RFC 3339
    /// instant (normalised to UTC) where it parses, else with the current one.
    pub fn new_with_timestamp(
        event_type: String,
        title: String,
        message: String,
        timestamp: Option<String>,
    ) -> (r: NotificationEvent)
        ensures
            r.event_type@ == event_type@,
            r.title@ == title@,
            r.message@ == message@,
            r.id@.len() == ID_LEN,
            r.timestamp.wf(),
            supplied_instant(text_of(timestamp)) is Some ==> Some(r.timestamp)
                == supplied_instant(text_of(timestamp)),
    {
        let supplied = match &timestamp {
            Some(text) => Timestamp::parse_rfc3339(text.as_str()),
            None => None,
        };
        let stamp = resolve_timestamp(supplied, Timestamp::now());
        NotificationEvent { id: fresh_id(), event_type, title, message, timestamp: stamp }
    }

    /// A copy of this event, field for field.
    pub fn duplicate(&self) -> (r: NotificationEvent)
        ensures
            r@ == self@,
    {
        NotificationEvent {
            id: self.id.clone(),
            event_type: self.event_type.clone(),
            title: self.title.clone(),
            message: self.message.clone(),
            timestamp: self.timestamp,
        }
    }

    /// The JSON text that carries this event on the wire.
    pub fn to_json(&self) -> (r: Option<String>)
        ensures
            match r {
                Some(s) => event_json_text(self@) == Some(s@),
                None => event_json_text(self@) is None,
            },
    {
        let id = json_string(self.id.as_str())?;
        let et = json_string(self.event_type.as_str())?;
        let ti = json_string(self.title.as_str())?;
        let me = json_string(self.message.as_str())?;
        let ts_text = self.timestamp.to_rfc3339()?;
        let tq = json_string(ts_text.as_str())?;
        let mut out = String::from_str("{\"id\":");
        out.append(id.as_str());
        out.append(",\"event_type\":");
        out.append(et.as_str());
        out.append(",\"title\":");
        out.append(ti.as_str());
        out.append(",\"message\":");
        out.append(me.as_str());
        out.append(",\"timestamp\":");
        out.append(tq.as_str());
        out.append("}");
        Some(out)
    }
}

/// Relies on uuid's `Uuid::new_v4` and its `Display`, which writes the
/// hyphenated lower-case form of 36 characters. The value is random: nothing
/// else is stated.
#[verifier::external_body]
fn fresh_id() -> (r: String)
    ensures
        r@.len() == ID_LEN,
{
    Uuid::new_v4().to_string()
}

/// Relies on `serde_json::to_string` applied to a `str`: the quoted, escaped
/// JSON string literal.
#[verifier::external_body]
fn json_string(s: &str) -> (r: Option<String>)
    ensures
        match r {
            Some(t) => json_string_literal(s@) == Some(t@),
            None => json_string_literal(s@) is None,
        },
{
    serde_json::to_string(s).ok()
}

} // verus!
