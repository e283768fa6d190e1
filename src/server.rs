use crate::models::{default_event_type, default_event_type_spec, event_json_text, supplied_instant, text_of, NotificationEvent, ID_LEN};
use crate::services::{published, EventBroadcaster, RecvOutcome};
use vstd::prelude::*;
use vstd::string::StringExecFns;

verus! {

/// Seconds between keep-alive frames on a streaming connection.
pub const KEEP_ALIVE_SECS: u64 = 15;

/// Status of a successful ingest.
pub const STATUS_CREATED: u16 = 201;

/// Status of a successful health probe.
pub const STATUS_OK: u16 = 200;

/// Status of an ingest payload that lacks a required field.
pub const STATUS_UNPROCESSABLE: u16 = 422;

/// One framed message of the event stream: its category and its data.
pub struct SseFrame {
    pub event: String,
    pub data: String,
}

/// What the streaming endpoint does after one receive on its subscription.
pub enum StreamStep {
    /// Send this frame and keep streaming.
    Emit(SseFrame),
    /// Send this frame and end the stream.
    EmitAndEnd(SseFrame),
    /// Nothing to send: wait for the next publication.
    Wait,
}

/// An ingest payload as it arrived, before the required fields are checked.
pub struct CreateEventRequest {
    pub event_type: Option<String>,
    pub title: Option<String>,
    pub message: Option<String>,
    pub timestamp: Option<String>,
}

/// Why an ingest payload was refused.
#[derive(Clone, Copy, Debug, PartialEq, Eq, Structural)]
pub enum IngestError {
    MissingTitle,
    MissingMessage,
}

pub open spec fn notification_label() -> Seq<char> {
    "notification"@
}

pub open spec fn error_label() -> Seq<char> {
    "error"@
}

pub open spec fn stream_error_text() -> Seq<char> {
    "Stream error"@
}

/// The frame that reports a delivery error.
pub open spec fn is_error_frame(f: SseFrame) -> bool {
    f.event@ == error_label() && f.data@ == stream_error_text()
}

/// The category an ingested event gets.
pub open spec fn ingested_type(requested: Option<String>) -> Seq<char> {
    match requested {
        Some(t) => t@,
        None => default_event_type_spec(),
    }
}

/// The text a keep-alive frame carries.
pub fn keep_alive_text() -> (r: String)
    ensures
        r@ == "keep-alive"@,
{
    String::from_str("keep-alive")
}

fn error_frame() -> (r: SseFrame)
    ensures
        is_error_frame(r),
{
    SseFrame { event: String::from_str("error"), data: String::from_str("Stream error") }
}

/// Turns one receive on a subscription into what the stream does next: an
/// event becomes a `notification` frame carrying its JSON; a report of lost
/// events, or an event that cannot be encoded, an `error` frame; a closed
/// subscription a final `error` frame; nothing waiting, a wait.
pub fn stream_step(outcome: RecvOutcome) -> (r: StreamStep)
    ensures
        match outcome {
            RecvOutcome::Event(e) => match event_json_text(e@) {
                Some(j) => r matches StreamStep::Emit(f) && f.event@ == notification_label() && f.data@
                    == j,
                None => r matches StreamStep::Emit(f) && is_error_frame(f),
            },
            RecvOutcome::Lagged(_) => r matches StreamStep::Emit(f) && is_error_frame(f),
            RecvOutcome::Empty => r is Wait,
            RecvOutcome::Closed => r matches StreamStep::EmitAndEnd(f) && is_error_frame(f),
        },
{
    match outcome {
        RecvOutcome::Event(e) => match e.to_json() {
            Some(json) => StreamStep::Emit(SseFrame { event: String::from_str("notification"), data: json }),
            None => StreamStep::Emit(error_frame()),
        },
        RecvOutcome::Lagged(_) => StreamStep::Emit(error_frame()),
        RecvOutcome::Empty => StreamStep::Wait,
        RecvOutcome::Closed => StreamStep::EmitAndEnd(error_frame()),
    }
}

/// Ingests a payload: where title and message are present, builds the event
/// (category defaulted, instant from the payload where it parses), publishes
/// it and returns it; else refuses it and leaves the broadcaster untouched.
pub fn create_event(broadcaster: &mut EventBroadcaster, payload: CreateEventRequest) -> (r: Result<
    NotificationEvent,
    IngestError,
>)
    requires
        old(broadcaster).wf(),
    ensures
        final(broadcaster).wf(),
        payload.title is None ==> r == Err::<NotificationEvent, IngestError>(IngestError::MissingTitle)
            && final(broadcaster)@ == old(broadcaster)@,
        payload.title is Some && payload.message is None ==> r == Err::<
            NotificationEvent,
            IngestError,
        >(IngestError::MissingMessage) && final(broadcaster)@ == old(broadcaster)@,
        payload.title is Some && payload.message is Some ==> (r matches Ok(e) && {
            &&& e.title@ == payload.title.unwrap()@
            &&& e.message@ == payload.message.unwrap()@
            &&& e.event_type@ == ingested_type(payload.event_type)
            &&& e.id@.len() == ID_LEN
            &&& e.timestamp.wf()
            &&& supplied_instant(text_of(payload.timestamp)) is Some ==> Some(e.timestamp)
                == supplied_instant(text_of(payload.timestamp))
            &&& final(broadcaster)@ == published(old(broadcaster)@, e@)
        }),
{
    let title = match payload.title {
        Some(t) => t,
        None => return Err(IngestError::MissingTitle),
    };
    let message = match payload.message {
        Some(m) => m,
        None => return Err(IngestError::MissingMessage),
    };
    let event_type = match payload.event_type {
        Some(t) => t,
        None => default_event_type(),
    };
    let event = NotificationEvent::new_with_timestamp(event_type, title, message, payload.timestamp);
    broadcaster.send(event.duplicate());
    Ok(event)
}

/// The status an ingest answers with: created, or a client error.
pub fn ingest_status(r: &Result<NotificationEvent, IngestError>) -> (s: u16)
    ensures
        r is Ok ==> s == STATUS_CREATED,
        r is Err ==> s == STATUS_UNPROCESSABLE,
{
    match r {
        Ok(_) => STATUS_CREATED,
        Err(_) => STATUS_UNPROCESSABLE,
    }
}

/// The answer of the liveness endpoint: `200` and `OK`.
pub fn health_check() -> (r: (u16, String))
    ensures
        r.0 == STATUS_OK,
        r.1@ == "OK"@,
{
    (STATUS_OK, String::from_str("OK"))
}

/// The answer of the polling fallback: no events, as nothing is retained.
pub fn poll_events() -> (r: Vec<NotificationEvent>)
    ensures
        r@.len() == 0,
{
    Vec::new()
}

} // verus!
