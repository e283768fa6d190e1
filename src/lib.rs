//! Event broadcast pipeline: the event model, an in-memory fanout broadcaster
//! with bounded drop-oldest subscriber queues, the framing of the streaming and
//! ingest endpoints, and the decision logic of a resilient stream consumer and
//! of a health monitor.

pub mod health;
pub mod models;
pub mod server;
pub mod services;
pub mod sse_client;
pub mod timestamp;

pub use health::{HealthMonitor, HealthSignal};
pub use models::NotificationEvent;
pub use server::{create_event, stream_step, CreateEventRequest, IngestError, SseFrame, StreamStep};
pub use services::{EventBroadcaster, RecvOutcome, CAPACITY};
pub use sse_client::{ConnectionState, ConsumerAction, ConsumerEvent, SSEClient};
pub use timestamp::Timestamp;
