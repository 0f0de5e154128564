//! Client for a payments REST API, with verification of signed webhook
//! deliveries.
pub mod bytes;
pub mod client;
pub mod event;
pub mod header;
pub mod json;
pub mod resources;
pub mod webhook;

pub use client::{Client, ClientError, Method, Params, RequestError, WireRequest};
pub use event::{Event, EventData, EventObject, EventType, Webhook};
pub use webhook::WebhookError;
