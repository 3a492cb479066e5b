//! Client library for a sequence-numbered event gateway: frame decoding,
//! in-order delivery of events, heartbeat liveness, reconnect policy and the
//! session state machine that ties them together, plus the webhook path.
use vstd::prelude::*;

pub mod codec;
pub mod heartbeat;
pub mod json;
pub mod models;
pub mod reconnect;
pub mod rest;
pub mod sequence;
pub mod session;
pub mod webhook;

pub use models::{ApiResponse, Channel, EventData, Gateway, Guild, HelloData, KookError, Meta, PagedResponse, Signal, User};
pub use rest::PageParams;
pub use session::GatewaySession;
pub use webhook::{DefaultWebhookHandler, WebhookChallenge, WebhookConfig, WebhookEvent};

verus! {

} // verus!
