//! A typed client library for a streaming platform's APIs, centered on the
//! EventSub webhook subsystem: parsing inbound event notifications, routing
//! them through a catalog of supported (event type, schema version) pairs,
//! classifying the resulting event values, and verifying message authenticity
//! with HMAC-SHA256.

pub mod client;
pub mod eventsub;
pub mod helix;
pub mod hex;
pub mod httpreq;
pub mod json;
pub mod tmi;
