//! Bridge between a home-automation hub's media-player entities and a
//! desktop media-control surface.
//!
//! The crate holds the event-routing and session-resilience logic of the
//! bridge: the normalizer that turns a hub attribute payload into canonical
//! playback metadata, the per-entity adapter that caches that metadata and
//! turns local control actions into hub commands, the hub listener's
//! handshake and streaming state machine, and the routing that connects
//! many adapters to one listener. Transport, HTTP and the control-protocol
//! server live outside; they exchange plain values with this crate.

pub mod art_url;
pub mod hub;
pub mod json;
pub mod metadata;
pub mod listener;
pub mod player;
pub mod text;
