//! Translates a stream of raw touchscreen hardware events (absolute axis
//! samples, key samples, synchronization markers) into semantic pointer
//! events: pressed, moved, released.
//!
//! The core is the [`collector::Collector`] state machine: it accumulates
//! partial hardware state across raw events and emits exactly one semantic
//! pointer event per synchronization marker. It performs no I/O and works on
//! plain integer device coordinates; reading the device and converting
//! physical to logical coordinates are left to the embedding application.

pub mod events;
pub mod collector;
pub mod laws;
