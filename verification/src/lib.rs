//! A verified client-side data layer for the Subsonic music-server API.
//!
//! A Subsonic server answers every call with a single envelope that can carry
//! any one of roughly forty mutually exclusive payload shapes, or an error.
//! This crate resolves such envelopes deterministically, normalizes the
//! deliberately loose wire format of individual entities (numeric identifiers
//! and counts arrive as strings or numbers interchangeably), and reconciles
//! embedded collections that the server may send only partially.
pub mod album;
pub mod artist;
pub mod coerce;
pub mod error;
pub mod json;
pub mod media;
pub mod query;
pub mod response;
pub mod song;
