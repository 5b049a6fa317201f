//! Core of a desktop music player: durable identity and metadata for media
//! items, a content-addressed cache of embedded cover artwork, and a fan-out
//! layer that propagates playback state to independent control surfaces.

pub mod artwork;
pub mod controller;
pub mod hashing;
pub mod hub;
pub mod palette;
pub mod resolver;
pub mod song;
pub mod tags;
pub mod windows;
