//! Core gameplay logic of a rhythm-game client.
//!
//! The crate drives the decision-making half of a real-time update/render
//! loop: a song clock, time-keyed keyframe interpolation for the lane
//! transform (rotation, slant, zoom), transient spin overlays, the
//! envelope-based request/response protocol that carries resource
//! initialization work to the thread owning the graphics context, and the
//! game-state machine built on top of those pieces.
//!
//! All animated scalars are fixed-point integers with [`utils::FIXED_ONE`]
//! (2^20) as the unit, so that interpolation arithmetic is exact and
//! verifiable; the windowing and GPU layers around this crate convert at the
//! boundary.

pub mod environment;
pub mod song_player;
pub mod utils;
