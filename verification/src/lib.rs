//! Core of a terminal audio player with a live spectrum visualization.
//!
//! The crate owns the decision logic of the player: the playback state
//! machine, the analyzer configuration rules and its frame accounting, the
//! key-event dispatch, and the bookkeeping of the bar-chart renderer. The
//! surrounding process (audio device, file decoding, terminal drawing, the
//! floating-point transform itself) lives outside and consults this crate
//! for every decision.

pub mod analyzer;
pub mod app;
pub mod error;
pub mod loader;
pub mod player;
pub mod visualizer;
