//! Verified core of RALF Gesture Studio: the configuration, bookkeeping and
//! state-machine logic behind training and recognising movement gestures.
//!
//! Everything that computes on floating-point motion data (DTW distances,
//! preprocessing arithmetic, statistics) lives in the application crate; this
//! library holds the decisions that are taken on integers, flags, indices and
//! sequences, each with a contract.

pub mod engine;
pub mod osc;
pub mod model;
pub mod gui;
mod text;
