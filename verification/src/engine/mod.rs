//! Recognition engine: configuration, buffering, and the training and
//! recognition state machines.

pub mod augmentation;
pub mod buffer;
pub mod diagnostics;
pub mod preprocess;
pub mod recognizer;
pub mod sequence;
pub mod training;
