//! The vocabulary model.

pub mod vocabulary;
