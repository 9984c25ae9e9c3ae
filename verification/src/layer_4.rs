//! Transport-layer reply engines.

pub mod tcp;
