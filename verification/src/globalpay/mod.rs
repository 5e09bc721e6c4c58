//! The adapter for Global Payments: what the processor answers, and how
//! its vocabulary maps to the canonical model.

pub mod response;
pub mod transformers;
