//! Adapters that hold process-wide state for the request pipeline.

pub mod token;
