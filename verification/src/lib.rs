//! Synchronization engine that mirrors an ordered update feed into a
//! relational store: retry backoff, durable checkpointing, dependency-ordered
//! application of updates and the cancellable polling cycle, all as pure
//! decisions over plain values.

pub mod apply;
pub mod backoff;
pub mod caches;
pub mod checkpoint;
pub mod cli;
pub mod engine;
pub mod entity;
pub mod runs;
pub mod settings;
