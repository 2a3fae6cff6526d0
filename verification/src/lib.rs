//! An in-process asynchronous logging engine.
//!
//! Application threads hand log records to a dispatcher that gates them
//! against a process-wide severity filter and queues the accepted ones;
//! background workers drain the queue, render each entry into a fixed-width
//! text line and persist it to a file chosen by calendar date and severity.
//! The crate also models the exactly-once logger registration state machine
//! and the worker-pool task discipline that the dispatcher runs on.

pub mod dispatcher;
pub mod errors;
pub mod facade;
pub mod level;
pub mod metadata;
pub mod pool;
pub mod record;
pub mod registry;
pub mod sink;
pub mod utilities;
