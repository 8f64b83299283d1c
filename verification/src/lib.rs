//! Lifecycle bookkeeping for one two-phase instrumentation resource and the
//! kernel probes attached through it.
//!
//! The resource is brought up in two ordered stages, open and then loaded, over
//! a block of backing storage that has to stay where it is and has to outlive
//! everything derived from it. This crate holds the decisions of that protocol
//! as plain values: which stage a handle is in, what may still be configured,
//! which program a probe attaches through, which attachments are live, and in
//! which order everything is released. The caller performs the native steps and
//! reports their outcome.

pub mod error;
pub mod handle;
pub mod manager;
pub mod release;
pub mod storage;
