//! Federated activity exchange engine.
//!
//! Independent server instances exchange signed, addressed activities
//! (create/update of posts, comments, private messages, ...).  This crate
//! holds the verified core of that exchange: activity identity generation,
//! outbound target resolution and dispatch planning, the inbound
//! verification pipeline, idempotent receipt, and the generic
//! apply-to-local-state step.  Network delivery, signatures and JSON
//! framing live with the callers; every decision the engine takes is
//! specified and proved here.

pub mod actors;
pub mod apply;
pub mod dedup;
pub mod envelope;
pub mod ids;
pub mod outbound;
pub mod pipeline;
pub mod receive;
pub mod targets;
