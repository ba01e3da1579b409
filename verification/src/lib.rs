//! Core logic of a bridge between an IRC connection and a Redis store.
//!
//! Inbound protocol events are numbered by a monotonic counter, recorded in a
//! bounded history list and announced on a notification channel; outbound
//! commands are popped from a queue, normalized, parsed and dispatched under a
//! fixed flood-control pause.  The modules here hold the decision logic of the
//! two bridge loops together with its proofs; the surrounding process performs
//! the actual network traffic and store access.

pub mod config;
pub mod digits;
pub mod history;
pub mod inbound;
pub mod outbound;
pub mod policy;
pub mod proto;
pub mod supervisor;
