//! Coordination core of a minimal publish/subscribe message broker.
//!
//! The crate holds the broker-wide registry of topic subscriptions and
//! pending jobs (`registry`), the per-connection session decisions
//! (`session`), the dispatch routing (`dispatch`), and the outbound frame
//! encoding (`codec`). Network transport and process plumbing live outside
//! the crate and call into it with plain values.

pub mod codec;
pub mod dispatch;
pub mod laws;
pub mod packets;
pub mod registry;
pub mod session;

use vstd::prelude::*;

verus! {

} // verus!
