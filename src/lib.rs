//! A resilient batch-transfer engine for a rate-limited HTTP messaging API.
//!
//! The engine decides; the caller performs the I/O. Each component is a small
//! state machine or pure function with a verified contract:
//! - [`classify`]: turns one finished HTTP exchange into an [`classify::Outcome`];
//! - [`retry`]: drives one task to a terminal result under an attempt ceiling;
//! - [`batch`]: partitions tasks into windows joined by a barrier, with rotating
//!   protocol-version hints;
//! - [`pagination`]: walks a paginated listing with a forward-only cursor.

pub mod classify;
pub mod retry;
pub mod batch;
pub mod record;
pub mod pagination;
