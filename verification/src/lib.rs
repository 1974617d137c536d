//! A bounded straw poll: a fixed set of selectable options, a ledger of the
//! identities that have voted, and the two transitions that create the poll
//! and cast one vote per identity.
//!
//! The record lives in fixed-size storage granted by an execution host; the
//! capacity constants below mirror that allocation.

use vstd::prelude::*;

pub mod ledger;
pub mod poll;
pub mod registry;

pub use ledger::VoterId;
pub use poll::Poll;
pub use poll::StarSollError;
pub use registry::PollOption;

verus! {

/// Most options one poll can hold, fixed by the record's storage allocation.
pub const MAX_OPTIONS: usize = 5;

/// Most voter identities one poll can record, fixed by the record's storage
/// allocation.
pub const MAX_VOTERS: usize = 50;

/// Longest option label, in bytes, that the record's storage allocation
/// admits. The core never reads labels, so it does not enforce this bound;
/// the storage boundary does.
pub const MAX_LABEL_BYTES: usize = 50;

} // verus!
