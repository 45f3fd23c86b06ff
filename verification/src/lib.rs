//! Transactional package-state and boot-integration core.
//!
//! Every package operation yields a new immutable [`state::State`] (a
//! generation).  The boot synchronizer projects such a state onto bootable
//! kernel entries, tagging each entry's kernel command line with the owning
//! state id so that any generation can be selected at boot time.

pub mod decimal;
pub mod state;
pub mod paths;
pub mod pattern;
pub mod discover;
pub mod sync;
pub mod resolve;
pub mod licenses;
