//! Ride lifecycle engine: a small verified state machine tracking one
//! ride-hailing transaction between a rider and a driver.
//!
//! The engine owns the [`Ride`] record and its four transitions —
//! [`create_ride`], [`accept_ride`], [`complete_ride`], [`cancel_ride`] —
//! each a guarded, all-or-nothing step. The host environment supplies
//! authenticated caller identities and persists the record; the engine
//! itself performs no I/O.

mod engine;
mod identity;
mod ride;

pub use engine::accept_ride;
pub use engine::accept_spec;
pub use engine::cancel_ride;
pub use engine::cancel_spec;
pub use engine::complete_ride;
pub use engine::complete_spec;
pub use engine::create_ride;
pub use engine::lemma_participants_fixed;
pub use engine::lemma_terminal_is_final;
pub use engine::lemma_transitions_preserve_inv;
pub use identity::Identity;
pub use ride::Ride;
pub use ride::RideError;
pub use ride::RideStatus;
