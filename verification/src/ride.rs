use vstd::prelude::*;
use crate::identity::Identity;

verus! {

/// Lifecycle state of a ride. `Requested` is the initial state;
/// `Completed` and `Cancelled` are terminal.
#[derive(Clone, Copy, Debug, PartialEq, Eq, Structural)]
pub enum RideStatus {
    Requested,
    Accepted,
    Completed,
    Cancelled,
}

/// The ways an operation can be rejected. A rejection never mutates the
/// record: the caller may retry once the precondition genuinely changes.
#[derive(Clone, Copy, Debug, PartialEq, Eq, Structural)]
pub enum RideError {
    /// A cancellation was attempted on a record already `Completed`.
    RideAlreadyCompleted,
    /// The operation was attempted while the record was not in the
    /// required source state.
    InvalidRideState,
}

impl RideStatus {
    /// A terminal status: no transition leads out of it.
    pub open spec fn is_terminal(self) -> bool {
        self is Completed || self is Cancelled
    }
}

/// The sole record: one ride's participants, fare and status.
#[derive(Clone, Copy, Debug)]
pub struct Ride {
    /// The party who requested the ride; set at creation, immutable.
    pub rider: Identity,
    /// The party who accepted the ride, or the unassigned sentinel.
    pub driver: Identity,
    /// Non-negative amount fixed at creation; never recalculated.
    pub fare: u64,
    /// Current lifecycle state.
    pub status: RideStatus,
}

impl Ride {
    /// Well-formedness. Creation establishes it and every operation
    /// preserves it:
    /// - a ride always has a requesting identity;
    /// - a `Requested` ride has no driver yet;
    /// - an `Accepted` or `Completed` ride has one.
    pub open spec fn inv(self) -> bool {
        &&& !self.rider.is_unassigned_spec()
        &&& (self.status is Requested ==> self.driver.is_unassigned_spec())
        &&& (self.status is Accepted || self.status is Completed
            ==> !self.driver.is_unassigned_spec())
    }
}

} // verus!
