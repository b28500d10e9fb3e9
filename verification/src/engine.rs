use vstd::prelude::*;
use crate::identity::Identity;
use crate::ride::{Ride, RideError, RideStatus};

verus! {

/// The accept transition as a pure function: from `Requested`, assign the
/// accepter as driver and move to `Accepted`; from any other state, reject.
pub open spec fn accept_spec(r: Ride, accepter: Identity) -> Result<Ride, RideError> {
    if r.status is Requested {
        Ok(Ride {
            rider: r.rider,
            driver: accepter,
            fare: r.fare,
            status: RideStatus::Accepted,
        })
    } else {
        Err(RideError::InvalidRideState)
    }
}

/// The complete transition as a pure function: from `Accepted`, move to
/// `Completed`; from any other state, reject.
pub open spec fn complete_spec(r: Ride) -> Result<Ride, RideError> {
    if r.status is Accepted {
        Ok(Ride { rider: r.rider, driver: r.driver, fare: r.fare, status: RideStatus::Completed })
    } else {
        Err(RideError::InvalidRideState)
    }
}

/// The cancel transition as a pure function: from anything but `Completed`,
/// move to `Cancelled` (re-cancelling a `Cancelled` ride succeeds and leaves
/// it unchanged); from `Completed`, reject. Who cancels does not enter the
/// state: the caller's identity and role are observability concerns of the
/// host.
pub open spec fn cancel_spec(r: Ride) -> Result<Ride, RideError> {
    if r.status is Completed {
        Err(RideError::RideAlreadyCompleted)
    } else {
        Ok(Ride { rider: r.rider, driver: r.driver, fare: r.fare, status: RideStatus::Cancelled })
    }
}

/// Initialize a new ride record for the requesting party. The creator's
/// identity comes from the host's authenticated context, so it is never the
/// unassigned sentinel. The fare is fixed here for the ride's whole life.
pub fn create_ride(fare: u64, creator: Identity) -> (r: Ride)
    requires
        !creator.is_unassigned_spec(),
    ensures
        r.rider == creator,
        r.driver.is_unassigned_spec(),
        r.fare == fare,
        r.status is Requested,
        r.inv(),
{
    Ride {
        rider: creator,
        driver: Identity::unassigned(),
        fare: fare,
        status: RideStatus::Requested,
    }
}

/// Accept a requested ride: the accepting party becomes the driver and the
/// status moves to `Accepted`. Succeeds exactly when the ride is
/// `Requested`; otherwise rejects with `InvalidRideState` and changes
/// nothing. The accepter's identity comes from the host's authenticated
/// context, so it is never the unassigned sentinel.
///
/// Deliberately permissive: the engine does not check that the accepter
/// differs from the rider. A host that wants that rule must impose it
/// before calling.
pub fn accept_ride(ride: &mut Ride, accepter: Identity) -> (result: Result<(), RideError>)
    requires
        old(ride).inv(),
        !accepter.is_unassigned_spec(),
    ensures
        final(ride).inv(),
        result is Ok <==> old(ride).status is Requested,
        result is Ok ==> accept_spec(*old(ride), accepter) == Ok::<Ride, RideError>(*final(ride))
            && final(ride).status is Accepted
            && final(ride).driver == accepter
            && final(ride).rider == old(ride).rider
            && final(ride).fare == old(ride).fare,
        result is Err ==> *final(ride) == *old(ride)
            && result == Err::<(), RideError>(RideError::InvalidRideState),
{
    if ride.status != RideStatus::Requested {
        return Err(RideError::InvalidRideState);
    }
    ride.driver = accepter;
    ride.status = RideStatus::Accepted;
    Ok(())
}

/// Complete an accepted ride: the status moves to `Completed`, a terminal
/// state. Succeeds exactly when the ride is `Accepted`; otherwise rejects
/// with `InvalidRideState` and changes nothing.
///
/// Deliberately permissive: completion is not restricted to the assigned
/// driver. A host that wants that rule must impose it before calling.
pub fn complete_ride(ride: &mut Ride) -> (result: Result<(), RideError>)
    requires
        old(ride).inv(),
    ensures
        final(ride).inv(),
        result is Ok <==> old(ride).status is Accepted,
        result is Ok ==> complete_spec(*old(ride)) == Ok::<Ride, RideError>(*final(ride))
            && final(ride).status is Completed
            && final(ride).driver == old(ride).driver
            && final(ride).rider == old(ride).rider
            && final(ride).fare == old(ride).fare,
        result is Err ==> *final(ride) == *old(ride)
            && result == Err::<(), RideError>(RideError::InvalidRideState),
{
    if ride.status != RideStatus::Accepted {
        return Err(RideError::InvalidRideState);
    }
    ride.status = RideStatus::Completed;
    Ok(())
}

/// Cancel a ride that is not yet `Completed`: the status moves to
/// `Cancelled`, a terminal state, whatever it was before (`Requested`,
/// `Accepted`, or already `Cancelled` — re-cancelling succeeds and leaves
/// the record identical). Cancelling a `Completed` ride rejects with
/// `RideAlreadyCompleted` and changes nothing. The caller's identity and
/// the `by_rider` flag do not affect the state: they are for the host's
/// observability surface only, and the flag is caller-asserted — the engine
/// deliberately does not verify it against the ride's parties.
pub fn cancel_ride(
    ride: &mut Ride,
    caller: Identity,
    by_rider: bool,
) -> (result: Result<(), RideError>)
    requires
        old(ride).inv(),
    ensures
        final(ride).inv(),
        result is Ok <==> !(old(ride).status is Completed),
        result is Ok ==> cancel_spec(*old(ride)) == Ok::<Ride, RideError>(*final(ride))
            && final(ride).status is Cancelled
            && final(ride).driver == old(ride).driver
            && final(ride).rider == old(ride).rider
            && final(ride).fare == old(ride).fare,
        result is Err ==> *final(ride) == *old(ride)
            && result == Err::<(), RideError>(RideError::RideAlreadyCompleted),
        old(ride).status is Cancelled ==> *final(ride) == *old(ride),
{
    let _ = caller;
    let _ = by_rider;
    if ride.status == RideStatus::Completed {
        return Err(RideError::RideAlreadyCompleted);
    }
    ride.status = RideStatus::Cancelled;
    Ok(())
}

/// Terminality is monotonic: once a ride is `Completed` or `Cancelled`, no
/// transition changes the record. Accepting or completing such a ride is
/// rejected with `InvalidRideState`; cancelling a `Completed` ride is
/// rejected with `RideAlreadyCompleted`; cancelling an already-`Cancelled`
/// ride succeeds and leaves the record identical.
pub proof fn lemma_terminal_is_final(r: Ride, accepter: Identity)
    requires
        r.status.is_terminal(),
    ensures
        accept_spec(r, accepter) == Err::<Ride, RideError>(RideError::InvalidRideState),
        complete_spec(r) == Err::<Ride, RideError>(RideError::InvalidRideState),
        r.status is Completed ==> cancel_spec(r) == Err::<Ride, RideError>(
            RideError::RideAlreadyCompleted,
        ),
        r.status is Cancelled ==> cancel_spec(r) == Ok::<Ride, RideError>(r),
{
}

/// Every transition applied to a well-formed record yields a well-formed
/// one on success (rejection changes nothing at all), provided the
/// accepting identity is a real party.
pub proof fn lemma_transitions_preserve_inv(r: Ride, accepter: Identity)
    requires
        r.inv(),
        !accepter.is_unassigned_spec(),
    ensures
        accept_spec(r, accepter) matches Ok(r2) ==> r2.inv(),
        complete_spec(r) matches Ok(r2) ==> r2.inv(),
        cancel_spec(r) matches Ok(r2) ==> r2.inv(),
{
}

/// Participants and fare are fixed: the rider and the fare are set at
/// creation and never change; the driver is set exactly once, by the accept
/// transition, and kept by every later one.
pub proof fn lemma_participants_fixed(r: Ride, accepter: Identity)
    ensures
        accept_spec(r, accepter) matches Ok(r2) ==> r2.rider == r.rider && r2.fare == r.fare
            && r2.driver == accepter,
        complete_spec(r) matches Ok(r2) ==> r2.rider == r.rider && r2.fare == r.fare
            && r2.driver == r.driver,
        cancel_spec(r) matches Ok(r2) ==> r2.rider == r.rider && r2.fare == r.fare && r2.driver
            == r.driver,
{
}

} // verus!
