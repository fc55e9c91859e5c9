//! What holds of a slot over its whole life, proved from the outcomes that
//! the manager computes.

use vstd::prelude::*;
use crate::error::ManagerError;
use crate::manager::{connect_outcome, timeout_value, validate_outcome};
use crate::slot::PooledConnection;

verus! {

/// A connection that was opened always reaches the pool in a live slot that
/// holds this very connection, and the slot is not broken.
pub proof fn connect_success_is_live<C>(attempt: Result<C, redis::RedisError>)
    requires
        attempt is Ok,
    ensures
        connect_outcome(attempt) matches Ok(slot) && slot == PooledConnection::Live(
            attempt->Ok_0,
        ) && !slot.broken(),
{
}

/// An attempt that failed makes no slot: the pool gets the client's error,
/// unchanged, as a `Remote` failure.
pub proof fn connect_failure_makes_no_slot<C>(attempt: Result<C, redis::RedisError>)
    requires
        attempt is Err,
    ensures
        connect_outcome(attempt) == Err::<PooledConnection<C>, ManagerError>(
            ManagerError::Remote(attempt->Err_0),
        ),
{
}

/// A probe that was answered leaves the slot live, around the connection the
/// answer came back on, and the slot is not broken.
pub proof fn probe_success_stays_live<C>(reply: Result<C, redis::RedisError>)
    requires
        reply is Ok,
    ensures
        validate_outcome(reply) matches Ok(slot) && slot == PooledConnection::Live(reply->Ok_0)
            && !slot.broken(),
{
}

/// A probe that failed breaks the slot: the pool gets the client's error and,
/// with it, a slot that is the `Broken` sentinel.
pub proof fn probe_failure_breaks<C>(reply: Result<C, redis::RedisError>)
    requires
        reply is Err,
    ensures
        validate_outcome(reply) matches Err((error, slot)) && error == ManagerError::Remote(
            reply->Err_0,
        ) && slot is Broken && slot.broken(),
{
}

/// A slot is live only after a round trip that succeeded. Opening yields a
/// slot exactly when the attempt succeeded, and that slot is live; probing
/// yields a live slot exactly when the probe was answered, and the slot that
/// comes with a failure is never live.
pub proof fn live_only_after_success<C>(
    attempt: Result<C, redis::RedisError>,
    reply: Result<C, redis::RedisError>,
)
    ensures
        connect_outcome(attempt) is Ok <==> attempt is Ok,
        connect_outcome(attempt) matches Ok(slot) ==> slot is Live,
        validate_outcome(reply) is Ok <==> reply is Ok,
        validate_outcome(reply) matches Ok(slot) ==> slot is Live,
        validate_outcome(reply) matches Err((_, slot)) ==> slot is Broken,
{
}

/// Being broken is a fact about the slot's value alone: two answers to the
/// question, each as `is_broken` gives it, agree, and a slot is broken
/// exactly when it is not live.
pub proof fn broken_is_stable<C>(slot: PooledConnection<C>, first: bool, second: bool)
    requires
        first == slot.broken(),
        second == slot.broken(),
    ensures
        first == second,
        slot.broken() <==> !(slot is Live),
{
}

/// The timeout error is of the timeout kind, and no failure to open or to
/// probe a connection is: whatever the client reported, the error the pool
/// gets for it differs from the timeout error in kind.
pub proof fn timeout_is_a_kind_apart<C>(
    attempt: Result<C, redis::RedisError>,
    reply: Result<C, redis::RedisError>,
)
    ensures
        timeout_value() is Timeout,
        connect_outcome(attempt) matches Err(error) ==> !(error is Timeout) && error
            != timeout_value(),
        validate_outcome(reply) matches Err((error, _)) ==> !(error is Timeout) && error
            != timeout_value(),
{
}

} // verus!
