//! The errors a manager reports to its pool.

use vstd::prelude::*;

verus! {

/// The Redis client's error, `redis::RedisError`. The manager hands such a
/// value on as it came and never looks inside it.
#[verifier::external_type_specification]
#[verifier::external_body]
pub struct ExRedisError(redis::RedisError);

/// What `redis::RedisError::is_timeout` answers for a client error: whether
/// it is an I/O error that says an operation timed out.
pub uninterp spec fn client_error_is_timeout(error: redis::RedisError) -> bool;

/// `std::io::Error::new` with the kind `TimedOut` and the given text, turned
/// into a client error by `redis::RedisError::from`. The client wraps an I/O
/// error as it is, so `is_timeout` holds of the result.
#[verifier::external_body]
fn timed_out_io_error(message: &str) -> (error: redis::RedisError)
    ensures
        client_error_is_timeout(error),
{
    redis::RedisError::from(std::io::Error::new(std::io::ErrorKind::TimedOut, message.to_string()))
}

/// Why a pool operation did not yield a usable connection.
///
/// The two kinds call for different reactions: after `Timeout` the pool was
/// exhausted or too slow and the caller may simply wait and retry, after
/// `Remote` the server or the network failed.
#[derive(Debug)]
pub enum ManagerError {
    /// The pool's deadline elapsed. Made by the manager itself, never by a
    /// round trip.
    Timeout,
    /// Opening a connection or probing one failed; the client's error is
    /// carried as it was reported.
    Remote(redis::RedisError),
}

impl ManagerError {
    /// True exactly for the error that stands for an elapsed deadline.
    pub fn is_timeout(&self) -> (b: bool)
        ensures
            b == (self is Timeout),
    {
        match self {
            ManagerError::Timeout => true,
            ManagerError::Remote(_) => false,
        }
    }

    /// The error in the client's own type, for callers whose error channel is
    /// `redis::RedisError`: a remote failure as it was reported, a timeout as
    /// an I/O error that timed out. The kind is no longer apart after this:
    /// a round trip can time out too.
    pub fn into_client_error(self) -> (error: redis::RedisError)
        ensures
            match self {
                ManagerError::Timeout => client_error_is_timeout(error),
                ManagerError::Remote(cause) => error == cause,
            },
    {
        match self {
            ManagerError::Timeout => timed_out_io_error("RedisConnectionManager timed out"),
            ManagerError::Remote(cause) => cause,
        }
    }

    /// The client's error behind a `Remote` failure, unchanged; `None` for a
    /// timeout, which no client error caused.
    pub fn into_remote(self) -> (cause: Option<redis::RedisError>)
        ensures
            cause == match self {
                ManagerError::Timeout => None::<redis::RedisError>,
                ManagerError::Remote(e) => Some(e),
            },
    {
        match self {
            ManagerError::Timeout => None,
            ManagerError::Remote(e) => Some(e),
        }
    }
}

} // verus!
