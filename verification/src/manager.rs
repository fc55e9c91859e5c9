//! The manager a connection pool consults about its Redis connections.

use vstd::prelude::*;
use crate::error::ManagerError;
use crate::slot::PooledConnection;

verus! {

/// The Redis client, `redis::Client`: the description of an endpoint from
/// which connections are opened. The manager keeps it and lends it out; it
/// never looks inside it.
#[verifier::external_type_specification]
#[verifier::external_body]
pub struct ExClient(redis::Client);

/// `redis::Client::clone`: the copy describes the same endpoint as the
/// client it was made from. Copying opens no connection.
pub assume_specification[ <redis::Client as Clone>::clone ](client: &redis::Client) -> (copy:
    redis::Client)
    ensures
        copy == *client,
;

/// A Redis command, `redis::Cmd`: a request that is ready to be sent. The
/// manager makes one and hands it out; it never looks inside it.
#[verifier::external_type_specification]
#[verifier::external_body]
pub struct ExCmd(redis::Cmd);

/// The command that `redis::cmd` makes for a command name: a request that
/// holds the name as its only argument.
pub uninterp spec fn command_named(name: Seq<char>) -> redis::Cmd;

/// `redis::cmd`: the command with `name` as its only argument. It depends on
/// the name alone, and making it sends nothing.
#[verifier::external_body]
fn command(name: &str) -> (made: redis::Cmd)
    ensures
        made == command_named(name@),
{
    redis::cmd(name)
}

/// What the pool gets once an attempt to open a connection has ended: a live
/// slot around the new connection, or the client's error as it was reported.
/// A failed attempt makes no slot at all.
pub open spec fn connect_outcome<C>(attempt: Result<C, redis::RedisError>) -> Result<
    PooledConnection<C>,
    ManagerError,
> {
    match attempt {
        Ok(conn) => Ok(PooledConnection::Live(conn)),
        Err(cause) => Err(ManagerError::Remote(cause)),
    }
}

/// What the pool gets once a liveness probe has ended. An answered probe
/// gives the connection back in a live slot. A failed one gives the client's
/// error together with the `Broken` sentinel, so that the pool can neither
/// lose the error nor keep the dead connection.
pub open spec fn validate_outcome<C>(reply: Result<C, redis::RedisError>) -> Result<
    PooledConnection<C>,
    (ManagerError, PooledConnection<C>),
> {
    match reply {
        Ok(conn) => Ok(PooledConnection::Live(conn)),
        Err(cause) => Err((ManagerError::Remote(cause), PooledConnection::Broken)),
    }
}

/// The error that stands for a deadline that elapsed in the pool.
pub open spec fn timeout_value() -> ManagerError {
    ManagerError::Timeout
}

/// What a caller is told when the pool could not hand out a connection:
/// the failure that ended the wait, or, where the deadline ended it and
/// there is no failure to report, the timeout error.
pub open spec fn acquire_failure_value(cause: Option<ManagerError>) -> ManagerError {
    match cause {
        Some(error) => error,
        None => timeout_value(),
    }
}

/// The name of the command sent as a liveness probe.
pub open spec fn probe_name() -> Seq<char> {
    "PING"@
}

/// Decides about the connections of one Redis endpoint on behalf of a pool.
///
/// The manager holds the client it was made from and nothing else: no table
/// of connections and no mutable state. Every slot belongs to the pool and
/// passes through the manager by value, so one manager can serve any number
/// of callers at once.
#[derive(Debug)]
pub struct RedisConnectionManager {
    client: redis::Client,
}

impl Clone for RedisConnectionManager {
    /// A second manager for the same endpoint.
    fn clone(&self) -> (copy: Self)
        ensures
            copy.endpoint() == self.endpoint(),
    {
        RedisConnectionManager { client: self.client.clone() }
    }
}

impl RedisConnectionManager {
    /// The client this manager opens its connections from.
    pub closed spec fn endpoint(self) -> redis::Client {
        self.client
    }

    /// Makes a manager for the endpoint that `client` describes. This opens
    /// no connection and always succeeds.
    pub fn new(client: redis::Client) -> (made: Result<RedisConnectionManager, redis::RedisError>)
        ensures
            made matches Ok(manager) && manager.endpoint() == client,
    {
        Ok(RedisConnectionManager { client })
    }

    /// The client to open a new connection from.
    pub fn client(&self) -> (client: &redis::Client)
        ensures
            *client == self.endpoint(),
    {
        &self.client
    }

    /// Turns the end of an attempt to open a connection into what the pool
    /// is told: see [`connect_outcome`]. Nothing is retried here.
    pub fn connected<C>(&self, attempt: Result<C, redis::RedisError>) -> (outcome: Result<
        PooledConnection<C>,
        ManagerError,
    >)
        ensures
            outcome == connect_outcome(attempt),
    {
        match attempt {
            Ok(conn) => Ok(PooledConnection::Live(conn)),
            Err(cause) => Err(ManagerError::Remote(cause)),
        }
    }

    /// The command to send over a connection as its liveness probe: a bare
    /// `PING`, which costs one request and one reply and changes no data.
    pub fn probe_command(&self) -> (probe: redis::Cmd)
        ensures
            probe == command_named(probe_name()),
    {
        command("PING")
    }

    /// Turns the end of a liveness probe into what the pool is told: see
    /// [`validate_outcome`]. `reply` holds the connection the probe came back
    /// on, or the error of the failed round trip.
    pub fn validated<C>(&self, reply: Result<C, redis::RedisError>) -> (outcome: Result<
        PooledConnection<C>,
        (ManagerError, PooledConnection<C>),
    >)
        ensures
            outcome == validate_outcome(reply),
    {
        match reply {
            Ok(conn) => Ok(PooledConnection::Live(conn)),
            Err(cause) => Err((ManagerError::Remote(cause), PooledConnection::Broken)),
        }
    }

    /// Whether the pool must discard `slot`: true exactly for the `Broken`
    /// sentinel. Reads the slot and nothing else.
    pub fn is_broken<C>(&self, slot: &PooledConnection<C>) -> (b: bool)
        ensures
            b == slot.broken(),
    {
        slot.is_broken()
    }

    /// The error to surface when the pool gave up handing out a connection:
    /// `cause` if a failure ended the wait, the timeout error if the deadline
    /// did. See [`acquire_failure_value`].
    pub fn acquire_failure(&self, cause: Option<ManagerError>) -> (e: ManagerError)
        ensures
            e == acquire_failure_value(cause),
    {
        match cause {
            Some(error) => error,
            None => self.timeout_error(),
        }
    }

    /// The error a pool reports when its deadline elapses before a
    /// connection could be handed out.
    pub fn timeout_error(&self) -> (e: ManagerError)
        ensures
            e == timeout_value(),
    {
        ManagerError::Timeout
    }
}

} // verus!
