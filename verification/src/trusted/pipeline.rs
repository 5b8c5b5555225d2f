//! What is taken on trust of `redis` and `r2d2`: which commands a pipeline
//! holds, and which limits a pool of connections has.

use std::time::Duration;
use vstd::prelude::*;

verus! {

/// `redis::Pipeline`, commands that are queued for one round trip. What it holds is
/// `pipeline_ops`.
#[verifier::external_type_specification]
#[verifier::external_body]
pub struct ExPipeline(redis::Pipeline);

/// `redis::RedisError`, why the server or the connection failed. Nothing is read of it.
#[verifier::external_type_specification]
#[verifier::external_body]
pub struct ExRedisError(redis::RedisError);

/// `redis::Client`, a connection string that was read. Nothing is read of it.
#[verifier::external_type_specification]
#[verifier::external_body]
pub struct ExClient(redis::Client);

/// `r2d2::Error`, why the pool gave no connection. Nothing is read of it.
#[verifier::external_type_specification]
#[verifier::external_body]
pub struct ExPoolError(r2d2::Error);

/// A pool of connections to a redis server, as `r2d2::Pool` keeps it.
#[verifier::external_body]
pub struct ConnectionPool {
    pool: r2d2::Pool<redis::Client>,
}

/// A connection that is checked out of a pool. It goes back when it is dropped.
#[verifier::external_body]
pub struct PooledRedisConnection {
    conn: r2d2::PooledConnection<redis::Client>,
}

/// The settings that a pool is built from, as `r2d2::Builder` keeps them.
#[verifier::external_body]
pub struct PoolSettings {
    builder: r2d2::Builder<redis::Client>,
}

/// The limits of a pool.
pub struct PoolLimits {
    /// The largest number of connections that the pool keeps.
    pub max_size: u32,
    /// The number of idle connections that the pool keeps ready, if one is
    /// set.
    pub min_idle: Option<u32>,
    /// How long a connection may live, if that is limited.
    pub max_lifetime: Option<Duration>,
    /// How long a connection may sit idle, if that is limited.
    pub idle_timeout: Option<Duration>,
}

/// The limits that these settings ask for.
pub uninterp spec fn settings_limits(settings: PoolSettings) -> PoolLimits;

/// The limits that a pool was built with.
pub uninterp spec fn pool_limits(pool: ConnectionPool) -> PoolLimits;

/// Whether a duration is no time at all.
pub uninterp spec fn is_zero_duration(d: Duration) -> bool;

/// `std::time::Duration::is_zero`: whether the duration is no time at all.
pub assume_specification[ Duration::is_zero ](d: &Duration) -> (r: bool)
    ensures
        r == is_zero_duration(*d),
;

/// `r2d2::Pool::builder`: the default settings, with at most ten connections
/// and no number of idle ones.
#[verifier::external_body]
pub(crate) fn pool_settings() -> (settings: PoolSettings)
    ensures
        settings_limits(settings).max_size == 10,
        settings_limits(settings).min_idle is None,
{
    PoolSettings { builder: r2d2::Pool::builder() }
}

/// `r2d2::Builder::max_size`, which panics on zero.
#[verifier::external_body]
pub(crate) fn with_max_size(settings: PoolSettings, max_size: u32) -> (r: PoolSettings)
    requires
        max_size > 0,
    ensures
        settings_limits(r) == (PoolLimits { max_size, ..settings_limits(settings) }),
{
    PoolSettings { builder: settings.builder.max_size(max_size) }
}

/// `r2d2::Builder::min_idle`.
#[verifier::external_body]
pub(crate) fn with_min_idle(settings: PoolSettings, min_idle: Option<u32>) -> (r: PoolSettings)
    ensures
        settings_limits(r) == (PoolLimits { min_idle, ..settings_limits(settings) }),
{
    PoolSettings { builder: settings.builder.min_idle(min_idle) }
}

/// `r2d2::Builder::max_lifetime`, which panics on a duration of zero.
#[verifier::external_body]
pub(crate) fn with_max_lifetime(settings: PoolSettings, max_lifetime: Duration) -> (r: PoolSettings)
    requires
        !is_zero_duration(max_lifetime),
    ensures
        settings_limits(r) == (PoolLimits {
            max_lifetime: Some(max_lifetime),
            ..settings_limits(settings)
        }),
{
    PoolSettings { builder: settings.builder.max_lifetime(Some(max_lifetime)) }
}

/// `r2d2::Builder::idle_timeout`, which panics on a duration of zero.
#[verifier::external_body]
pub(crate) fn with_idle_timeout(settings: PoolSettings, idle_timeout: Duration) -> (r: PoolSettings)
    requires
        !is_zero_duration(idle_timeout),
    ensures
        settings_limits(r) == (PoolLimits {
            idle_timeout: Some(idle_timeout),
            ..settings_limits(settings)
        }),
{
    PoolSettings { builder: settings.builder.idle_timeout(Some(idle_timeout)) }
}

/// The client that a connection string stands for, where the string is one
/// that `redis::Client::open` takes. Whether it is depends on the string alone.
pub uninterp spec fn client_for(connection_string: Seq<char>) -> Option<redis::Client>;

/// The client that the connections of a pool are made with.
pub uninterp spec fn pool_client(pool: ConnectionPool) -> redis::Client;

/// `r2d2::Builder::build`: a pool with the limits of the settings, which makes
/// its connections with `client`, once it has opened its idle connections. It
/// panics where more idle connections are asked for than the pool may hold.
#[verifier::external_body]
pub(crate) fn build_pool(settings: PoolSettings, client: redis::Client) -> (r: Result<
    ConnectionPool,
    r2d2::Error,
>)
    requires
        settings_limits(settings).min_idle matches Some(min_idle) ==> min_idle <= settings_limits(
            settings,
        ).max_size,
    ensures
        r matches Ok(pool) ==> pool_limits(pool) == settings_limits(settings),
        r matches Ok(pool) ==> pool_client(pool) == client,
{
    settings.builder.build(client).map(|pool| ConnectionPool { pool })
}

/// `r2d2::Pool::max_size`.
#[verifier::external_body]
pub(crate) fn pool_max_size(pool: &ConnectionPool) -> (r: u32)
    ensures
        r == pool_limits(*pool).max_size,
{
    pool.pool.max_size()
}

/// `r2d2::Pool::min_idle`.
#[verifier::external_body]
pub(crate) fn pool_min_idle(pool: &ConnectionPool) -> (r: Option<u32>)
    ensures
        r == pool_limits(*pool).min_idle,
{
    pool.pool.min_idle()
}

/// `r2d2::Pool::max_lifetime`.
#[verifier::external_body]
pub(crate) fn pool_max_lifetime(pool: &ConnectionPool) -> (r: Option<Duration>)
    ensures
        r == pool_limits(*pool).max_lifetime,
{
    pool.pool.max_lifetime()
}

/// `r2d2::Pool::idle_timeout`.
#[verifier::external_body]
pub(crate) fn pool_idle_timeout(pool: &ConnectionPool) -> (r: Option<Duration>)
    ensures
        r == pool_limits(*pool).idle_timeout,
{
    pool.pool.idle_timeout()
}

/// `redis::Client::open`: reads the connection string, and refuses one that it
/// cannot read. No connection is made yet.
#[verifier::external_body]
pub(crate) fn open_client(connection_string: &str) -> (r: Result<redis::Client, redis::RedisError>)
    ensures
        match r {
            Ok(client) => client_for(connection_string@) == Some(client),
            Err(_) => client_for(connection_string@) is None,
        },
{
    redis::Client::open(connection_string)
}

/// `r2d2::Pool::get`: checks a connection out of the pool, or fails when none
/// comes free in time.
#[verifier::external_body]
pub(crate) fn pool_get(pool: &ConnectionPool) -> Result<PooledRedisConnection, r2d2::Error> {
    pool.pool.get().map(|conn| PooledRedisConnection { conn })
}

/// A command for the server, as it is queued.
pub enum RedisOp {
    /// `GET key`
    Read { key: Seq<char> },
    /// `SET key value`
    Write { key: Seq<char>, value: Seq<u8> },
    /// `SETEX key seconds value`: set, to expire after `seconds`.
    WriteExpiring { key: Seq<char>, value: Seq<u8>, seconds: u64 },
    /// `DEL key`
    Delete { key: Seq<char> },
}

/// A queued command, and whether its answer is left out of the result.
pub struct Queued {
    pub op: RedisOp,
    pub ignored: bool,
}

/// The commands that a pipeline holds, in the order in which they were queued.
pub uninterp spec fn pipeline_ops(pipe: redis::Pipeline) -> Seq<Queued>;

/// The commands with the last one's answer left out.
pub open spec fn last_ignored(ops: Seq<Queued>) -> Seq<Queued> {
    if ops.len() == 0 {
        ops
    } else {
        ops.update(ops.len() - 1, Queued { op: ops.last().op, ignored: true })
    }
}

/// `redis::pipe`: an empty pipeline.
#[verifier::external_body]
pub(crate) fn new_pipeline() -> (pipe: redis::Pipeline)
    ensures
        pipeline_ops(pipe) == Seq::<Queued>::empty(),
{
    redis::pipe()
}

/// `get` of `redis::Pipeline`: queues `GET key`.
#[verifier::external_body]
pub(crate) fn queue_get(pipe: &mut redis::Pipeline, key: &str)
    ensures
        pipeline_ops(*final(pipe)) == pipeline_ops(*old(pipe)).push(
            Queued { op: RedisOp::Read { key: key@ }, ignored: false },
        ),
{
    pipe.get(key);
}

/// `set` of `redis::Pipeline`: queues `SET key value`.
#[verifier::external_body]
pub(crate) fn queue_set(pipe: &mut redis::Pipeline, key: &str, value: &[u8])
    ensures
        pipeline_ops(*final(pipe)) == pipeline_ops(*old(pipe)).push(
            Queued { op: RedisOp::Write { key: key@, value: value@ }, ignored: false },
        ),
{
    pipe.set(key, value);
}

/// `set_ex` of `redis::Pipeline`: queues `SETEX key seconds value`.
#[verifier::external_body]
pub(crate) fn queue_set_ex(pipe: &mut redis::Pipeline, key: &str, value: &[u8], seconds: u64)
    ensures
        pipeline_ops(*final(pipe)) == pipeline_ops(*old(pipe)).push(
            Queued { op: RedisOp::WriteExpiring { key: key@, value: value@, seconds }, ignored: false },
        ),
{
    pipe.set_ex(key, value, seconds);
}

/// `del` of `redis::Pipeline`: queues `DEL key`.
#[verifier::external_body]
pub(crate) fn queue_del(pipe: &mut redis::Pipeline, key: &str)
    ensures
        pipeline_ops(*final(pipe)) == pipeline_ops(*old(pipe)).push(
            Queued { op: RedisOp::Delete { key: key@ }, ignored: false },
        ),
{
    pipe.del(key);
}

/// `redis::Pipeline::ignore`: leaves the answer of the last queued command out
/// of the result.
#[verifier::external_body]
pub(crate) fn ignore_last(pipe: &mut redis::Pipeline)
    ensures
        pipeline_ops(*final(pipe)) == last_ignored(pipeline_ops(*old(pipe))),
{
    pipe.ignore();
}

/// `redis::Pipeline::query` for one answer of bytes: sends the commands over
/// the connection and reads what the server says. Nothing can be promised of a
/// server.
#[verifier::external_body]
pub(crate) fn query(pipe: &redis::Pipeline, conn: &mut PooledRedisConnection) -> Result<
    Option<Vec<u8>>,
    redis::RedisError,
> {
    pipe.query::<(Option<Vec<u8>>,)>(&mut *conn.conn).map(|answer| answer.0)
}

} // verus!
