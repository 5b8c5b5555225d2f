//! A store on a redis server. The server keeps the entries and enforces their
//! time-to-live; this side renders keys, queues the commands of each operation
//! and reads the answer.

use crate::envelope::{
    decode_entry, decoded, encode_entry, encoded, fits, fresh, DecodeError, EncodeError,
    Timestamp,
};
use crate::key::{render, rendered};
use crate::stores::entries::bytes_of;
use crate::trusted::pipeline::{
    build_pool, client_for, ignore_last, is_zero_duration, new_pipeline, open_client,
    pipeline_ops, pool_client, pool_get, pool_idle_timeout, pool_limits, pool_max_lifetime, pool_max_size, pool_min_idle,
    pool_settings, query, queue_del, queue_get, queue_set, queue_set_ex, with_idle_timeout,
    with_max_lifetime, with_max_size, with_min_idle, ConnectionPool, PoolLimits, Queued, RedisOp,
};
use std::time::Duration;
use vstd::prelude::*;

verus! {

/// Name of the environment variable that callers fall back to for the
/// connection string.
pub const ENV_KEY: &'static str = "KASH_REDIS_CONNECTION_STRING";

/// The namespace that keys get unless another is set.
pub const DEFAULT_NAMESPACE: &'static str = "kash:";

/// The largest pool that `r2d2` builds when no size is set.
pub const DEFAULT_POOL_MAX_SIZE: u32 = 10;

/// Why a redis cache could not be built.
#[derive(Debug)]
pub enum RedisCacheBuildError {
    /// The connection string was refused, or the server could not be reached.
    Connection(redis::RedisError),
    /// The pool could not open its connections.
    Pool(r2d2::Error),
    /// No connection string was set. `env_key` names the environment variable
    /// that could have held one.
    MissingConnectionString { env_key: String },
}

/// Why an operation on a redis cache failed.
#[derive(Debug)]
pub enum RedisCacheError {
    /// The server or the connection failed.
    RedisCacheError(redis::RedisError),
    /// The pool gave no connection.
    PoolError(r2d2::Error),
    /// Stored bytes could not be read as a value.
    CacheDeserializationError(DecodeError),
    /// A value could not be written as bytes.
    CacheSerializationError(EncodeError),
}

impl ConnectionPool {
    /// The largest number of connections that the pool keeps.
    pub fn max_size(&self) -> (r: u32)
        ensures
            r == pool_limits(*self).max_size,
    {
        pool_max_size(self)
    }

    /// The number of idle connections that the pool keeps ready, if one was
    /// set.
    pub fn min_idle(&self) -> (r: Option<u32>)
        ensures
            r == pool_limits(*self).min_idle,
    {
        pool_min_idle(self)
    }

    /// How long a connection of the pool may live.
    pub fn max_lifetime(&self) -> (r: Option<Duration>)
        ensures
            r == pool_limits(*self).max_lifetime,
    {
        pool_max_lifetime(self)
    }

    /// How long a connection of the pool may sit idle.
    pub fn idle_timeout(&self) -> (r: Option<Duration>)
        ensures
            r == pool_limits(*self).idle_timeout,
    {
        pool_idle_timeout(self)
    }
}

/// The commands of a read of `key`.
pub open spec fn read_ops(key: Seq<char>) -> Seq<Queued> {
    seq![Queued { op: RedisOp::Read { key }, ignored: false }]
}

/// The command that stores `value` under `key`: one that expires after the
/// time-to-live where there is one, a plain one where there is none.
pub open spec fn store_op(seconds: Option<u64>, key: Seq<char>, value: Seq<u8>) -> RedisOp {
    match seconds {
        Some(seconds) => RedisOp::WriteExpiring { key, value, seconds },
        None => RedisOp::Write { key, value },
    }
}

/// The commands of a write of `value` under `key`: fetch what is there, then
/// store. Only the fetch is answered.
pub open spec fn write_ops(seconds: Option<u64>, key: Seq<char>, value: Seq<u8>) -> Seq<Queued> {
    seq![
        Queued { op: RedisOp::Read { key }, ignored: false },
        Queued { op: store_op(seconds, key, value), ignored: true },
    ]
}

/// The commands of a removal of `key`: fetch what is there, then delete. Only
/// the fetch is answered.
pub open spec fn remove_ops(key: Seq<char>) -> Seq<Queued> {
    seq![
        Queued { op: RedisOp::Read { key }, ignored: false },
        Queued { op: RedisOp::Delete { key }, ignored: true },
    ]
}

/// The bytes that a pipeline leaves under its key on the server: what its last
/// command stores, where that is a command that stores.
pub open spec fn stored_by(ops: Seq<Queued>) -> Option<Seq<u8>> {
    if ops.len() == 0 {
        None
    } else {
        match ops.last().op {
            RedisOp::Write { value, .. } => Some(value),
            RedisOp::WriteExpiring { value, .. } => Some(value),
            _ => None,
        }
    }
}

/// Whether `value` is what some answer of the server reads as.
pub open spec fn reads_an_answer(value: Option<Vec<u8>>) -> bool {
    exists|fetched: Option<Seq<u8>>| bytes_of(value) == #[trigger] fetched_value(fetched)
}

/// The value that fetched bytes stand for: that of their envelope, and nothing
/// where nothing was fetched or the bytes are no envelope.
pub open spec fn fetched_value(fetched: Option<Seq<u8>>) -> Option<Seq<u8>> {
    match fetched {
        None => None,
        Some(bytes) => match decoded(bytes) {
            Some(e) => Some(e.value),
            None => None,
        },
    }
}

/// Queues the command that stores `val` under `key`, with the time-to-live
/// where there is one. Its answer is left out of the result.
pub fn set_val(seconds: Option<u64>, pipe: &mut redis::Pipeline, key: String, val: &[u8])
    ensures
        pipeline_ops(*final(pipe)) == pipeline_ops(*old(pipe)).push(
            Queued { op: store_op(seconds, key@, val@), ignored: true },
        ),
{
    if let Some(seconds) = seconds {
        queue_set_ex(pipe, key.as_str(), val, seconds);
    } else {
        queue_set(pipe, key.as_str(), val);
    }
    ignore_last(pipe);
    assert(pipeline_ops(*pipe) =~= pipeline_ops(*old(pipe)).push(
        Queued { op: store_op(seconds, key@, val@), ignored: true },
    ));
}

/// Reads the answer to a fetch: the value of the envelope that came back.
/// Nothing fetched is no value, and so are bytes that are no envelope.
pub fn check_and_get_result(res: Option<Vec<u8>>) -> (r: Result<Option<Vec<u8>>, RedisCacheError>)
    ensures
        r matches Ok(value) && bytes_of(value) == fetched_value(bytes_of(res)),
{
    match res {
        None => Ok(None),
        Some(s) => match decode_entry(s.as_slice()) {
            Ok(entry) => Ok(Some(entry.value)),
            Err(_) => Ok(None),
        },
    }
}

/// The pipeline of a read of the external key `key`.
pub fn read_pipeline(key: &str) -> (pipe: redis::Pipeline)
    ensures
        pipeline_ops(pipe) == read_ops(key@),
{
    let mut pipe = new_pipeline();
    queue_get(&mut pipe, key);
    assert(pipeline_ops(pipe) =~= read_ops(key@));
    pipe
}

/// The pipeline of a write under the external key `key`: `value` goes into a
/// fresh envelope made at `now`. Where the envelope cannot be written there is
/// no pipeline.
pub fn write_pipeline(seconds: Option<u64>, key: String, value: &Vec<u8>, now: Timestamp) -> (r:
    Result<redis::Pipeline, RedisCacheError>)
    ensures
        match r {
            Ok(pipe) => pipeline_ops(pipe) == write_ops(
                seconds,
                key@,
                encoded(fresh(value@, now)),
            ) && (fits(value@) ==> fetched_value(stored_by(pipeline_ops(pipe))) == Some(value@)),
            Err(e) => e matches RedisCacheError::CacheSerializationError(cause) && cause is Pack,
        },
{
    let mut pipe = new_pipeline();
    queue_get(&mut pipe, key.as_str());
    let val = match encode_entry(value, now) {
        Ok(val) => val,
        Err(e) => { return Err(RedisCacheError::CacheSerializationError(e)); },
    };
    let ghost shown = key@;
    set_val(seconds, &mut pipe, key, val.as_slice());
    assert(pipeline_ops(pipe) =~= write_ops(seconds, shown, encoded(fresh(value@, now))));
    Ok(pipe)
}

/// The pipeline of a removal of the external key `key`.
pub fn remove_pipeline(key: &str) -> (pipe: redis::Pipeline)
    ensures
        pipeline_ops(pipe) == remove_ops(key@),
{
    let mut pipe = new_pipeline();
    queue_get(&mut pipe, key);
    queue_del(&mut pipe, key);
    ignore_last(&mut pipe);
    assert(pipeline_ops(pipe) =~= remove_ops(key@));
    pipe
}

/// A write or a removal returns the value of the write before it, where the
/// server answers the fetch with the bytes that the earlier write stored and
/// those bytes are the envelope of the value. That a server answers so is the
/// server's part: it does where no other writer came between and the entry has
/// not expired there.
pub proof fn lemma_fetch_reads_earlier_write(
    seconds: Option<u64>,
    key: Seq<char>,
    payload: Seq<u8>,
    first: Seq<u8>,
    written: Timestamp,
    answer: Option<Seq<u8>>,
)
    requires
        answer == stored_by(write_ops(seconds, key, payload)),
    ensures
        decoded(payload) == Some(fresh(first, written)) ==> fetched_value(answer) == Some(first),
{
}

/// After a removal a fetch reads nothing, where the server answers it with
/// what the removal left under the key, which is nothing.
pub proof fn lemma_fetch_reads_nothing_after_removal(key: Seq<char>, answer: Option<Seq<u8>>)
    requires
        answer == stored_by(remove_ops(key)),
    ensures
        fetched_value(answer) is None,
{
}

/// Collects the settings of a redis cache with a pool of connections.
pub struct RedisCacheBuilder {
    pub seconds: Option<u64>,
    pub namespace: String,
    pub prefix: String,
    pub connection_string: Option<String>,
    pub pool_max_size: Option<u32>,
    pub pool_min_idle: Option<u32>,
    pub pool_max_lifetime: Option<Duration>,
    pub pool_idle_timeout: Option<Duration>,
}

impl RedisCacheBuilder {
    /// A builder with the default namespace, the given prefix and
    /// time-to-live, no connection string and the pool's own limits.
    pub fn new(prefix: &str, seconds: Option<u64>) -> (b: RedisCacheBuilder)
        ensures
            b.seconds == seconds,
            b.namespace@ == DEFAULT_NAMESPACE@,
            b.prefix@ == prefix@,
            b.connection_string is None,
            b.pool_max_size is None,
            b.pool_min_idle is None,
            b.pool_max_lifetime is None,
            b.pool_idle_timeout is None,
    {
        RedisCacheBuilder {
            seconds,
            namespace: DEFAULT_NAMESPACE.to_owned(),
            prefix: prefix.to_owned(),
            connection_string: None,
            pool_max_size: None,
            pool_min_idle: None,
            pool_max_lifetime: None,
            pool_idle_timeout: None,
        }
    }

    /// Sets the time-to-live, in seconds.
    #[must_use]
    pub fn set_ttl(self, seconds: u64) -> (b: RedisCacheBuilder)
        ensures
            b == (RedisCacheBuilder { seconds: Some(seconds), ..self }),
    {
        let mut b = self;
        b.seconds = Some(seconds);
        b
    }

    /// Sets the namespace of the keys. Keys are the namespace, the prefix and
    /// the key with nothing between them, so an empty namespace is allowed.
    #[must_use]
    pub fn set_namespace(self, namespace: &str) -> (b: RedisCacheBuilder)
        ensures
            b.namespace@ == namespace@,
            b.seconds == self.seconds,
            b.prefix == self.prefix,
            b.connection_string == self.connection_string,
            b.pool_max_size == self.pool_max_size,
            b.pool_min_idle == self.pool_min_idle,
            b.pool_max_lifetime == self.pool_max_lifetime,
            b.pool_idle_timeout == self.pool_idle_timeout,
    {
        let mut b = self;
        b.namespace = namespace.to_owned();
        b
    }

    /// Sets the prefix of the keys. Keys are the namespace, the prefix and the
    /// key with nothing between them, so an empty prefix is allowed.
    #[must_use]
    pub fn set_prefix(self, prefix: &str) -> (b: RedisCacheBuilder)
        ensures
            b.prefix@ == prefix@,
            b.seconds == self.seconds,
            b.namespace == self.namespace,
            b.connection_string == self.connection_string,
            b.pool_max_size == self.pool_max_size,
            b.pool_min_idle == self.pool_min_idle,
            b.pool_max_lifetime == self.pool_max_lifetime,
            b.pool_idle_timeout == self.pool_idle_timeout,
    {
        let mut b = self;
        b.prefix = prefix.to_owned();
        b
    }

    /// Sets the connection string of the server.
    #[must_use]
    pub fn set_connection_string(self, cs: &str) -> (b: RedisCacheBuilder)
        ensures
            b.connection_string matches Some(s) && s@ == cs@,
            b.seconds == self.seconds,
            b.namespace == self.namespace,
            b.prefix == self.prefix,
            b.pool_max_size == self.pool_max_size,
            b.pool_min_idle == self.pool_min_idle,
            b.pool_max_lifetime == self.pool_max_lifetime,
            b.pool_idle_timeout == self.pool_idle_timeout,
    {
        let mut b = self;
        b.connection_string = Some(cs.to_owned());
        b
    }

    /// Sets the connection string to `fallback`, such as the environment gives
    /// it, where none is set. One that is set stays, and a fallback of nothing
    /// changes nothing.
    #[must_use]
    pub fn or_connection_string(self, fallback: Option<&str>) -> (b: RedisCacheBuilder)
        ensures
            match (self.connection_string, fallback) {
                (Some(s), _) => b.connection_string == Some(s),
                (None, Some(f)) => b.connection_string matches Some(s) && s@ == f@,
                (None, None) => b.connection_string is None,
            },
            b.seconds == self.seconds,
            b.namespace == self.namespace,
            b.prefix == self.prefix,
            b.pool_max_size == self.pool_max_size,
            b.pool_min_idle == self.pool_min_idle,
            b.pool_max_lifetime == self.pool_max_lifetime,
            b.pool_idle_timeout == self.pool_idle_timeout,
    {
        let mut b = self;
        if b.connection_string.is_none() {
            if let Some(f) = fallback {
                b.connection_string = Some(f.to_owned());
            }
        }
        b
    }

    /// Sets the largest number of connections that the pool keeps.
    #[must_use]
    pub fn set_connection_pool_max_size(self, max_size: u32) -> (b: RedisCacheBuilder)
        ensures
            b == (RedisCacheBuilder { pool_max_size: Some(max_size), ..self }),
    {
        let mut b = self;
        b.pool_max_size = Some(max_size);
        b
    }

    /// Sets the number of idle connections that the pool keeps ready.
    #[must_use]
    pub fn set_connection_pool_min_idle(self, min_idle: u32) -> (b: RedisCacheBuilder)
        ensures
            b == (RedisCacheBuilder { pool_min_idle: Some(min_idle), ..self }),
    {
        let mut b = self;
        b.pool_min_idle = Some(min_idle);
        b
    }

    /// Sets how long a connection of the pool may live.
    #[must_use]
    pub fn set_connection_pool_max_lifetime(self, max_lifetime: Duration) -> (b: RedisCacheBuilder)
        ensures
            b == (RedisCacheBuilder { pool_max_lifetime: Some(max_lifetime), ..self }),
    {
        let mut b = self;
        b.pool_max_lifetime = Some(max_lifetime);
        b
    }

    /// Sets how long a connection of the pool may sit idle.
    #[must_use]
    pub fn set_connection_pool_idle_timeout(self, idle_timeout: Duration) -> (b: RedisCacheBuilder)
        ensures
            b == (RedisCacheBuilder { pool_idle_timeout: Some(idle_timeout), ..self }),
    {
        let mut b = self;
        b.pool_idle_timeout = Some(idle_timeout);
        b
    }

    /// The connection string that was set. Without one there is
    /// `MissingConnectionString`, which names the environment variable that a
    /// caller may read one from.
    pub fn connection_string(&self) -> (r: Result<String, RedisCacheBuildError>)
        ensures
            match self.connection_string {
                Some(s) => r matches Ok(found) && found@ == s@,
                None => r matches Err(RedisCacheBuildError::MissingConnectionString { env_key })
                    && env_key@ == ENV_KEY@,
            },
    {
        match &self.connection_string {
            Some(s) => Ok(s.clone()),
            None => Err(RedisCacheBuildError::MissingConnectionString { env_key: ENV_KEY.to_owned() }),
        }
    }

    /// Whether a pool can be built with the limits that were set: a size that
    /// is not zero, no more idle connections than the size, which is ten where
    /// none was set, and no lifetime or idle time of zero.
    pub open spec fn pool_limits_ok(&self) -> bool {
        &&& self.pool_max_size != Some(0u32)
        &&& self.pool_min_idle matches Some(min_idle) ==> min_idle <= (match self.pool_max_size {
            Some(max_size) => max_size,
            None => DEFAULT_POOL_MAX_SIZE,
        })
        &&& self.pool_max_lifetime matches Some(d) ==> !is_zero_duration(d)
        &&& self.pool_idle_timeout matches Some(d) ==> !is_zero_duration(d)
    }

    /// Whether the connection string that is set is one that cannot be read.
    pub open spec fn refused(&self) -> bool {
        self.connection_string matches Some(s) && client_for(s@) is None
    }

    /// Whether `client` is the one that the connection string stands for.
    pub open spec fn connects_with(&self, client: redis::Client) -> bool {
        self.connection_string matches Some(s) && client_for(s@) == Some(client)
    }

    /// Whether a pool's limits are those that were set: the size, or ten where
    /// none was set; the number of idle connections, or none; and each time
    /// that was set.
    pub open spec fn asks_for(&self, limits: PoolLimits) -> bool {
        &&& limits.max_size == (match self.pool_max_size {
            Some(max_size) => max_size,
            None => DEFAULT_POOL_MAX_SIZE,
        })
        &&& limits.min_idle == self.pool_min_idle
        &&& self.pool_max_lifetime is Some ==> limits.max_lifetime == self.pool_max_lifetime
        &&& self.pool_idle_timeout is Some ==> limits.idle_timeout == self.pool_idle_timeout
    }

    /// Tests the limits of the pool. `build` takes only limits that pass.
    pub fn has_valid_pool_limits(&self) -> (r: bool)
        ensures
            r == self.pool_limits_ok(),
    {
        let max_size: u32 = match self.pool_max_size {
            Some(max_size) => max_size,
            None => DEFAULT_POOL_MAX_SIZE,
        };
        let size_ok = max_size != 0;
        let idle_ok = match self.pool_min_idle {
            Some(min_idle) => min_idle <= max_size,
            None => true,
        };
        let lifetime_ok = match &self.pool_max_lifetime {
            Some(d) => !d.is_zero(),
            None => true,
        };
        let timeout_ok = match &self.pool_idle_timeout {
            Some(d) => !d.is_zero(),
            None => true,
        };
        size_ok && idle_ok && lifetime_ok && timeout_ok
    }

    /// Opens a client for the connection string and builds the pool with the
    /// limits that were set; the pool's own where none was.
    pub fn create_pool(&self) -> (r: Result<ConnectionPool, RedisCacheBuildError>)
        requires
            self.pool_limits_ok(),
        ensures
            r matches Err(RedisCacheBuildError::MissingConnectionString { .. })
                <==> self.connection_string is None,
            r matches Err(RedisCacheBuildError::Connection(_)) <==> self.refused(),
            r matches Ok(pool) ==> self.asks_for(pool_limits(pool)) && self.connects_with(
                pool_client(pool),
            ),
    {
        let s = match self.connection_string() {
            Ok(s) => s,
            Err(e) => { return Err(e); },
        };
        let client = match open_client(s.as_str()) {
            Ok(client) => client,
            Err(e) => { return Err(RedisCacheBuildError::Connection(e)); },
        };
        let pool_builder = pool_settings();
        let pool_builder = if let Some(max_size) = self.pool_max_size {
            with_max_size(pool_builder, max_size)
        } else {
            pool_builder
        };
        let pool_builder = if let Some(min_idle) = self.pool_min_idle {
            with_min_idle(pool_builder, Some(min_idle))
        } else {
            pool_builder
        };
        let pool_builder = if let Some(max_lifetime) = self.pool_max_lifetime {
            with_max_lifetime(pool_builder, max_lifetime)
        } else {
            pool_builder
        };
        let pool_builder = if let Some(idle_timeout) = self.pool_idle_timeout {
            with_idle_timeout(pool_builder, idle_timeout)
        } else {
            pool_builder
        };
        match build_pool(pool_builder, client) {
            Ok(pool) => Ok(pool),
            Err(e) => Err(RedisCacheBuildError::Pool(e)),
        }
    }

    /// Builds the cache: the settings as they were collected, and a pool that
    /// is connected to the server.
    pub fn build(self) -> (r: Result<RedisCache, RedisCacheBuildError>)
        requires
            self.pool_limits_ok(),
        ensures
            r matches Err(RedisCacheBuildError::MissingConnectionString { .. })
                <==> self.connection_string is None,
            r matches Ok(cache) ==> cache.ttl_seconds() == self.seconds && cache.namespace_view()
                == self.namespace@ && cache.prefix_view() == self.prefix@ && Some(
                cache.connection_string_view(),
            ) == (match self.connection_string {
                Some(s) => Some(s@),
                None => None,
            }) && self.asks_for(pool_limits(cache.pool_view())) && self.connects_with(
                pool_client(cache.pool_view()),
            ),
            r matches Err(RedisCacheBuildError::Connection(_)) <==> self.refused(),
    {
        let connection_string = match self.connection_string() {
            Ok(s) => s,
            Err(e) => { return Err(e); },
        };
        let pool = match self.create_pool() {
            Ok(pool) => pool,
            Err(e) => { return Err(e); },
        };
        Ok(
            RedisCache {
                seconds: self.seconds,
                namespace: self.namespace,
                prefix: self.prefix,
                connection_string,
                pool,
            },
        )
    }
}

/// Cache store backed by redis. The server applies and enforces the
/// time-to-live. Connections come from a pool.
pub struct RedisCache {
    seconds: Option<u64>,
    namespace: String,
    prefix: String,
    connection_string: String,
    pool: ConnectionPool,
}

impl RedisCache {
    /// A builder with the given prefix and time-to-live.
    pub fn new(prefix: &str, seconds: Option<u64>) -> (b: RedisCacheBuilder)
        ensures
            b.seconds == seconds,
            b.namespace@ == DEFAULT_NAMESPACE@,
            b.prefix@ == prefix@,
            b.connection_string is None,
            b.pool_max_size is None,
            b.pool_min_idle is None,
            b.pool_max_lifetime is None,
            b.pool_idle_timeout is None,
    {
        RedisCacheBuilder::new(prefix, seconds)
    }

    /// The pool that the cache takes its connections from.
    pub closed spec fn pool_view(&self) -> ConnectionPool {
        self.pool
    }

    /// The pool that the cache takes its connections from.
    pub fn pool(&self) -> (r: &ConnectionPool)
        ensures
            *r == self.pool_view(),
    {
        &self.pool
    }

    /// The time-to-live, in seconds, that writes hand to the server.
    pub closed spec fn ttl_seconds(&self) -> Option<u64> {
        self.seconds
    }

    /// The namespace of the keys.
    pub closed spec fn namespace_view(&self) -> Seq<char> {
        self.namespace@
    }

    /// The prefix of the keys.
    pub closed spec fn prefix_view(&self) -> Seq<char> {
        self.prefix@
    }

    /// The connection string that the cache was built with.
    pub closed spec fn connection_string_view(&self) -> Seq<char> {
        self.connection_string@
    }

    /// The same cache with another time-to-live.
    pub closed spec fn with_ttl(self, seconds: Option<u64>) -> Self {
        Self { seconds, ..self }
    }

    /// The key under which the server holds the entry of `key`.
    pub open spec fn external_key(&self, key: Seq<char>) -> Seq<char> {
        rendered(self.namespace_view(), self.prefix_view(), key)
    }

    /// Another time-to-live changes nothing else.
    pub proof fn lemma_with_ttl(self, seconds: Option<u64>)
        ensures
            self.with_ttl(seconds).ttl_seconds() == seconds,
            self.with_ttl(seconds).namespace_view() == self.namespace_view(),
            self.with_ttl(seconds).prefix_view() == self.prefix_view(),
            self.with_ttl(seconds).connection_string_view() == self.connection_string_view(),
    {
    }

    /// The key under which the server holds the entry of `key`.
    pub fn generate_key(&self, key: &str) -> (r: String)
        ensures
            r@ == self.external_key(key@),
    {
        render(self.namespace.as_str(), self.prefix.as_str(), key)
    }

    /// The connection string that the cache was built with.
    #[must_use]
    pub fn connection_string(&self) -> (r: String)
        ensures
            r@ == self.connection_string_view(),
    {
        self.connection_string.clone()
    }

    /// Sends a pipeline over a connection of the pool and reads the answer.
    fn round_trip(&self, pipe: &redis::Pipeline) -> (r: Result<Option<Vec<u8>>, RedisCacheError>)
        ensures
            match r {
                Ok(value) => reads_an_answer(value),
                Err(e) => e is PoolError || e is RedisCacheError,
            },
    {
        let mut conn = match pool_get(&self.pool) {
            Ok(conn) => conn,
            Err(e) => { return Err(RedisCacheError::PoolError(e)); },
        };
        match query(pipe, &mut conn) {
            Ok(fetched) => {
                let r = check_and_get_result(fetched);
                assert(bytes_of(r.unwrap()) == fetched_value(bytes_of(fetched)));
                r
            },
            Err(e) => Err(RedisCacheError::RedisCacheError(e)),
        }
    }

    /// Writes `value` under `key` in a fresh envelope made at `now`, with the
    /// time-to-live for the server to enforce, and returns the value that the
    /// server held before. Fetch and store go in one round trip, but not as
    /// one transaction: another writer may come between them.
    pub fn set_at(&mut self, key: String, value: Vec<u8>, now: Timestamp) -> (r: Result<
        Option<Vec<u8>>,
        RedisCacheError,
    >)
        ensures
            *final(self) == *old(self),
            match r {
                Ok(previous) => reads_an_answer(previous),
                Err(RedisCacheError::CacheSerializationError(e)) => e is Pack,
                Err(e) => e is PoolError || e is RedisCacheError,
            },
    {
        let key = self.generate_key(key.as_str());
        let pipe = match write_pipeline(self.seconds, key, &value, now) {
            Ok(pipe) => pipe,
            Err(e) => { return Err(e); },
        };
        self.round_trip(&pipe)
    }
}

impl crate::IOKash<String, Vec<u8>> for RedisCache {
    type Error = RedisCacheError;

    open spec fn lifetime(&self) -> Option<u64> {
        self.ttl_seconds()
    }

    /// Fetches the entry of `key` in one round trip. The server does not give
    /// out what has expired, so the time is not looked at here.
    fn get(&mut self, key: &String) -> (r: Result<Option<Vec<u8>>, RedisCacheError>)
        ensures
            *final(self) == *old(self),
            match r {
                Ok(value) => reads_an_answer(value),
                Err(e) => e is PoolError || e is RedisCacheError,
            },
    {
        let key = self.generate_key(key.as_str());
        let pipe = read_pipeline(key.as_str());
        self.round_trip(&pipe)
    }

    /// `set_at` by the wall clock. A clock that stands before the epoch gives
    /// no time to record: nothing is sent.
    fn set(&mut self, key: String, value: Vec<u8>) -> (r: Result<Option<Vec<u8>>, RedisCacheError>)
        ensures
            *final(self) == *old(self),
            match r {
                Ok(previous) => reads_an_answer(previous),
                Err(RedisCacheError::CacheSerializationError(_)) => true,
                Err(e) => e is PoolError || e is RedisCacheError,
            },
    {
        match Timestamp::now() {
            Some(now) => self.set_at(key, value, now),
            None => Err(RedisCacheError::CacheSerializationError(EncodeError::ClockBeforeEpoch)),
        }
    }

    /// Fetches and deletes the entry of `key` in one round trip, with the same
    /// caveat as for a write.
    fn remove(&mut self, key: &String) -> (r: Result<Option<Vec<u8>>, RedisCacheError>)
        ensures
            *final(self) == *old(self),
            match r {
                Ok(value) => reads_an_answer(value),
                Err(e) => e is PoolError || e is RedisCacheError,
            },
    {
        let key = self.generate_key(key.as_str());
        let pipe = remove_pipeline(key.as_str());
        self.round_trip(&pipe)
    }

    fn ttl(&self) -> (r: Option<u64>)
        ensures
            r == self.ttl_seconds(),
    {
        self.seconds
    }

    /// Sets the time-to-live that later writes hand to the server, and returns
    /// the old one. What the server already holds keeps its own.
    fn set_ttl(&mut self, seconds: u64) -> (r: Option<u64>)
        ensures
            r == old(self).ttl_seconds(),
            *final(self) == old(self).with_ttl(Some(seconds)),
    {
        let previous = self.seconds;
        self.seconds = Some(seconds);
        previous
    }

    /// Removes the time-to-live, so that later writes do not expire, and
    /// returns the old one.
    fn unset_ttl(&mut self) -> (r: Option<u64>)
        ensures
            r == old(self).ttl_seconds(),
            *final(self) == old(self).with_ttl(None),
    {
        let previous = self.seconds;
        self.seconds = None;
        previous
    }
}

/// Collects the settings of a redis cache that is used from asynchronous code.
pub struct AsyncRedisCacheBuilder {
    pub seconds: Option<u64>,
    pub namespace: String,
    pub prefix: String,
    pub connection_string: Option<String>,
}

impl AsyncRedisCacheBuilder {
    /// A builder with the default namespace, the given prefix and
    /// time-to-live, and no connection string.
    pub fn new(prefix: &str, seconds: Option<u64>) -> (b: AsyncRedisCacheBuilder)
        ensures
            b.seconds == seconds,
            b.namespace@ == DEFAULT_NAMESPACE@,
            b.prefix@ == prefix@,
            b.connection_string is None,
    {
        AsyncRedisCacheBuilder {
            seconds,
            namespace: DEFAULT_NAMESPACE.to_owned(),
            prefix: prefix.to_owned(),
            connection_string: None,
        }
    }

    /// Sets the time-to-live, in seconds, or that there is none.
    #[must_use]
    pub fn set_ttl(self, seconds: Option<u64>) -> (b: AsyncRedisCacheBuilder)
        ensures
            b == (AsyncRedisCacheBuilder { seconds, ..self }),
    {
        let mut b = self;
        b.seconds = seconds;
        b
    }

    /// Sets the namespace of the keys. Nothing is put between namespace,
    /// prefix and key, so an empty namespace is allowed.
    #[must_use]
    pub fn set_namespace(self, namespace: &str) -> (b: AsyncRedisCacheBuilder)
        ensures
            b.namespace@ == namespace@,
            b.seconds == self.seconds,
            b.prefix == self.prefix,
            b.connection_string == self.connection_string,
    {
        let mut b = self;
        b.namespace = namespace.to_owned();
        b
    }

    /// Sets the prefix of the keys. Nothing is put between namespace, prefix
    /// and key, so an empty prefix is allowed.
    #[must_use]
    pub fn set_prefix(self, prefix: &str) -> (b: AsyncRedisCacheBuilder)
        ensures
            b.prefix@ == prefix@,
            b.seconds == self.seconds,
            b.namespace == self.namespace,
            b.connection_string == self.connection_string,
    {
        let mut b = self;
        b.prefix = prefix.to_owned();
        b
    }

    /// Sets the connection string of the server.
    #[must_use]
    pub fn set_connection_string(self, cs: &str) -> (b: AsyncRedisCacheBuilder)
        ensures
            b.connection_string matches Some(s) && s@ == cs@,
            b.seconds == self.seconds,
            b.namespace == self.namespace,
            b.prefix == self.prefix,
    {
        let mut b = self;
        b.connection_string = Some(cs.to_owned());
        b
    }

    /// Sets the connection string to `fallback`, such as the environment gives
    /// it, where none is set. One that is set stays, and a fallback of nothing
    /// changes nothing.
    #[must_use]
    pub fn or_connection_string(self, fallback: Option<&str>) -> (b: AsyncRedisCacheBuilder)
        ensures
            match (self.connection_string, fallback) {
                (Some(s), _) => b.connection_string == Some(s),
                (None, Some(f)) => b.connection_string matches Some(s) && s@ == f@,
                (None, None) => b.connection_string is None,
            },
            b.seconds == self.seconds,
            b.namespace == self.namespace,
            b.prefix == self.prefix,
    {
        let mut b = self;
        if b.connection_string.is_none() {
            if let Some(f) = fallback {
                b.connection_string = Some(f.to_owned());
            }
        }
        b
    }

    /// The connection string that was set. Without one there is
    /// `MissingConnectionString`, which names the environment variable that a
    /// caller may read one from.
    pub fn connection_string(&self) -> (r: Result<String, RedisCacheBuildError>)
        ensures
            match self.connection_string {
                Some(s) => r matches Ok(found) && found@ == s@,
                None => r matches Err(RedisCacheBuildError::MissingConnectionString { env_key })
                    && env_key@ == ENV_KEY@,
            },
    {
        match &self.connection_string {
            Some(s) => Ok(s.clone()),
            None => Err(RedisCacheBuildError::MissingConnectionString { env_key: ENV_KEY.to_owned() }),
        }
    }

    /// Builds the cache's side of the store: its settings, ready to queue
    /// commands and to read answers. The connection is the caller's to make.
    pub fn build(self) -> (r: Result<AsyncRedisCache, RedisCacheBuildError>)
        ensures
            match self.connection_string {
                Some(s) => r matches Ok(cache) && cache.ttl_seconds() == self.seconds
                    && cache.namespace_view() == self.namespace@ && cache.prefix_view()
                    == self.prefix@ && cache.connection_string_view() == s@,
                None => r matches Err(RedisCacheBuildError::MissingConnectionString { env_key })
                    && env_key@ == ENV_KEY@,
            },
    {
        let connection_string = match self.connection_string() {
            Ok(s) => s,
            Err(e) => { return Err(e); },
        };
        Ok(
            AsyncRedisCache {
                seconds: self.seconds,
                namespace: self.namespace,
                prefix: self.prefix,
                connection_string,
            },
        )
    }
}

/// Cache store backed by redis, for asynchronous code: what the store decides
/// between two awaits. The server applies and enforces the time-to-live.
pub struct AsyncRedisCache {
    seconds: Option<u64>,
    namespace: String,
    prefix: String,
    connection_string: String,
}

impl AsyncRedisCache {
    /// A builder with the given prefix and time-to-live.
    pub fn new(prefix: &str, seconds: Option<u64>) -> (b: AsyncRedisCacheBuilder)
        ensures
            b.seconds == seconds,
            b.namespace@ == DEFAULT_NAMESPACE@,
            b.prefix@ == prefix@,
            b.connection_string is None,
    {
        AsyncRedisCacheBuilder::new(prefix, seconds)
    }

    /// The time-to-live, in seconds, that writes hand to the server.
    pub closed spec fn ttl_seconds(&self) -> Option<u64> {
        self.seconds
    }

    /// The namespace of the keys.
    pub closed spec fn namespace_view(&self) -> Seq<char> {
        self.namespace@
    }

    /// The prefix of the keys.
    pub closed spec fn prefix_view(&self) -> Seq<char> {
        self.prefix@
    }

    /// The connection string that the cache was built with.
    pub closed spec fn connection_string_view(&self) -> Seq<char> {
        self.connection_string@
    }

    /// The same cache with another time-to-live.
    pub closed spec fn with_ttl(self, seconds: Option<u64>) -> Self {
        Self { seconds, ..self }
    }

    /// The key under which the server holds the entry of `key`.
    pub open spec fn external_key(&self, key: Seq<char>) -> Seq<char> {
        rendered(self.namespace_view(), self.prefix_view(), key)
    }

    /// Another time-to-live changes nothing else.
    pub proof fn lemma_with_ttl(self, seconds: Option<u64>)
        ensures
            self.with_ttl(seconds).ttl_seconds() == seconds,
            self.with_ttl(seconds).namespace_view() == self.namespace_view(),
            self.with_ttl(seconds).prefix_view() == self.prefix_view(),
            self.with_ttl(seconds).connection_string_view() == self.connection_string_view(),
    {
    }

    /// The key under which the server holds the entry of `key`.
    pub fn generate_key(&self, key: &str) -> (r: String)
        ensures
            r@ == self.external_key(key@),
    {
        render(self.namespace.as_str(), self.prefix.as_str(), key)
    }

    /// The connection string that the cache was built with.
    #[must_use]
    pub fn connection_string(&self) -> (r: &str)
        ensures
            r@ == self.connection_string_view(),
    {
        self.connection_string.as_str()
    }

    /// The commands that fetch the entry of `key`.
    pub fn get_pipeline(&self, key: &str) -> (pipe: redis::Pipeline)
        ensures
            pipeline_ops(pipe) == read_ops(self.external_key(key@)),
    {
        let key = self.generate_key(key);
        read_pipeline(key.as_str())
    }

    /// The commands that fetch the entry of `key` and store `value` in a fresh
    /// envelope made at `now`, with the time-to-live where there is one.
    pub fn set_pipeline(&self, key: &str, value: &Vec<u8>, now: Timestamp) -> (r: Result<
        redis::Pipeline,
        RedisCacheError,
    >)
        ensures
            match r {
                Ok(pipe) => pipeline_ops(pipe) == write_ops(
                    self.ttl_seconds(),
                    self.external_key(key@),
                    encoded(fresh(value@, now)),
                ) && (fits(value@) ==> fetched_value(stored_by(pipeline_ops(pipe))) == Some(
                    value@,
                )),
                Err(e) => e matches RedisCacheError::CacheSerializationError(cause) && cause
                    is Pack,
            },
    {
        let key = self.generate_key(key);
        write_pipeline(self.seconds, key, value, now)
    }

    /// The commands that fetch and delete the entry of `key`.
    pub fn remove_pipeline(&self, key: &str) -> (pipe: redis::Pipeline)
        ensures
            pipeline_ops(pipe) == remove_ops(self.external_key(key@)),
    {
        let key = self.generate_key(key);
        remove_pipeline(key.as_str())
    }

    /// The time-to-live, in seconds.
    pub fn ttl(&self) -> (r: Option<u64>)
        ensures
            r == self.ttl_seconds(),
    {
        self.seconds
    }

    /// Sets the time-to-live that later writes hand to the server, and returns
    /// the old one.
    pub fn set_ttl(&mut self, seconds: u64) -> (r: Option<u64>)
        ensures
            r == old(self).ttl_seconds(),
            *final(self) == old(self).with_ttl(Some(seconds)),
    {
        let previous = self.seconds;
        self.seconds = Some(seconds);
        previous
    }

    /// Removes the time-to-live, so that later writes do not expire, and
    /// returns the old one.
    pub fn unset_ttl(&mut self) -> (r: Option<u64>)
        ensures
            r == old(self).ttl_seconds(),
            *final(self) == old(self).with_ttl(None),
    {
        let previous = self.seconds;
        self.seconds = None;
        previous
    }
}

} // verus!
