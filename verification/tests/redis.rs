use kash::envelope::{encode_entry, Timestamp};
use kash::stores::redis::{
    check_and_get_result, read_pipeline, remove_pipeline, set_val, write_pipeline,
    DEFAULT_NAMESPACE, ENV_KEY,
};
use kash::{
    AsyncRedisCache, AsyncRedisCacheBuilder, IOKash, RedisCache, RedisCacheBuildError,
    RedisCacheBuilder, RedisCacheError,
};
use std::collections::HashMap;
use std::sync::{Arc, Mutex};
use std::time::{Duration, Instant};
use tokio::net::{UnixListener, UnixStream};
use tokio::runtime::Runtime;

// A stand-in for the server: it keeps keys in memory, lets them expire, and
// speaks as much of the protocol as the store uses.

type Kept = Arc<Mutex<HashMap<Vec<u8>, (Vec<u8>, Option<Instant>)>>>;

fn line_end(buf: &[u8], from: usize) -> Option<usize> {
    (from..buf.len().saturating_sub(1)).find(|&i| buf[i] == b'\r' && buf[i + 1] == b'\n')
}

fn number(buf: &[u8]) -> usize {
    std::str::from_utf8(buf).unwrap().parse().unwrap()
}

// One command off the front of `buf`: its arguments, and how many bytes it took.
fn command(buf: &[u8]) -> Option<(Vec<Vec<u8>>, usize)> {
    if buf.is_empty() {
        return None;
    }
    assert_eq!(buf[0], b'*');
    let end = line_end(buf, 1)?;
    let count = number(&buf[1..end]);
    let mut at = end + 2;
    let mut args = Vec::new();
    for _ in 0..count {
        if at >= buf.len() {
            return None;
        }
        assert_eq!(buf[at], b'$');
        let end = line_end(buf, at + 1)?;
        let len = number(&buf[at + 1..end]);
        let start = end + 2;
        if buf.len() < start + len + 2 {
            return None;
        }
        args.push(buf[start..start + len].to_vec());
        at = start + len + 2;
    }
    Some((args, at))
}

fn live(kept: &mut HashMap<Vec<u8>, (Vec<u8>, Option<Instant>)>, key: &[u8]) -> Option<Vec<u8>> {
    let expired = match kept.get(key) {
        Some((_, Some(until))) => Instant::now() >= *until,
        _ => false,
    };
    if expired {
        kept.remove(key);
    }
    kept.get(key).map(|(value, _)| value.clone())
}

fn answer(kept: &Kept, args: Vec<Vec<u8>>) -> Vec<u8> {
    let mut kept = kept.lock().unwrap();
    let name = String::from_utf8_lossy(&args[0]).to_uppercase();
    match name.as_str() {
        "PING" => b"+PONG\r\n".to_vec(),
        "CLIENT" | "SELECT" => b"+OK\r\n".to_vec(),
        "GET" if kept.contains_key(&b"refuse-reads".to_vec()) => b"-ERR reads are refused\r\n".to_vec(),
        "GET" => match live(&mut kept, &args[1]) {
            Some(value) => {
                let mut out = format!("${}\r\n", value.len()).into_bytes();
                out.extend_from_slice(&value);
                out.extend_from_slice(b"\r\n");
                out
            }
            None => b"$-1\r\n".to_vec(),
        },
        "SET" => {
            kept.insert(args[1].clone(), (args[2].clone(), None));
            b"+OK\r\n".to_vec()
        }
        "SETEX" => {
            let seconds = number(&args[2]) as u64;
            let until = Instant::now() + Duration::from_secs(seconds);
            kept.insert(args[1].clone(), (args[3].clone(), Some(until)));
            b"+OK\r\n".to_vec()
        }
        "DEL" => {
            let was = live(&mut kept, &args[1]).is_some();
            kept.remove(&args[1]);
            format!(":{}\r\n", if was { 1 } else { 0 }).into_bytes()
        }
        _ => b"-ERR unknown command\r\n".to_vec(),
    }
}

async fn send(socket: &UnixStream, mut bytes: &[u8]) -> bool {
    while !bytes.is_empty() {
        if socket.writable().await.is_err() {
            return false;
        }
        match socket.try_write(bytes) {
            Ok(n) => bytes = &bytes[n..],
            Err(e) if e.kind() == std::io::ErrorKind::WouldBlock => {}
            Err(_) => return false,
        }
    }
    true
}

async fn receive(socket: &UnixStream, buf: &mut Vec<u8>) -> bool {
    loop {
        if socket.readable().await.is_err() {
            return false;
        }
        let mut chunk = [0u8; 4096];
        match socket.try_read(&mut chunk) {
            Ok(0) => return false,
            Ok(n) => {
                buf.extend_from_slice(&chunk[..n]);
                return true;
            }
            Err(e) if e.kind() == std::io::ErrorKind::WouldBlock => {}
            Err(_) => return false,
        }
    }
}

async fn talk(socket: UnixStream, kept: Kept) {
    let mut buf: Vec<u8> = Vec::new();
    loop {
        while let Some((args, used)) = command(&buf) {
            buf.drain(..used);
            let reply = answer(&kept, args);
            if !send(&socket, &reply).await {
                return;
            }
        }
        if !receive(&socket, &mut buf).await {
            return;
        }
    }
}

async fn serve(listener: UnixListener, kept: Kept) {
    loop {
        match listener.accept().await {
            Ok((socket, _)) => {
                tokio::spawn(talk(socket, kept.clone()));
            }
            Err(_) => return,
        }
    }
}

struct Server {
    _runtime: Runtime,
    _dir: tempfile::TempDir,
    url: String,
    kept: Kept,
}

fn start_server() -> Server {
    let runtime = tokio::runtime::Builder::new_multi_thread()
        .worker_threads(2)
        .enable_all()
        .build()
        .expect("a runtime");
    let dir = tempfile::TempDir::new().expect("a temporary directory");
    let path = dir.path().join("server.sock");
    let listener = {
        let _entered = runtime.enter();
        UnixListener::bind(&path).expect("a local socket")
    };
    let kept: Kept = Arc::new(Mutex::new(HashMap::new()));
    runtime.spawn(serve(listener, kept.clone()));
    Server { _runtime: runtime, _dir: dir, url: format!("unix://{}", path.display()), kept }
}

fn sleep(duration: Duration) {
    let start = Instant::now();
    while start.elapsed() < duration {
        std::hint::spin_loop();
    }
}

fn now_millis() -> u128 {
    std::time::SystemTime::now()
        .duration_since(std::time::UNIX_EPOCH)
        .unwrap()
        .as_millis()
}

fn to_bytes(n: u32) -> Vec<u8> {
    rmp_serde::to_vec(&n).expect("a number serializes")
}

fn from_bytes(bytes: &[u8]) -> u32 {
    rmp_serde::from_slice(bytes).expect("a number deserializes")
}

fn get(cache: &mut RedisCache, key: u32) -> Result<Option<u32>, RedisCacheError> {
    Ok(cache.get(&key.to_string())?.map(|bytes| from_bytes(&bytes)))
}

fn set(cache: &mut RedisCache, key: u32, value: u32) -> Result<Option<u32>, RedisCacheError> {
    Ok(cache.set(key.to_string(), to_bytes(value))?.map(|bytes| from_bytes(&bytes)))
}

fn remove_key(cache: &mut RedisCache, key: u32) -> Result<Option<u32>, RedisCacheError> {
    Ok(cache.remove(&key.to_string())?.map(|bytes| from_bytes(&bytes)))
}

#[derive(Debug, PartialEq, Clone)]
enum TestError {
    RedisError(String),
    Count(u32),
}

impl From<RedisCacheError> for TestError {
    fn from(e: RedisCacheError) -> Self {
        TestError::RedisError(format!("{e:?}"))
    }
}

// What a function cached in redis does: look the key up, and on a miss compute
// the result and store it where it is `Ok`.
fn cached_in_redis(cache: &mut RedisCache, n: u32) -> Result<u32, TestError> {
    let kash_key = n.to_string();
    if let Some(kash_result) = cache.get(&kash_key)? {
        return Ok(from_bytes(&kash_result));
    }
    let kash_result = if n < 5 { Ok(n) } else { Err(TestError::Count(n)) };
    if let Ok(kash_result) = &kash_result {
        cache.set(kash_key, to_bytes(*kash_result))?;
    }
    kash_result
}

fn kash_redis(cache: &mut RedisCache, n: u32) -> Result<u32, TestError> {
    cached_in_redis(cache, n)
}

#[test]
fn test_kash_redis() {
    let server = start_server();
    let mut cache = RedisCache::new("__kash_redis_proc_macro_test_fn_kash_redis:", Some(1))
        .set_connection_string(&server.url)
        .build()
        .expect("error constructing RedisCache");
    assert_eq!(kash_redis(&mut cache, 1), Ok(1));
    assert_eq!(kash_redis(&mut cache, 1), Ok(1));
    assert_eq!(kash_redis(&mut cache, 5), Err(TestError::Count(5)));
    assert_eq!(kash_redis(&mut cache, 6), Err(TestError::Count(6)));
    let kept = server.kept.lock().unwrap();
    assert_eq!(kept.len(), 1);
    assert!(kept.contains_key(&b"kash:__kash_redis_proc_macro_test_fn_kash_redis:1".to_vec()));
}

fn kash_redis_cache_create(cache: &mut RedisCache, n: u32) -> Result<u32, TestError> {
    cached_in_redis(cache, n)
}

#[test]
fn test_kash_redis_cache_create() {
    let server = start_server();
    let mut cache = RedisCache::new("KASH_REDIS_CACHE_CREATE", None)
        .set_connection_string(&server.url)
        .build()
        .expect("error constructing RedisCache");
    assert_eq!(kash_redis_cache_create(&mut cache, 1), Ok(1));
    assert_eq!(kash_redis_cache_create(&mut cache, 1), Ok(1));
    assert_eq!(kash_redis_cache_create(&mut cache, 5), Err(TestError::Count(5)));
    assert_eq!(kash_redis_cache_create(&mut cache, 6), Err(TestError::Count(6)));
}

#[test]
fn redis_cache() {
    let server = start_server();
    let mut c = RedisCache::new(&format!("{}:redis-cache-test", now_millis()), Some(2))
        .set_namespace("in-tests:")
        .set_connection_string(&server.url)
        .build()
        .unwrap();

    assert!(get(&mut c, 1).unwrap().is_none());

    assert!(set(&mut c, 1, 100).unwrap().is_none());
    assert!(get(&mut c, 1).unwrap().is_some());

    sleep(Duration::new(2, 500_000));
    assert!(get(&mut c, 1).unwrap().is_none());

    let old = c.set_ttl(1).unwrap();
    assert_eq!(2, old);
    assert!(set(&mut c, 1, 100).unwrap().is_none());
    assert!(get(&mut c, 1).unwrap().is_some());

    sleep(Duration::new(1, 600_000));
    assert!(get(&mut c, 1).unwrap().is_none());

    c.set_ttl(10).unwrap();
    assert!(set(&mut c, 1, 100).unwrap().is_none());
    assert!(set(&mut c, 2, 100).unwrap().is_none());
    assert_eq!(get(&mut c, 1).unwrap().unwrap(), 100);
    assert_eq!(get(&mut c, 1).unwrap().unwrap(), 100);
}

#[test]
fn remove() {
    let server = start_server();
    let mut c = RedisCache::new(&format!("{}:redis-cache-test-remove", now_millis()), Some(3600))
        .set_connection_string(&server.url)
        .build()
        .unwrap();

    assert!(set(&mut c, 1, 100).unwrap().is_none());
    assert!(set(&mut c, 2, 200).unwrap().is_none());
    assert!(set(&mut c, 3, 300).unwrap().is_none());

    assert_eq!(100, remove_key(&mut c, 1).unwrap().unwrap());
}

#[test]
fn second_write_returns_the_first_and_removal_leaves_nothing() {
    let server = start_server();
    let mut c = RedisCache::new("p:", None)
        .set_connection_string(&server.url)
        .set_connection_pool_max_size(2)
        .set_connection_pool_min_idle(1)
        .set_connection_pool_max_lifetime(Duration::from_secs(60))
        .set_connection_pool_idle_timeout(Duration::from_secs(60))
        .build()
        .unwrap();
    assert_eq!(c.connection_string(), server.url);
    assert_eq!(c.set("k".to_string(), b"x".to_vec()).unwrap(), None);
    assert_eq!(c.set("k".to_string(), b"y".to_vec()).unwrap(), Some(b"x".to_vec()));
    assert_eq!(c.get(&"k".to_string()).unwrap(), Some(b"y".to_vec()));
    assert_eq!(c.remove(&"k".to_string()).unwrap(), Some(b"y".to_vec()));
    assert_eq!(c.get(&"k".to_string()).unwrap(), None);
    assert_eq!(c.remove(&"k".to_string()).unwrap(), None);
    assert_eq!(c.remove(&"never".to_string()).unwrap(), None);
}

#[test]
fn what_the_server_holds_is_the_envelope_under_the_external_key() {
    let server = start_server();
    let mut c = RedisCache::new("p:", Some(50))
        .set_namespace("ns:")
        .set_connection_string(&server.url)
        .build()
        .unwrap();
    let written = Timestamp::new(77, 5);
    assert_eq!(c.set_at("k".to_string(), vec![1, 2], written).unwrap(), None);
    let kept = server.kept.lock().unwrap();
    let (bytes, until) = kept.get(&b"ns:p:k".to_vec()).expect("the external key is set");
    assert_eq!(bytes, &encode_entry(&vec![1, 2], written).unwrap());
    assert!(until.is_some());
}

#[test]
fn without_a_time_to_live_the_server_is_told_none() {
    let server = start_server();
    let mut c = RedisCache::new("p:", None).set_connection_string(&server.url).build().unwrap();
    c.set("k".to_string(), vec![1]).unwrap();
    {
        let kept = server.kept.lock().unwrap();
        let (_, until) = kept.get(&b"kash:p:k".to_vec()).expect("the external key is set");
        assert!(until.is_none());
    }
    assert_eq!(c.unset_ttl(), None);
    assert_eq!(c.set_ttl(9), None);
    assert_eq!(c.ttl(), Some(9));
    assert_eq!(c.unset_ttl(), Some(9));
    assert_eq!(c.ttl(), None);
}

#[test]
fn stores_with_other_key_spaces_do_not_see_each_other() {
    let server = start_server();
    let mut one = RedisCache::new("one:", None).set_connection_string(&server.url).build().unwrap();
    let mut two = RedisCache::new("two:", None).set_connection_string(&server.url).build().unwrap();
    one.set("k".to_string(), vec![1]).unwrap();
    assert_eq!(two.get(&"k".to_string()).unwrap(), None);
    two.set("k".to_string(), vec![2]).unwrap();
    assert_eq!(one.get(&"k".to_string()).unwrap(), Some(vec![1]));
    assert_eq!(two.remove(&"k".to_string()).unwrap(), Some(vec![2]));
    assert_eq!(one.get(&"k".to_string()).unwrap(), Some(vec![1]));
}

#[test]
fn foreign_bytes_on_the_server_read_as_absent() {
    let server = start_server();
    let mut c = RedisCache::new("p:", None).set_connection_string(&server.url).build().unwrap();
    server.kept.lock().unwrap().insert(b"kash:p:k".to_vec(), (b"garbage".to_vec(), None));
    assert_eq!(c.get(&"k".to_string()).unwrap(), None);
    assert_eq!(c.set("k".to_string(), vec![1]).unwrap(), None);
    assert_eq!(c.get(&"k".to_string()).unwrap(), Some(vec![1]));
}

#[test]
fn a_server_that_refuses_is_an_error() {
    let server = start_server();
    let mut c = RedisCache::new("p:", None).set_connection_string(&server.url).build().unwrap();
    server.kept.lock().unwrap().insert(b"refuse-reads".to_vec(), (vec![], None));
    assert!(matches!(c.get(&"k".to_string()), Err(RedisCacheError::RedisCacheError(_))));
    assert!(matches!(c.set("k".to_string(), vec![1]), Err(RedisCacheError::RedisCacheError(_))));
    assert!(matches!(c.remove(&"k".to_string()), Err(RedisCacheError::RedisCacheError(_))));
    server.kept.lock().unwrap().remove(&b"refuse-reads".to_vec());
    assert_eq!(c.get(&"k".to_string()).unwrap(), None);
}

#[test]
fn a_pool_without_idle_connections_is_built_without_a_server() {
    let dir = tempfile::TempDir::new().unwrap();
    let url = format!("unix://{}", dir.path().join("nobody.sock").display());
    // no idle connection is asked for, so the pool is built without one
    let r = RedisCache::new("p:", None)
        .set_connection_string(&url)
        .set_connection_pool_min_idle(0)
        .build();
    assert!(r.is_ok());
}

#[test]
fn builder_starts_with_the_default_namespace() {
    let b = RedisCacheBuilder::new("prefix", Some(3));
    assert_eq!(b.seconds, Some(3));
    assert_eq!(b.namespace, "kash:");
    assert_eq!(b.namespace, DEFAULT_NAMESPACE);
    assert_eq!(b.prefix, "prefix");
    assert_eq!(b.connection_string, None);
    assert_eq!(b.pool_max_size, None);
    assert_eq!(b.pool_min_idle, None);
    assert_eq!(b.pool_max_lifetime, None);
    assert_eq!(b.pool_idle_timeout, None);
}

#[test]
fn builder_takes_each_setting_and_keeps_the_others() {
    let b = RedisCache::new("prefix", None)
        .set_ttl(4)
        .set_namespace("ns:")
        .set_prefix("p:")
        .set_connection_string("redis://example/")
        .set_connection_pool_max_size(7)
        .set_connection_pool_min_idle(3)
        .set_connection_pool_max_lifetime(Duration::from_secs(11))
        .set_connection_pool_idle_timeout(Duration::from_secs(13));
    assert_eq!(b.seconds, Some(4));
    assert_eq!(b.namespace, "ns:");
    assert_eq!(b.prefix, "p:");
    assert_eq!(b.connection_string.as_deref(), Some("redis://example/"));
    assert_eq!(b.pool_max_size, Some(7));
    assert_eq!(b.pool_min_idle, Some(3));
    assert_eq!(b.pool_max_lifetime, Some(Duration::from_secs(11)));
    assert_eq!(b.pool_idle_timeout, Some(Duration::from_secs(13)));
    assert_eq!(b.connection_string().unwrap(), "redis://example/");
}

#[test]
fn missing_connection_string_names_the_environment_variable() {
    let b = RedisCacheBuilder::new("p", None);
    match b.connection_string() {
        Err(RedisCacheBuildError::MissingConnectionString { env_key }) => {
            assert_eq!(env_key, "KASH_REDIS_CONNECTION_STRING");
            assert_eq!(env_key, ENV_KEY);
        }
        other => panic!("unexpected: {other:?}"),
    }
    assert!(matches!(
        b.create_pool(),
        Err(RedisCacheBuildError::MissingConnectionString { .. })
    ));
    assert!(matches!(
        b.build(),
        Err(RedisCacheBuildError::MissingConnectionString { .. })
    ));
}

#[test]
fn a_connection_string_that_is_none_is_a_connection_error() {
    let r = RedisCacheBuilder::new("p", None).set_connection_string("not a connection string").build();
    assert!(matches!(r, Err(RedisCacheBuildError::Connection(_))));
}

#[test]
fn pool_limits_are_tested_before_building() {
    let b = || RedisCacheBuilder::new("p", None);
    assert!(b().has_valid_pool_limits());
    assert!(b().set_connection_pool_max_size(1).has_valid_pool_limits());
    assert!(!b().set_connection_pool_max_size(0).has_valid_pool_limits());
    // the pool holds ten where no size is set
    assert!(b().set_connection_pool_min_idle(10).has_valid_pool_limits());
    assert!(!b().set_connection_pool_min_idle(11).has_valid_pool_limits());
    assert!(b().set_connection_pool_max_size(20).set_connection_pool_min_idle(11).has_valid_pool_limits());
    assert!(!b().set_connection_pool_max_size(2).set_connection_pool_min_idle(3).has_valid_pool_limits());
    assert!(b().set_connection_pool_min_idle(0).has_valid_pool_limits());
    assert!(!b().set_connection_pool_max_lifetime(Duration::from_secs(0)).has_valid_pool_limits());
    assert!(b().set_connection_pool_max_lifetime(Duration::from_nanos(1)).has_valid_pool_limits());
    assert!(!b().set_connection_pool_idle_timeout(Duration::from_secs(0)).has_valid_pool_limits());
    assert!(b().set_connection_pool_idle_timeout(Duration::from_millis(1)).has_valid_pool_limits());
}

#[test]
fn pool_is_built_with_the_limits_that_were_set() {
    let server = start_server();
    let pool = RedisCacheBuilder::new("p", None)
        .set_connection_string(&server.url)
        .set_connection_pool_max_size(3)
        .set_connection_pool_min_idle(2)
        .set_connection_pool_max_lifetime(Duration::from_secs(17))
        .set_connection_pool_idle_timeout(Duration::from_secs(19))
        .create_pool()
        .unwrap();
    assert_eq!(pool.max_size(), 3);
    assert_eq!(pool.min_idle(), Some(2));
    assert_eq!(pool.max_lifetime(), Some(Duration::from_secs(17)));
    assert_eq!(pool.idle_timeout(), Some(Duration::from_secs(19)));

    let pool = RedisCacheBuilder::new("p", None)
        .set_connection_string(&server.url)
        .create_pool()
        .unwrap();
    assert_eq!(pool.max_size(), 10);
    assert_eq!(pool.min_idle(), None);

    let cache = RedisCacheBuilder::new("p", None)
        .set_connection_string(&server.url)
        .set_connection_pool_max_size(4)
        .build()
        .unwrap();
    assert_eq!(cache.pool().max_size(), 4);
    assert_eq!(cache.pool().min_idle(), None);
}

fn packed(parts: &[&[u8]]) -> Vec<u8> {
    let mut out = format!("*{}\r\n", parts.len()).into_bytes();
    for part in parts {
        out.extend_from_slice(format!("${}\r\n", part.len()).as_bytes());
        out.extend_from_slice(part);
        out.extend_from_slice(b"\r\n");
    }
    out
}

fn ignored(pipe: &redis::Pipeline) -> String {
    let shown = format!("{pipe:?}");
    let from = shown.find("ignored_commands").expect("the pipeline shows what it ignores");
    let rest = &shown[from..];
    rest[..rest.find('}').unwrap() + 1].to_string()
}

#[test]
fn read_pipeline_is_one_get() {
    let pipe = read_pipeline("kash:p:1");
    assert_eq!(pipe.len(), 1);
    assert_eq!(pipe.get_packed_pipeline(), packed(&[b"GET", b"kash:p:1"]));
    assert_eq!(ignored(&pipe), "ignored_commands: {}");
}

#[test]
fn remove_pipeline_is_a_get_and_an_ignored_del() {
    let pipe = remove_pipeline("kash:p:1");
    assert_eq!(pipe.len(), 2);
    let mut expected = packed(&[b"GET", b"kash:p:1"]);
    expected.extend(packed(&[b"DEL", b"kash:p:1"]));
    assert_eq!(pipe.get_packed_pipeline(), expected);
    assert_eq!(ignored(&pipe), "ignored_commands: {1}");
}

#[test]
fn write_pipeline_stores_with_the_time_to_live() {
    let written = Timestamp::new(9, 9);
    let envelope = encode_entry(&vec![5], written).unwrap();

    let pipe = write_pipeline(Some(30), "k".to_string(), &vec![5], written).unwrap();
    let mut expected = packed(&[b"GET", b"k"]);
    expected.extend(packed(&[b"SETEX", b"k", b"30", &envelope]));
    assert_eq!(pipe.get_packed_pipeline(), expected);
    assert_eq!(ignored(&pipe), "ignored_commands: {1}");

    let pipe = write_pipeline(None, "k".to_string(), &vec![5], written).unwrap();
    let mut expected = packed(&[b"GET", b"k"]);
    expected.extend(packed(&[b"SET", b"k", &envelope]));
    assert_eq!(pipe.get_packed_pipeline(), expected);
    assert_eq!(ignored(&pipe), "ignored_commands: {1}");
}

#[test]
fn set_val_appends_one_ignored_command() {
    let mut pipe = redis::pipe();
    set_val(Some(5), &mut pipe, "a".to_string(), b"v");
    assert_eq!(pipe.get_packed_pipeline(), packed(&[b"SETEX", b"a", b"5", b"v"]));
    assert_eq!(ignored(&pipe), "ignored_commands: {0}");
    set_val(None, &mut pipe, "b".to_string(), b"w");
    let mut expected = packed(&[b"SETEX", b"a", b"5", b"v"]);
    expected.extend(packed(&[b"SET", b"b", b"w"]));
    assert_eq!(pipe.get_packed_pipeline(), expected);
    let shown = ignored(&pipe);
    assert!(shown == "ignored_commands: {0, 1}" || shown == "ignored_commands: {1, 0}");
}

#[test]
fn fetched_bytes_read_as_the_value_of_their_envelope() {
    assert_eq!(check_and_get_result(None).unwrap(), None);
    let envelope = encode_entry(&vec![1, 2, 3], Timestamp::new(1, 2)).unwrap();
    assert_eq!(check_and_get_result(Some(envelope)).unwrap(), Some(vec![1, 2, 3]));
    assert_eq!(check_and_get_result(Some(b"garbage".to_vec())).unwrap(), None);
    assert_eq!(check_and_get_result(Some(vec![])).unwrap(), None);
}

#[test]
fn async_builder_takes_each_setting() {
    let b = AsyncRedisCacheBuilder::new("prefix", Some(3));
    assert_eq!(b.seconds, Some(3));
    assert_eq!(b.namespace, "kash:");
    assert_eq!(b.prefix, "prefix");
    assert_eq!(b.connection_string, None);
    let b = AsyncRedisCache::new("prefix", Some(3))
        .set_ttl(None)
        .set_namespace("ns:")
        .set_prefix("p:")
        .set_connection_string("redis://example/");
    assert_eq!(b.seconds, None);
    assert_eq!(b.namespace, "ns:");
    assert_eq!(b.prefix, "p:");
    assert_eq!(b.connection_string.as_deref(), Some("redis://example/"));
    assert_eq!(b.connection_string().unwrap(), "redis://example/");
    let b = b.set_ttl(Some(8));
    assert_eq!(b.seconds, Some(8));
}

#[test]
fn async_cache_without_a_connection_string_is_not_built() {
    let b = AsyncRedisCacheBuilder::new("p", None);
    assert!(matches!(
        b.connection_string(),
        Err(RedisCacheBuildError::MissingConnectionString { .. })
    ));
    match b.build() {
        Err(RedisCacheBuildError::MissingConnectionString { env_key }) => {
            assert_eq!(env_key, "KASH_REDIS_CONNECTION_STRING")
        }
        _ => panic!("a cache was built without a connection string"),
    }
}

#[test]
fn async_cache_queues_what_the_blocking_cache_sends() {
    let mut c = AsyncRedisCache::new("p:", Some(2))
        .set_namespace("ns:")
        .set_connection_string("redis://example/")
        .build()
        .unwrap();
    assert_eq!(c.connection_string(), "redis://example/");
    assert_eq!(c.generate_key("k"), "ns:p:k");
    assert_eq!(c.ttl(), Some(2));

    assert_eq!(c.get_pipeline("k").get_packed_pipeline(), packed(&[b"GET", b"ns:p:k"]));

    let mut expected = packed(&[b"GET", b"ns:p:k"]);
    expected.extend(packed(&[b"DEL", b"ns:p:k"]));
    assert_eq!(c.remove_pipeline("k").get_packed_pipeline(), expected);

    let written = Timestamp::new(3, 4);
    let envelope = encode_entry(&vec![7], written).unwrap();
    let mut expected = packed(&[b"GET", b"ns:p:k"]);
    expected.extend(packed(&[b"SETEX", b"ns:p:k", b"2", &envelope]));
    assert_eq!(c.set_pipeline("k", &vec![7], written).unwrap().get_packed_pipeline(), expected);

    assert_eq!(c.set_ttl(6), Some(2));
    assert_eq!(c.unset_ttl(), Some(6));
    assert_eq!(c.ttl(), None);
    let mut expected = packed(&[b"GET", b"ns:p:k"]);
    expected.extend(packed(&[b"SET", b"ns:p:k", &envelope]));
    assert_eq!(c.set_pipeline("k", &vec![7], written).unwrap().get_packed_pipeline(), expected);
}

#[test]
fn async_pipelines_run_against_a_server() {
    let server = start_server();
    let c = AsyncRedisCache::new("p:", None).set_connection_string(&server.url).build().unwrap();
    let client = redis::Client::open(c.connection_string()).unwrap();
    let runtime = tokio::runtime::Builder::new_current_thread().enable_all().build().unwrap();
    let mut conn = runtime.block_on(client.get_multiplexed_async_connection()).unwrap();

    let pipe = c.set_pipeline("k", &vec![1], Timestamp::new(1, 0)).unwrap();
    let fetched: (Option<Vec<u8>>,) = runtime.block_on(pipe.query_async(&mut conn)).unwrap();
    assert_eq!(check_and_get_result(fetched.0).unwrap(), None);

    let pipe = c.get_pipeline("k");
    let fetched: (Option<Vec<u8>>,) = runtime.block_on(pipe.query_async(&mut conn)).unwrap();
    assert_eq!(check_and_get_result(fetched.0).unwrap(), Some(vec![1]));

    let pipe = c.remove_pipeline("k");
    let fetched: (Option<Vec<u8>>,) = runtime.block_on(pipe.query_async(&mut conn)).unwrap();
    assert_eq!(check_and_get_result(fetched.0).unwrap(), Some(vec![1]));

    let pipe = c.get_pipeline("k");
    let fetched: (Option<Vec<u8>>,) = runtime.block_on(pipe.query_async(&mut conn)).unwrap();
    assert_eq!(check_and_get_result(fetched.0).unwrap(), None);
}

#[test]
fn fallback_connection_string_is_used_only_where_none_is_set() {
    let b = RedisCacheBuilder::new("p", None).or_connection_string(Some("redis://fallback/"));
    assert_eq!(b.connection_string.as_deref(), Some("redis://fallback/"));
    let b = b.or_connection_string(Some("redis://other/"));
    assert_eq!(b.connection_string.as_deref(), Some("redis://fallback/"));
    let b = RedisCacheBuilder::new("p", Some(1)).or_connection_string(None);
    assert_eq!(b.connection_string, None);
    assert_eq!(b.seconds, Some(1));

    let b = AsyncRedisCacheBuilder::new("p", None).or_connection_string(Some("redis://fallback/"));
    assert_eq!(b.connection_string.as_deref(), Some("redis://fallback/"));
    let b = b.or_connection_string(None);
    assert_eq!(b.connection_string.as_deref(), Some("redis://fallback/"));
    let b = AsyncRedisCacheBuilder::new("p", None).set_connection_string("redis://set/");
    assert_eq!(
        b.or_connection_string(Some("redis://fallback/")).connection_string.as_deref(),
        Some("redis://set/")
    );
}

#[test]
fn pool_connects_with_the_connection_string_that_was_set() {
    let server = start_server();
    let other = start_server();
    let mut c = RedisCache::new("p:", None).set_connection_string(&server.url).build().unwrap();
    c.set("k".to_string(), vec![1]).unwrap();
    assert_eq!(server.kept.lock().unwrap().len(), 1);
    assert_eq!(other.kept.lock().unwrap().len(), 0);
}

#[test]
fn a_connection_string_that_cannot_be_read_makes_no_pool() {
    for cs in ["", "not a connection string", "http://example/", "redis://"] {
        let b = RedisCacheBuilder::new("p", None).set_connection_string(cs);
        assert!(matches!(b.create_pool(), Err(RedisCacheBuildError::Connection(_))), "{cs:?}");
    }
}
