//! A store on disk, kept in a sled database. Entries are envelopes; whether one
//! has expired is decided when it is read.

use crate::envelope::{
    decode_entry, encode_entry, encoded, expired, fits, fresh, DecodeError, EncodeError,
    EnvelopeView, KashDiskValue, Timestamp,
};
use crate::stores::entries::{
    after_get, after_remove, after_set, after_sweep, bytes_of, doomed, found, held, kept_on_read,
    lemma_insert_held, lemma_live_is_found, lemma_read_keeps, lemma_remove_held, lemma_swept_held,
    live_value, lookup, put, slice_of, swept,
};
use crate::trusted::database::{
    config_at, db_entries, db_flush, db_insert, db_path, db_refresh, db_remove, db_scan,
    db_synced, default_config, joined, open_db, path_join, platform_cache_dir,
};
use std::path::PathBuf;
use vstd::prelude::*;
use vstd::slice::slice_to_vec;

verus! {

/// Decides inside `sled::Tree::update_and_fetch` what a read leaves in a slot.
pub fn keep_on_read(slot: Option<&[u8]>, ttl: Option<u64>, now: Timestamp) -> (r: Option<Vec<u8>>)
    ensures
        bytes_of(r) == kept_on_read(slice_of(slot), ttl, now),
{
    match slot {
        None => None,
        Some(bytes) => {
            if ttl.is_none() {
                Some(slice_to_vec(bytes))
            } else {
                match decode_entry(bytes) {
                    Err(_) => None,
                    Ok(e) => if e.is_expired(ttl, now) {
                        None
                    } else {
                        Some(slice_to_vec(bytes))
                    },
                }
            }
        },
    }
}

/// Name of the directory that disk caches go to when none is given.
pub const DISK_FILE_PREFIX: &'static str = "kash_disk_cache";

/// Version of the on-disk format. It is part of each cache's file name.
pub const DISK_FILE_VERSION: u64 = 1;

/// The key under which the database holds the entry of `key`: its UTF-8 bytes.
pub open spec fn slot(key: Seq<char>) -> Seq<u8> {
    vstd::utf8::encode_utf8(key)
}

/// Different keys have different slots.
pub proof fn lemma_slot_is_injective(key1: Seq<char>, key2: Seq<char>)
    requires
        key1 != key2,
    ensures
        slot(key1) != slot(key2),
{
    vstd::utf8::encode_utf8_decode_utf8(key1);
    vstd::utf8::encode_utf8_decode_utf8(key2);
}

/// The characters of a name that may be absent.
pub open spec fn text_of(name: Option<&str>) -> Option<Seq<char>> {
    match name {
        Some(n) => Some(n@),
        None => None,
    }
}

/// The name of the directory for the disk caches of the program `exe_name`.
pub open spec fn default_dir_name(exe_name: Option<Seq<char>>) -> Seq<char> {
    match exe_name {
        Some(name) => name + "_"@ + DISK_FILE_PREFIX@,
        None => DISK_FILE_PREFIX@,
    }
}

/// The text of one decimal digit.
pub open spec fn digit_text(d: nat) -> Seq<char> {
    if d == 0 {
        "0"@
    } else if d == 1 {
        "1"@
    } else if d == 2 {
        "2"@
    } else if d == 3 {
        "3"@
    } else if d == 4 {
        "4"@
    } else if d == 5 {
        "5"@
    } else if d == 6 {
        "6"@
    } else if d == 7 {
        "7"@
    } else if d == 8 {
        "8"@
    } else {
        "9"@
    }
}

/// A number in decimal digits, without leading zeros.
pub open spec fn decimal(n: nat) -> Seq<char>
    decreases n,
{
    if n < 10 {
        digit_text(n)
    } else {
        decimal(n / 10) + digit_text(n % 10)
    }
}

/// The file name of the cache `cache_name` in the format `version`: the name,
/// `_v` and the version, so that two format versions never share a file.
pub open spec fn versioned_name(cache_name: Seq<char>, version: u64) -> Seq<char> {
    cache_name + "_v"@ + decimal(version as nat)
}

fn digit_str(d: u64) -> (r: &'static str)
    requires
        d < 10,
    ensures
        r@ == digit_text(d as nat),
{
    if d == 0 {
        "0"
    } else if d == 1 {
        "1"
    } else if d == 2 {
        "2"
    } else if d == 3 {
        "3"
    } else if d == 4 {
        "4"
    } else if d == 5 {
        "5"
    } else if d == 6 {
        "6"
    } else if d == 7 {
        "7"
    } else if d == 8 {
        "8"
    } else {
        "9"
    }
}

/// Writes a number in decimal digits.
pub fn decimal_string(n: u64) -> (r: String)
    ensures
        r@ == decimal(n as nat),
    decreases n,
{
    if n < 10 {
        digit_str(n).to_owned()
    } else {
        let mut r = decimal_string(n / 10);
        r.append(digit_str(n % 10));
        r
    }
}

/// Why a disk cache could not be built.
#[derive(Debug)]
pub enum DiskCacheBuildError {
    /// The database could not be opened.
    ConnectionError(sled::Error),
    /// No directory was given to build in.
    MissingPath,
}

/// Why an operation on a disk cache failed.
#[derive(Debug)]
pub enum DiskCacheError {
    /// The database failed.
    StorageError(sled::Error),
    /// Stored bytes could not be read as a value.
    CacheDeserializationError(DecodeError),
    /// A value could not be written as bytes.
    CacheSerializationError(EncodeError),
}

/// Collects the settings of a disk cache and opens it.
pub struct DiskCacheBuilder {
    pub seconds: Option<u64>,
    pub sync_to_disk_on_cache_change: bool,
    pub dir: Option<PathBuf>,
    pub cache_name: String,
    pub connection_config: Option<sled::Config>,
}

impl DiskCacheBuilder {
    /// A builder for the cache `cache_name`: no time-to-live, no directory, no
    /// flush on each change.
    pub fn new(cache_name: &str) -> (b: DiskCacheBuilder)
        ensures
            b.seconds is None,
            !b.sync_to_disk_on_cache_change,
            b.dir is None,
            b.cache_name@ == cache_name@,
            b.connection_config is None,
    {
        DiskCacheBuilder {
            seconds: None,
            sync_to_disk_on_cache_change: false,
            dir: None,
            cache_name: cache_name.to_owned(),
            connection_config: None,
        }
    }

    /// Sets the time-to-live, in seconds.
    pub fn set_ttl(self, seconds: u64) -> (b: DiskCacheBuilder)
        ensures
            b == (DiskCacheBuilder { seconds: Some(seconds), ..self }),
    {
        let mut b = self;
        b.seconds = Some(seconds);
        b
    }

    /// Sets the directory that the cache's file goes to.
    pub fn set_disk_directory(self, dir: PathBuf) -> (b: DiskCacheBuilder)
        ensures
            b == (DiskCacheBuilder { dir: Some(dir), ..self }),
    {
        let mut b = self;
        b.dir = Some(dir);
        b
    }

    /// Sets the directory to `default_dir` where none is set, and keeps the
    /// one that is set.
    pub fn or_disk_directory(self, default_dir: PathBuf) -> (b: DiskCacheBuilder)
        ensures
            b == (DiskCacheBuilder {
                dir: Some(
                    match self.dir {
                        Some(dir) => dir,
                        None => default_dir,
                    },
                ),
                ..self
            }),
    {
        let mut b = self;
        if b.dir.is_none() {
            b.dir = Some(default_dir);
        }
        b
    }

    /// Sets whether each change is flushed to disk at once. Otherwise the
    /// database flushes when it sees fit.
    pub fn set_sync_to_disk_on_cache_change(self, sync_to_disk_on_cache_change: bool) -> (b:
        DiskCacheBuilder)
        ensures
            b == (DiskCacheBuilder { sync_to_disk_on_cache_change, ..self }),
    {
        let mut b = self;
        b.sync_to_disk_on_cache_change = sync_to_disk_on_cache_change;
        b
    }

    /// Sets the database configuration to open with. Its path is overwritten
    /// when the cache is built.
    pub fn set_connection_config(self, config: sled::Config) -> (b: DiskCacheBuilder)
        ensures
            b == (DiskCacheBuilder { connection_config: Some(config), ..self }),
    {
        let mut b = self;
        b.connection_config = Some(config);
        b
    }

    /// The name of the directory for the disk caches of the program
    /// `exe_name`: the program's name and an underscore, where there is a name,
    /// and then the fixed name of the cache directory.
    pub fn default_dir_name(exe_name: Option<&str>) -> (name: String)
        ensures
            name@ == default_dir_name(text_of(exe_name)),
    {
        match exe_name {
            Some(n) => {
                let mut name = n.to_owned();
                name.append("_");
                name.append(DISK_FILE_PREFIX);
                name
            },
            None => DISK_FILE_PREFIX.to_owned(),
        }
    }

    /// The directory that disk caches go to when none is given, on a platform
    /// whose cache directory is `cache_dir`: the directory of
    /// `default_dir_name` under it, or `current_dir` where the platform has
    /// none.
    pub fn disk_dir_under(
        cache_dir: Option<PathBuf>,
        exe_name: Option<&str>,
        current_dir: PathBuf,
    ) -> (dir: PathBuf)
        ensures
            dir == (match cache_dir {
                Some(cache_dir) => joined(cache_dir, default_dir_name(text_of(exe_name))),
                None => current_dir,
            }),
    {
        match cache_dir {
            Some(cache_dir) => {
                let name = Self::default_dir_name(exe_name);
                path_join(&cache_dir, name.as_str())
            },
            None => current_dir,
        }
    }

    /// The directory that disk caches go to on this platform when none is
    /// given: the directory of `default_dir_name` under the platform's cache
    /// directory. There is none where the platform has no cache directory,
    /// which depends on the environment; the caller then falls back on a
    /// directory of its own.
    pub fn platform_disk_dir(exe_name: Option<&str>) -> (dir: Option<PathBuf>)
        ensures
            dir matches Some(dir) ==> exists|cache_dir: PathBuf|
                dir == #[trigger] joined(cache_dir, default_dir_name(text_of(exe_name))),
    {
        match platform_cache_dir() {
            Some(cache_dir) => {
                let name = Self::default_dir_name(exe_name);
                Some(path_join(&cache_dir, name.as_str()))
            },
            None => None,
        }
    }

    /// The directory that disk caches go to when none is given: what
    /// `disk_dir_under` makes of the platform's cache directory. Whether the
    /// platform has one depends on the environment.
    pub fn default_disk_dir(exe_name: Option<&str>, current_dir: PathBuf) -> (dir: PathBuf)
        ensures
            dir == current_dir || exists|cache_dir: PathBuf|
                dir == #[trigger] joined(cache_dir, default_dir_name(text_of(exe_name))),
    {
        Self::disk_dir_under(platform_cache_dir(), exe_name, current_dir)
    }

    /// The file name of the cache: its name, `_v` and the version of the
    /// on-disk format.
    pub fn file_name(&self) -> (name: String)
        ensures
            name@ == versioned_name(self.cache_name@, DISK_FILE_VERSION),
    {
        let mut name = self.cache_name.clone();
        name.append("_v");
        let version = decimal_string(DISK_FILE_VERSION);
        name.append(version.as_str());
        name
    }

    /// Opens the cache in the directory that was set: the database is opened
    /// at the cache's file name under that directory, whatever path a
    /// configuration that was set had named. Without a directory there is
    /// `MissingPath`; where the database does not open, its error.
    pub fn build(self) -> (r: Result<DiskCache, DiskCacheBuildError>)
        ensures
            r matches Err(DiskCacheBuildError::MissingPath) <==> self.dir is None,
            r matches Ok(cache) ==> cache.ttl_seconds() == self.seconds
                && cache.syncs_on_change() == self.sync_to_disk_on_cache_change
                && cache.format_version() == DISK_FILE_VERSION && Some(cache.location())
                == (match self.dir {
                Some(dir) => Some(joined(dir, versioned_name(self.cache_name@, DISK_FILE_VERSION))),
                None => None,
            }) && cache.opened_at() == cache.location(),
    {
        let name = self.file_name();
        let DiskCacheBuilder { seconds, sync_to_disk_on_cache_change, dir, cache_name, connection_config } = self;
        let dir = match dir {
            Some(dir) => dir,
            None => { return Err(DiskCacheBuildError::MissingPath); },
        };
        let path = path_join(&dir, name.as_str());
        let config = match connection_config {
            Some(config) => config,
            None => default_config(),
        };
        let config = config_at(config, &path);
        match open_db(&config) {
            Ok(connection) => Ok(
                DiskCache {
                    seconds,
                    sync_to_disk_on_cache_change,
                    version: DISK_FILE_VERSION,
                    path,
                    connection,
                },
            ),
            Err(e) => Err(DiskCacheBuildError::ConnectionError(e)),
        }
    }
}

/// Cache store backed by disk. What the operations promise of the entries is
/// said of the database as this handle sees it, and holds between two calls as
/// long as nothing else writes to the database in the meantime.
pub struct DiskCache {
    seconds: Option<u64>,
    sync_to_disk_on_cache_change: bool,
    version: u64,
    path: PathBuf,
    connection: sled::Db,
}

impl DiskCache {
    /// The time-to-live, in seconds, by which reads judge entries.
    pub closed spec fn ttl_seconds(&self) -> Option<u64> {
        self.seconds
    }

    /// Whether each change is flushed to disk at once.
    pub closed spec fn syncs_on_change(&self) -> bool {
        self.sync_to_disk_on_cache_change
    }

    /// The version of the on-disk format.
    pub closed spec fn format_version(&self) -> u64 {
        self.version
    }

    /// The bytes that the database holds under each key.
    pub closed spec fn slots(&self) -> Map<Seq<u8>, Seq<u8>> {
        db_entries(self.connection)
    }

    /// Whether every change that was made through the cache has reached the
    /// disk, so that it is there again after a crash.
    pub closed spec fn is_synced(&self) -> bool {
        db_synced(self.connection)
    }

    /// The file that the cache was opened at.
    pub closed spec fn location(&self) -> PathBuf {
        self.path
    }

    /// The path that the database behind the cache was opened at.
    pub closed spec fn opened_at(&self) -> PathBuf {
        db_path(self.connection)
    }

    /// Whether `other` is this cache with, possibly, other entries.
    pub open spec fn same_settings(&self, other: &DiskCache) -> bool {
        &&& self.ttl_seconds() == other.ttl_seconds()
        &&& self.syncs_on_change() == other.syncs_on_change()
        &&& self.format_version() == other.format_version()
        &&& self.location() == other.location()
        &&& self.opened_at() == other.opened_at()
    }
}

impl View for DiskCache {
    type V = Map<Seq<u8>, EnvelopeView>;

    /// The envelopes that the cache holds, by key.
    open spec fn view(&self) -> Map<Seq<u8>, EnvelopeView> {
        held(self.slots())
    }
}

impl DiskCache {
    /// A builder for the cache `cache_name`.
    pub fn new(cache_name: &str) -> (b: DiskCacheBuilder)
        ensures
            b.seconds is None,
            !b.sync_to_disk_on_cache_change,
            b.dir is None,
            b.cache_name@ == cache_name@,
            b.connection_config is None,
    {
        DiskCacheBuilder::new(cache_name)
    }

    /// The database behind the cache, for example to flush it by hand.
    pub fn connection(&self) -> (db: &sled::Db)
        ensures
            db_entries(*db) == self.slots(),
            db_path(*db) == self.opened_at(),
    {
        &self.connection
    }

    /// The database behind the cache, to change it. The cache then holds
    /// whatever the caller leaves in it.
    pub fn connection_mut(&mut self) -> (db: &mut sled::Db)
        ensures
            db_entries(*db) == old(self).slots(),
            db_path(*db) == old(self).opened_at(),
            final(self).slots() == db_entries(*final(db)),
            final(self).opened_at() == db_path(*final(db)),
            final(self).ttl_seconds() == old(self).ttl_seconds(),
            final(self).syncs_on_change() == old(self).syncs_on_change(),
            final(self).format_version() == old(self).format_version(),
            final(self).location() == old(self).location(),
    {
        &mut self.connection
    }

    /// What a read of `key` at `now` returns and leaves behind.
    pub open spec fn read_at(
        &self,
        after: &DiskCache,
        key: Seq<char>,
        now: Timestamp,
        r: Result<Option<Vec<u8>>, DiskCacheError>,
    ) -> bool {
        &&& after.same_settings(self)
        &&& match r {
            Ok(value) => {
                &&& bytes_of(value) == live_value(
                    lookup(self.slots(), slot(key)),
                    self.ttl_seconds(),
                    now,
                )
                &&& bytes_of(value) == found(self@, slot(key), self.ttl_seconds(), now)
                &&& after.slots() == put(
                    self.slots(),
                    slot(key),
                    kept_on_read(lookup(self.slots(), slot(key)), self.ttl_seconds(), now),
                )
                &&& after@ == after_get(self@, slot(key), self.ttl_seconds(), now)
            },
            Err(e) => e is StorageError,
        }
    }

    /// Reads the value under `key` as of `now`. An entry that has outlived the
    /// time-to-live is cleared in the same atomic step and reads as absent.
    /// Bytes that are no envelope read as absent too; they are cleared where
    /// there is a time-to-live and stay where there is none. The only error is
    /// the database's, and after it nothing is known of the entries.
    pub fn get_at(&mut self, key: &str, now: Timestamp) -> (r: Result<
        Option<Vec<u8>>,
        DiskCacheError,
    >)
        ensures
            old(self).read_at(final(self), key@, now, r),
    {
        proof {
            lemma_live_is_found(self.slots(), slot(key@), self.ttl_seconds(), now);
            lemma_read_keeps(self.slots(), slot(key@), self.ttl_seconds(), now);
        }
        let kept = match db_refresh(&mut self.connection, key.as_bytes(), self.seconds, now) {
            Ok(kept) => kept,
            Err(e) => { return Err(DiskCacheError::StorageError(e)); },
        };
        match kept {
            None => Ok(None),
            Some(data) => match decode_entry(data.as_slice()) {
                Ok(entry) => Ok(Some(entry.value)),
                Err(_) => Ok(None),
            },
        }
    }

    /// The value of an envelope at `now`: nothing once it has expired.
    pub fn check_expiration(&self, kash: KashDiskValue, now: Timestamp) -> (r: Option<Vec<u8>>)
        ensures
            bytes_of(r) == (if expired(kash@.created_at, self.ttl_seconds(), now) {
                None
            } else {
                Some(kash@.value)
            }),
    {
        if kash.is_expired(self.seconds, now) {
            None
        } else {
            Some(kash.value)
        }
    }

    /// The value that replaced or removed bytes stood for at `now`.
    fn previous_value(&self, prev: Option<Vec<u8>>, now: Timestamp) -> (r: Option<Vec<u8>>)
        ensures
            bytes_of(r) == live_value(bytes_of(prev), self.ttl_seconds(), now),
    {
        match prev {
            None => None,
            Some(data) => match decode_entry(data.as_slice()) {
                Ok(entry) => self.check_expiration(entry, now),
                Err(_) => None,
            },
        }
    }

    /// Flushes the database where the cache is set to do so on each change:
    /// the changes made so far are then on disk, or the flush has failed. A
    /// cache that is not set to do so is left alone, and that cannot fail.
    fn sync_if_asked(&mut self) -> (r: Result<(), DiskCacheError>)
        ensures
            final(self).same_settings(old(self)),
            final(self).slots() == old(self).slots(),
            !old(self).syncs_on_change() ==> r is Ok && *final(self) == *old(self),
            match r {
                Ok(()) => old(self).syncs_on_change() ==> final(self).is_synced(),
                Err(e) => e is StorageError,
            },
    {
        if self.sync_to_disk_on_cache_change {
            match db_flush(&mut self.connection) {
                Ok(_) => Ok(()),
                Err(e) => Err(DiskCacheError::StorageError(e)),
            }
        } else {
            Ok(())
        }
    }

    /// What a write of `value` under `key` at `now` returns and leaves behind.
    pub open spec fn written_at(
        &self,
        after: &DiskCache,
        key: Seq<char>,
        value: Seq<u8>,
        now: Timestamp,
        r: Result<Option<Vec<u8>>, DiskCacheError>,
    ) -> bool {
        &&& after.same_settings(self)
        &&& match r {
            Ok(prev) => {
                &&& bytes_of(prev) == live_value(
                    lookup(self.slots(), slot(key)),
                    self.ttl_seconds(),
                    now,
                )
                &&& bytes_of(prev) == found(self@, slot(key), self.ttl_seconds(), now)
                &&& after.slots() == self.slots().insert(slot(key), encoded(fresh(value, now)))
                &&& fits(value) ==> after@ == after_set(self@, slot(key), value, now)
                &&& self.syncs_on_change() ==> after.is_synced()
            },
            Err(DiskCacheError::CacheSerializationError(e)) => e is Pack && after.slots()
                == self.slots(),
            Err(e) => e is StorageError,
        }
    }

    /// Writes `value` under `key` in a fresh envelope made at `now`, and
    /// returns the value that was there before, unless it had expired or was
    /// no envelope. Where the envelope cannot be written nothing changes.
    pub fn set_at(&mut self, key: &str, value: Vec<u8>, now: Timestamp) -> (r: Result<
        Option<Vec<u8>>,
        DiskCacheError,
    >)
        ensures
            old(self).written_at(final(self), key@, value@, now, r),
    {
        proof {
            lemma_live_is_found(self.slots(), slot(key@), self.ttl_seconds(), now);
        }
        let bytes = match encode_entry(&value, now) {
            Ok(bytes) => bytes,
            Err(e) => { return Err(DiskCacheError::CacheSerializationError(e)); },
        };
        proof {
            if fits(value@) {
                lemma_insert_held(self.slots(), slot(key@), bytes@, fresh(value@, now));
            }
        }
        let prev = match db_insert(&mut self.connection, key.as_bytes(), bytes) {
            Ok(prev) => prev,
            Err(e) => { return Err(DiskCacheError::StorageError(e)); },
        };
        let result = self.previous_value(prev, now);
        match self.sync_if_asked() {
            Ok(()) => Ok(result),
            Err(e) => Err(e),
        }
    }

    /// What a removal of `key` at `now` returns and leaves behind.
    pub open spec fn removed_at(
        &self,
        after: &DiskCache,
        key: Seq<char>,
        now: Timestamp,
        r: Result<Option<Vec<u8>>, DiskCacheError>,
    ) -> bool {
        &&& after.same_settings(self)
        &&& match r {
            Ok(prev) => {
                &&& bytes_of(prev) == live_value(
                    lookup(self.slots(), slot(key)),
                    self.ttl_seconds(),
                    now,
                )
                &&& bytes_of(prev) == found(self@, slot(key), self.ttl_seconds(), now)
                &&& after.slots() == self.slots().remove(slot(key))
                &&& after@ == after_remove(self@, slot(key))
                &&& self.syncs_on_change() ==> after.is_synced()
            },
            Err(e) => e is StorageError,
        }
    }

    /// Clears `key` and returns the value that was there, unless it had
    /// expired at `now` or was no envelope. A key that is absent is no error.
    pub fn remove_at(&mut self, key: &str, now: Timestamp) -> (r: Result<
        Option<Vec<u8>>,
        DiskCacheError,
    >)
        ensures
            old(self).removed_at(final(self), key@, now, r),
    {
        proof {
            lemma_live_is_found(self.slots(), slot(key@), self.ttl_seconds(), now);
            lemma_remove_held(self.slots(), slot(key@));
        }
        let prev = match db_remove(&mut self.connection, key.as_bytes()) {
            Ok(prev) => prev,
            Err(e) => { return Err(DiskCacheError::StorageError(e)); },
        };
        let result = self.previous_value(prev, now);
        match self.sync_if_asked() {
            Ok(()) => Ok(result),
            Err(e) => Err(e),
        }
    }

    /// What a sweep at `now` returns and leaves behind.
    pub open spec fn swept_at(
        &self,
        after: &DiskCache,
        now: Timestamp,
        r: Result<(), DiskCacheError>,
    ) -> bool {
        &&& after.same_settings(self)
        &&& match r {
            Ok(()) => {
                &&& after.slots() == swept(self.slots(), self.ttl_seconds(), now)
                &&& after@ == after_sweep(self@, self.ttl_seconds(), now)
                &&& self.syncs_on_change() ==> after.is_synced()
            },
            Err(e) => e is StorageError,
        }
    }

    /// Walks all entries and evicts those that have expired at `now`. Bytes
    /// that are no envelope stay.
    pub fn remove_expired_entries_at(&mut self, now: Timestamp) -> (r: Result<(), DiskCacheError>)
        ensures
            old(self).swept_at(final(self), now, r),
    {
        let ghost start = self.slots();
        let ghost ttl = self.ttl_seconds();
        let items = match db_scan(&self.connection) {
            Ok(items) => items,
            Err(e) => { return Err(DiskCacheError::StorageError(e)); },
        };
        let mut i: usize = 0;
        while i < items.len()
            invariant
                0 <= i <= items.len(),
                self.same_settings(old(self)),
                ttl == self.ttl_seconds(),
                forall|j: int|
                    0 <= j < items@.len() ==> start.contains_key(#[trigger] items@[j].0@)
                        && start[items@[j].0@] == items@[j].1@,
                forall|k: Seq<u8>|
                    #![trigger self.slots().contains_key(k)]
                    self.slots().contains_key(k) ==> start.contains_key(k) && self.slots()[k]
                        == start[k],
                forall|j: int|
                    0 <= j < i && doomed(items@[j].1@, ttl, now) ==> !self.slots().contains_key(
                        #[trigger] items@[j].0@,
                    ),
                forall|k: Seq<u8>|
                    #![trigger start.contains_key(k)]
                    start.contains_key(k) && !doomed(start[k], ttl, now)
                        ==> self.slots().contains_key(k),
            decreases items.len() - i,
        {
            let is_doomed = match decode_entry(items[i].1.as_slice()) {
                Ok(entry) => entry.is_expired(self.seconds, now),
                Err(_) => false,
            };
            if is_doomed {
                let ghost before = self.slots();
                match db_remove(&mut self.connection, items[i].0.as_slice()) {
                    Ok(_) => {},
                    Err(e) => { return Err(DiskCacheError::StorageError(e)); },
                }
                proof {
                    assert forall|k: Seq<u8>| self.slots().contains_key(k) implies before.contains_key(
                        k,
                    ) && self.slots()[k] == before[k] by {}
                }
            }
            i += 1;
        }
        proof {
            assert forall|k: Seq<u8>| start.contains_key(k) && doomed(start[k], ttl, now)
                implies !self.slots().contains_key(k) by {
                let j = choose|j: int| 0 <= j < items@.len() && #[trigger] items@[j].0@ == k;
                assert(items@[j].1@ == start[k]);
            }
            assert(self.slots() =~= swept(start, ttl, now));
            lemma_swept_held(start, ttl, now);
        }
        self.sync_if_asked()
    }

    /// The time-to-live, in seconds.
    pub fn time_to_live(&self) -> (r: Option<u64>)
        ensures
            r == self.ttl_seconds(),
    {
        self.seconds
    }

    /// Whether each change is flushed to disk at once.
    pub fn sync_to_disk_on_cache_change(&self) -> (r: bool)
        ensures
            r == self.syncs_on_change(),
    {
        self.sync_to_disk_on_cache_change
    }

    /// The file that the cache was opened at.
    pub fn path(&self) -> (r: &PathBuf)
        ensures
            *r == self.location(),
    {
        &self.path
    }
}

/// The time that reads go by: `now`, or the epoch where the clock stands
/// before it, so that no time has passed for any entry.
pub open spec fn time_or_epoch(now: Option<Timestamp>) -> Timestamp {
    match now {
        Some(now) => now,
        None => Timestamp { secs: 0, nanos: 0 },
    }
}

/// The time that reads go by where the clock says `now`.
pub fn or_epoch(now: Option<Timestamp>) -> (r: Timestamp)
    ensures
        r == time_or_epoch(now),
{
    match now {
        Some(now) => now,
        None => Timestamp { secs: 0, nanos: 0 },
    }
}

impl DiskCache {
    /// The time that reads go by: what `or_epoch` makes of the wall clock. It
    /// is whole seconds and the part of a second.
    fn clock(&self) -> (r: Timestamp)
        ensures
            r.is_normal(),
    {
        or_epoch(Timestamp::now())
    }

    /// Walks all entries and evicts those that have expired by the wall clock.
    /// Nothing runs this sweep unless the caller does.
    pub fn remove_expired_entries(&mut self) -> (r: Result<(), DiskCacheError>)
        ensures
            exists|now: Timestamp| now.is_normal() && old(self).swept_at(final(self), now, r),
    {
        let now = self.clock();
        let r = self.remove_expired_entries_at(now);
        assert(now.is_normal() && old(self).swept_at(self, now, r));
        r
    }
}

impl crate::IOKash<String, Vec<u8>> for DiskCache {
    type Error = DiskCacheError;

    open spec fn lifetime(&self) -> Option<u64> {
        self.ttl_seconds()
    }

    /// `get_at` by the wall clock.
    fn get(&mut self, key: &String) -> (r: Result<Option<Vec<u8>>, DiskCacheError>)
        ensures
            exists|now: Timestamp| now.is_normal() && old(self).read_at(final(self), key@, now, r),
    {
        let now = self.clock();
        let r = self.get_at(key.as_str(), now);
        assert(now.is_normal() && old(self).read_at(self, key@, now, r));
        r
    }

    /// `set_at` by the wall clock. A clock that stands before the epoch gives
    /// no time to record: the value is not written.
    fn set(&mut self, key: String, value: Vec<u8>) -> (r: Result<Option<Vec<u8>>, DiskCacheError>)
        ensures
            (exists|now: Timestamp|
                now.is_normal() && old(self).written_at(final(self), key@, value@, now, r)) || (r
                matches Err(DiskCacheError::CacheSerializationError(e)) && e is ClockBeforeEpoch
                && *final(self) == *old(self)),
    {
        match Timestamp::now() {
            Some(now) => {
                let r = self.set_at(key.as_str(), value, now);
                assert(now.is_normal() && old(self).written_at(self, key@, value@, now, r));
                r
            },
            None => Err(DiskCacheError::CacheSerializationError(EncodeError::ClockBeforeEpoch)),
        }
    }

    /// `remove_at` by the wall clock.
    fn remove(&mut self, key: &String) -> (r: Result<Option<Vec<u8>>, DiskCacheError>)
        ensures
            exists|now: Timestamp| now.is_normal() && old(self).removed_at(final(self), key@, now, r),
    {
        let now = self.clock();
        let r = self.remove_at(key.as_str(), now);
        assert(now.is_normal() && old(self).removed_at(self, key@, now, r));
        r
    }

    fn ttl(&self) -> (r: Option<u64>)
        ensures
            r == self.ttl_seconds(),
    {
        self.seconds
    }

    /// Sets the time-to-live and returns the old one. Entries stay; reads judge
    /// them by the new time-to-live from now on.
    fn set_ttl(&mut self, seconds: u64) -> (r: Option<u64>)
        ensures
            r == old(self).ttl_seconds(),
            final(self).ttl_seconds() == Some(seconds),
            final(self).slots() == old(self).slots(),
            final(self).syncs_on_change() == old(self).syncs_on_change(),
            final(self).format_version() == old(self).format_version(),
            final(self).location() == old(self).location(),
            final(self).opened_at() == old(self).opened_at(),
    {
        let previous = self.seconds;
        self.seconds = Some(seconds);
        previous
    }

    /// Removes the time-to-live and returns the old one. Entries stay, and
    /// none expires from now on.
    fn unset_ttl(&mut self) -> (r: Option<u64>)
        ensures
            r == old(self).ttl_seconds(),
            final(self).ttl_seconds() is None,
            final(self).slots() == old(self).slots(),
            final(self).syncs_on_change() == old(self).syncs_on_change(),
            final(self).format_version() == old(self).format_version(),
            final(self).location() == old(self).location(),
            final(self).opened_at() == old(self).opened_at(),
    {
        let previous = self.seconds;
        self.seconds = None;
        previous
    }
}

} // verus!
