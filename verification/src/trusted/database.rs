//! What is taken on trust of `sled`, of paths and of the platform's
//! directories: what a database holds and how each operation changes it.

use crate::envelope::Timestamp;
use crate::stores::disk::keep_on_read;
use crate::stores::entries::{bytes_of, kept_on_read, lookup, put};
use std::path::PathBuf;
use vstd::prelude::*;

verus! {

/// `sled::Db`, a handle on a database. What it holds is `db_entries`.
#[verifier::external_type_specification]
#[verifier::external_body]
pub struct ExDb(sled::Db);

/// `sled::Error`, why the database failed. Nothing is read of it.
#[verifier::external_type_specification]
#[verifier::external_body]
pub struct ExSledError(sled::Error);

/// `sled::Config`, the settings that a database is opened with. Nothing is read of it.
#[verifier::external_type_specification]
#[verifier::external_body]
pub struct ExSledConfig(sled::Config);

/// `std::path::PathBuf`, a path in the file system. Nothing is read of it.
#[verifier::external_type_specification]
#[verifier::external_body]
pub struct ExPathBuf(PathBuf);

/// What a database holds: each key that is present, with the bytes stored
/// under it. This is the database as one handle sees it while nothing else
/// writes to it.
pub uninterp spec fn db_entries(db: sled::Db) -> Map<Seq<u8>, Seq<u8>>;

/// The path that a configuration names for its database. Sled opens the
/// database there; only a configuration that is marked temporary and names
/// sled's own default path is opened in a directory of sled's choosing.
pub uninterp spec fn config_path(config: sled::Config) -> PathBuf;

/// The path that a database was opened at: the one that its configuration
/// named. It stays the same for as long as the database is open.
pub uninterp spec fn db_path(db: sled::Db) -> PathBuf;

/// `sled::Tree::insert`: sets the key to the value and gives back what was
/// under the key before. Nothing is said of the entries after an error.
#[verifier::external_body]
pub(crate) fn db_insert(db: &mut sled::Db, key: &[u8], value: Vec<u8>) -> (r: Result<
    Option<Vec<u8>>,
    sled::Error,
>)
    ensures
        r matches Ok(prev) ==> bytes_of(prev) == lookup(db_entries(*old(db)), key@) && db_entries(
            *final(db),
        ) == db_entries(*old(db)).insert(key@, value@),
        db_path(*final(db)) == db_path(*old(db)),
{
    db.insert(key, value).map(|prev| prev.map(|bytes| bytes.to_vec()))
}

/// `sled::Tree::remove`: clears the key and gives back what was under it.
#[verifier::external_body]
pub(crate) fn db_remove(db: &mut sled::Db, key: &[u8]) -> (r: Result<Option<Vec<u8>>, sled::Error>)
    ensures
        r matches Ok(prev) ==> bytes_of(prev) == lookup(db_entries(*old(db)), key@) && db_entries(
            *final(db),
        ) == db_entries(*old(db)).remove(key@),
        db_path(*final(db)) == db_path(*old(db)),
{
    db.remove(key).map(|prev| prev.map(|bytes| bytes.to_vec()))
}

/// `sled::Tree::update_and_fetch` with `keep_on_read` as the update: in one
/// atomic step the slot under the key becomes what `keep_on_read` makes of it,
/// and that is what comes back.
#[verifier::external_body]
pub(crate) fn db_refresh(db: &mut sled::Db, key: &[u8], ttl: Option<u64>, now: Timestamp) -> (r: Result<
    Option<Vec<u8>>,
    sled::Error,
>)
    ensures
        r matches Ok(kept) ==> bytes_of(kept) == kept_on_read(
            lookup(db_entries(*old(db)), key@),
            ttl,
            now,
        ) && db_entries(*final(db)) == put(db_entries(*old(db)), key@, bytes_of(kept)),
        db_path(*final(db)) == db_path(*old(db)),
{
    db.update_and_fetch(key, |slot: Option<&[u8]>| keep_on_read(slot, ttl, now)).map(
        |kept| kept.map(|bytes| bytes.to_vec()),
    )
}

/// Whether every write that was made through the handle has reached the disk,
/// so that it is there again after a crash.
pub uninterp spec fn db_synced(db: sled::Db) -> bool;

/// `sled::Tree::flush`: writes what is pending to disk and waits until it is
/// there. The entries stay as they are. Where it succeeds, every write that
/// was made before is on disk.
#[verifier::external_body]
pub(crate) fn db_flush(db: &mut sled::Db) -> (r: Result<usize, sled::Error>)
    ensures
        db_entries(*final(db)) == db_entries(*old(db)),
        db_path(*final(db)) == db_path(*old(db)),
        r is Ok ==> db_synced(*final(db)),
{
    db.flush()
}

/// `sled::Tree::iter`, walked to its end or to its first error: every entry of
/// the database, each key once.
#[verifier::external_body]
pub(crate) fn db_scan(db: &sled::Db) -> (r: Result<Vec<(Vec<u8>, Vec<u8>)>, sled::Error>)
    ensures
        r matches Ok(items) ==> {
            &&& forall|i: int|
                0 <= i < items@.len() ==> db_entries(*db).contains_key(#[trigger] items@[i].0@)
                    && db_entries(*db)[items@[i].0@] == items@[i].1@
            &&& forall|k: Seq<u8>|
                #![trigger db_entries(*db).contains_key(k)]
                db_entries(*db).contains_key(k) ==> exists|i: int|
                    0 <= i < items@.len() && #[trigger] items@[i].0@ == k
        },
{
    db.iter().map(|item| item.map(|(k, v)| (k.to_vec(), v.to_vec()))).collect()
}

/// `directories::BaseDirs::new` and `cache_dir`: the platform's directory for
/// caches, if the platform names a home directory. It depends on the
/// environment, so nothing is promised of it.
#[verifier::external_body]
pub(crate) fn platform_cache_dir() -> Option<PathBuf> {
    directories::BaseDirs::new().map(|base| base.cache_dir().to_path_buf())
}

/// The path of `name` inside the directory `dir`.
pub uninterp spec fn joined(dir: PathBuf, name: Seq<char>) -> PathBuf;

/// `std::path::Path::join`: the path of `name` inside `dir`.
#[verifier::external_body]
pub(crate) fn path_join(dir: &PathBuf, name: &str) -> (r: PathBuf)
    ensures
        r == joined(*dir, name@),
{
    dir.join(name)
}

/// `sled::Config::new`.
#[verifier::external_body]
pub(crate) fn default_config() -> sled::Config {
    sled::Config::new()
}

/// `sled::Config::path`, on a copy of the configuration that nothing else
/// holds: sled does not let the path of a shared configuration be set. The
/// configuration that comes back names `path`, whatever it named before.
#[verifier::external_body]
pub(crate) fn config_at(config: sled::Config, path: &PathBuf) -> (r: sled::Config)
    ensures
        config_path(r) == *path,
{
    let keep = config.print_profile_on_drop;
    config.print_profile_on_drop(keep).path(path)
}

/// `sled::Config::open`: opens the database that the configuration names and
/// creates it where there is none. What it holds is what was on disk.
#[verifier::external_body]
pub(crate) fn open_db(config: &sled::Config) -> (r: Result<sled::Db, sled::Error>)
    ensures
        r matches Ok(db) ==> db_path(db) == config_path(*config),
{
    config.open()
}

} // verus!
