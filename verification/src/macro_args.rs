//! The arguments that a cached function is declared with, and the rules they
//! must keep: which of them go together, which store they choose, and what a
//! function must return to be cached in a store that can fail.

use crate::trusted::text::{to_uppercase, uppercased};
use vstd::prelude::*;

verus! {

/// How a memory cache chooses what to evict when it is full.
#[derive(Clone, Copy, Debug, PartialEq, Eq, Structural)]
pub enum EvictionPolicy {
    /// Least frequently used. It suits most uses.
    Lfu,
    /// Least recently used.
    Lru,
}

impl Default for EvictionPolicy {
    fn default() -> (r: EvictionPolicy)
        ensures
            r == EvictionPolicy::Lfu,
    {
        EvictionPolicy::Lfu
    }
}

/// The arguments of a cache in redis.
#[derive(Clone, Debug)]
pub struct RedisArgs {
    /// An expression for the prefix of the keys. Without one the prefix is
    /// made of the cache's name.
    pub prefix_block: Option<String>,
}

/// The arguments of a cache on disk.
#[derive(Clone, Debug)]
pub struct DiskArgs {
    /// An expression for the database configuration.
    pub connection_config: Option<String>,
    /// Whether each change is flushed to disk at once.
    pub sync_to_disk_on_cache_change: bool,
    /// The directory of the cache.
    pub dir: Option<String>,
}

/// The arguments of a key that is not made of the function's arguments.
#[derive(Clone, Debug)]
pub struct KeyArgs {
    /// The type of the key.
    pub ty: String,
    /// An expression for the key.
    pub expr: String,
}

/// The arguments that a cached function is declared with.
#[derive(Clone, Debug)]
pub struct MacroArgs {
    /// The name of the cache. Without one it is the function's name in
    /// capitals.
    pub name: Option<String>,
    /// An expression for the time-to-live, in seconds.
    pub ttl: Option<String>,
    pub key: Option<KeyArgs>,
    /// Whether only `Ok` results are cached.
    pub result: bool,
    /// Whether only `Some` results are cached.
    pub option: bool,
    /// Whether the function stands in an `impl` block.
    pub in_impl: bool,
    /// An expression for the number of entries that a memory cache keeps.
    pub size: Option<String>,
    pub eviction_policy: Option<EvictionPolicy>,
    pub disk: Option<DiskArgs>,
    pub redis: Option<RedisArgs>,
}

/// What the rules read of a function's return type.
#[derive(Clone, Copy, Debug, PartialEq, Eq, Structural)]
pub enum ReturnShape {
    /// The function returns nothing.
    Unit,
    /// A path whose last segment has arguments in angle brackets, as
    /// `Result<T, E>` has.
    Generic,
    /// A path whose last segment has none.
    Plain,
    /// Anything that is not a path.
    Complex,
}

/// The store that a cache is kept in.
#[derive(Clone, Copy, Debug, PartialEq, Eq, Structural)]
pub enum StoreKind {
    Redis,
    Disk,
    Memory,
}

pub const DISK_AND_REDIS: &'static str = "`disk` and `redis` are mutually exclusive";

pub const RESULT_AND_OPTION: &'static str =
    "the `result` and `option` attributes are mutually exclusive";

pub const SIZE_NOT_SUPPORTED: &'static str =
    "`size` and `eviction_policy` are not supported for `disk` and `redis` caches";

pub const MUST_RETURN_RESULT_FOUND_UNIT: &'static str =
    "`disk` and `redis` caches must return `Result`, found \"()\"";

pub const MUST_RETURN_RESULT: &'static str = "`disk` and `redis` caches must return `Result`";

pub const TOO_COMPLEX: &'static str =
    "function return type too complex. `disk` and `redis` caches must return `Result`";

/// The characters of each message.
pub open spec fn texts(messages: Seq<String>) -> Seq<Seq<char>> {
    Seq::new(messages.len(), |i: int| messages[i]@)
}

/// Nothing, or the one message, as the condition holds.
pub open spec fn when(condition: bool, message: Seq<char>) -> Seq<Seq<char>> {
    if condition {
        seq![message]
    } else {
        Seq::empty()
    }
}

fn push_when(errors: &mut Vec<String>, condition: bool, message: &str)
    ensures
        texts(final(errors)@) == texts(old(errors)@) + when(condition, message@),
{
    if condition {
        errors.push(message.to_owned());
    }
    assert(texts(errors@) =~= texts(old(errors)@) + when(condition, message@));
}

impl MacroArgs {
    /// Whether the cache is kept in a store that is reached by I/O.
    pub open spec fn is_io(&self) -> bool {
        self.disk is Some || self.redis is Some
    }

    /// What is wrong with the arguments by themselves: a cache is not on disk
    /// and in redis at once, and not of `Ok` and of `Some` results at once.
    pub open spec fn init_errors(&self) -> Seq<Seq<char>> {
        when(self.disk is Some && self.redis is Some, DISK_AND_REDIS@) + when(
            self.result && self.option,
            RESULT_AND_OPTION@,
        )
    }

    /// What the return type of the function must be like for a cache in a
    /// store that can fail.
    pub open spec fn return_errors(output: ReturnShape) -> Seq<Seq<char>> {
        match output {
            ReturnShape::Unit => seq![MUST_RETURN_RESULT_FOUND_UNIT@],
            ReturnShape::Generic => Seq::empty(),
            ReturnShape::Plain => seq![MUST_RETURN_RESULT@],
            ReturnShape::Complex => seq![TOO_COMPLEX@],
        }
    }

    /// What is wrong with the arguments on a function of this return type. A
    /// cache in memory takes any function. One on disk or in redis has no size
    /// and no eviction policy, and its function returns a `Result`.
    pub open spec fn errors_on(&self, output: ReturnShape) -> Seq<Seq<char>> {
        if self.is_io() {
            when(self.size is Some || self.eviction_policy is Some, SIZE_NOT_SUPPORTED@)
                + Self::return_errors(output)
        } else {
            Seq::empty()
        }
    }

    /// The store that the arguments choose: redis where it is named, else the
    /// disk where it is named, else memory.
    pub open spec fn chosen_store(&self) -> StoreKind {
        if self.redis is Some {
            StoreKind::Redis
        } else if self.disk is Some {
            StoreKind::Disk
        } else {
            StoreKind::Memory
        }
    }

    /// Tests the arguments by themselves and hands them back where nothing is
    /// wrong; else all that is wrong, in order.
    pub fn init_validate(self) -> (r: Result<MacroArgs, Vec<String>>)
        ensures
            match r {
                Ok(args) => args == self && self.init_errors().len() == 0,
                Err(errors) => texts(errors@) == self.init_errors() && errors@.len() > 0,
            },
    {
        let mut errors: Vec<String> = Vec::new();
        assert(texts(errors@) =~= Seq::<Seq<char>>::empty());
        push_when(&mut errors, self.disk.is_some() && self.redis.is_some(), DISK_AND_REDIS);
        push_when(&mut errors, self.result && self.option, RESULT_AND_OPTION);
        assert(texts(errors@) =~= self.init_errors());
        if errors.len() == 0 {
            Ok(self)
        } else {
            Err(errors)
        }
    }

    /// Tests the arguments against the return type of the function that they
    /// are on; gives all that is wrong, in order.
    pub fn validate(&self, output: ReturnShape) -> (r: Result<(), Vec<String>>)
        ensures
            match r {
                Ok(()) => self.errors_on(output).len() == 0,
                Err(errors) => texts(errors@) == self.errors_on(output) && errors@.len() > 0,
            },
    {
        let mut errors: Vec<String> = Vec::new();
        assert(texts(errors@) =~= Seq::<Seq<char>>::empty());
        if self.disk.is_some() || self.redis.is_some() {
            push_when(
                &mut errors,
                self.size.is_some() || self.eviction_policy.is_some(),
                SIZE_NOT_SUPPORTED,
            );
            match output {
                ReturnShape::Unit => push_when(&mut errors, true, MUST_RETURN_RESULT_FOUND_UNIT),
                ReturnShape::Generic => {},
                ReturnShape::Plain => push_when(&mut errors, true, MUST_RETURN_RESULT),
                ReturnShape::Complex => push_when(&mut errors, true, TOO_COMPLEX),
            }
        }
        assert(texts(errors@) =~= self.errors_on(output));
        if errors.len() == 0 {
            Ok(())
        } else {
            Err(errors)
        }
    }

    /// The name of the cache of the function `fn_name`: the name that is
    /// given, else the function's, in capitals.
    pub fn cache_name(&self, fn_name: &str) -> (r: String)
        ensures
            r@ == uppercased(
                match self.name {
                    Some(name) => name@,
                    None => fn_name@,
                },
            ),
    {
        match &self.name {
            Some(name) => to_uppercase(name.as_str()),
            None => to_uppercase(fn_name),
        }
    }

    /// The store that the cache is kept in.
    pub fn store(&self) -> (r: StoreKind)
        ensures
            r == self.chosen_store(),
    {
        if self.redis.is_some() {
            StoreKind::Redis
        } else if self.disk.is_some() {
            StoreKind::Disk
        } else {
            StoreKind::Memory
        }
    }

    /// The eviction policy of a memory cache: the one that is named, else the
    /// default.
    pub fn policy(&self) -> (r: EvictionPolicy)
        ensures
            r == (match self.eviction_policy {
                Some(policy) => policy,
                None => EvictionPolicy::Lfu,
            }),
    {
        match self.eviction_policy {
            Some(policy) => policy,
            None => EvictionPolicy::Lfu,
        }
    }
}

} // verus!
