//! The key codec: how a caller's key becomes the key that a backend sees.

use vstd::prelude::*;

verus! {

/// The external key of `key` under a namespace and a prefix: the three, one
/// after the other, with nothing put between them.
pub open spec fn rendered(namespace: Seq<char>, prefix: Seq<char>, key: Seq<char>) -> Seq<char> {
    namespace + prefix + key
}

/// What the default prefix of a cache begins with, before the cache's name.
pub const PREFIX_ROOT: &'static str = "kash::";

/// The prefix of the cache `cache_name` where the caller gives none.
pub open spec fn default_prefix_of(cache_name: Seq<char>) -> Seq<char> {
    PREFIX_ROOT@ + cache_name
}

/// The prefix that the cache `cache_name` gets where the caller gives none.
/// Two caches of one name get one prefix, and share their entries on a shared
/// backend.
pub fn default_prefix(cache_name: &str) -> (r: String)
    ensures
        r@ == default_prefix_of(cache_name@),
{
    let mut r = PREFIX_ROOT.to_owned();
    r.append(cache_name);
    r
}

/// Renders the external key of `key`.
pub fn render(namespace: &str, prefix: &str, key: &str) -> (r: String)
    ensures
        r@ == rendered(namespace@, prefix@, key@),
{
    let mut r = namespace.to_owned();
    r.append(prefix);
    r.append(key);
    r
}

/// What stands before the key in an external key.
pub open spec fn key_space(namespace: Seq<char>, prefix: Seq<char>) -> Seq<char> {
    namespace + prefix
}

/// Two stores on one backend never meet in a key when neither store's
/// namespace and prefix, taken together, begin the other's. Nothing is put
/// after the prefix, so where one does begin the other the stores can meet.
pub proof fn lemma_namespace_isolation(
    namespace1: Seq<char>,
    prefix1: Seq<char>,
    key1: Seq<char>,
    namespace2: Seq<char>,
    prefix2: Seq<char>,
    key2: Seq<char>,
)
    requires
        !key_space(namespace1, prefix1).is_prefix_of(key_space(namespace2, prefix2)),
        !key_space(namespace2, prefix2).is_prefix_of(key_space(namespace1, prefix1)),
    ensures
        rendered(namespace1, prefix1, key1) != rendered(namespace2, prefix2, key2),
{
    let a = key_space(namespace1, prefix1);
    let b = key_space(namespace2, prefix2);
    if rendered(namespace1, prefix1, key1) == rendered(namespace2, prefix2, key2) {
        assert(a + key1 == b + key2);
        if a.len() <= b.len() {
            assert((a + key1).subrange(0, a.len() as int) =~= a);
            assert((b + key2).subrange(0, a.len() as int) =~= b.subrange(0, a.len() as int));
            assert(a.is_prefix_of(b));
        } else {
            assert((b + key2).subrange(0, b.len() as int) =~= b);
            assert((a + key1).subrange(0, b.len() as int) =~= a.subrange(0, b.len() as int));
            assert(b.is_prefix_of(a));
        }
    }
}

/// Where one store's namespace and prefix begin the other's, there are keys
/// under which the two stores meet.
pub proof fn lemma_shared_key_space_collides(
    namespace1: Seq<char>,
    prefix1: Seq<char>,
    namespace2: Seq<char>,
    prefix2: Seq<char>,
)
    requires
        key_space(namespace1, prefix1).is_prefix_of(key_space(namespace2, prefix2)),
    ensures
        exists|key1: Seq<char>, key2: Seq<char>|
            rendered(namespace1, prefix1, key1) == rendered(namespace2, prefix2, key2),
{
    let a = key_space(namespace1, prefix1);
    let b = key_space(namespace2, prefix2);
    let key1 = b.skip(a.len() as int);
    let key2 = Seq::<char>::empty();
    assert(a + key1 =~= b + key2);
    assert(rendered(namespace1, prefix1, key1) == rendered(namespace2, prefix2, key2));
}

/// Under one namespace and prefix, different keys have different external
/// keys.
pub proof fn lemma_render_is_injective(
    namespace: Seq<char>,
    prefix: Seq<char>,
    key1: Seq<char>,
    key2: Seq<char>,
)
    requires
        key1 != key2,
    ensures
        rendered(namespace, prefix, key1) != rendered(namespace, prefix, key2),
{
    let a = key_space(namespace, prefix);
    if rendered(namespace, prefix, key1) == rendered(namespace, prefix, key2) {
        assert((a + key1).skip(a.len() as int) =~= key1);
        assert((a + key2).skip(a.len() as int) =~= key2);
    }
}

} // verus!
