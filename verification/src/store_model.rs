//! A mathematical model of the expiring key/value store the service
//! writes to: a map from key to value and expiry instant. The store
//! itself is an external collaborator; this model states the
//! behaviour the pipeline relies on — time-to-live visibility,
//! last-writer-wins overwrites, and the namespace-wide purge — and
//! the laws below prove the cache-aside round trip over it.

use vstd::prelude::*;
use crate::keys::cache_prefix;
use crate::keys::has_cache_prefix;
use crate::keys::percent_encode;

verus! {

/// One stored entry: its value and the instant it expires.
pub ghost struct StoreEntry {
    pub value: Seq<char>,
    pub expires_at: int,
}

/// The whole store: every live or expired entry by key.
pub type StoreModel = Map<Seq<char>, StoreEntry>;

/// A lookup at instant `now`: the value if the key holds an entry
/// that has not yet expired; absent otherwise. Never-written and
/// expired entries are not distinguished — both are a miss.
pub open spec fn store_get(store: StoreModel, key: Seq<char>, now: int) -> Option<Seq<char>> {
    if store.dom().contains(key) && now < store[key].expires_at {
        Some(store[key].value)
    } else {
        None
    }
}

/// A write at instant `now` with a time-to-live: the entry is
/// replaced unconditionally and expires `ttl` later.
pub open spec fn store_set(
    store: StoreModel,
    key: Seq<char>,
    value: Seq<char>,
    now: int,
    ttl: int,
) -> StoreModel {
    store.insert(key, StoreEntry { value, expires_at: now + ttl })
}

/// The namespace-wide purge: every key bearing this service's
/// namespace token is removed; every other key is untouched.
pub open spec fn store_clear_namespace(store: StoreModel) -> StoreModel {
    Map::new(
        |key: Seq<char>| store.dom().contains(key) && !has_cache_prefix(key),
        |key: Seq<char>| store[key],
    )
}

/// Cache-aside round trip for the key derived from an upstream URL:
/// once a successful miss-then-fetch cycle has written `content` with
/// time-to-live `ttl`, a lookup of the same URL before the entry
/// expires returns exactly that content; a lookup after `ttl` has
/// elapsed — or after a namespace purge — is a miss again.
pub proof fn lemma_cache_aside_round_trip(
    store: StoreModel,
    url_bytes: Seq<u8>,
    content: Seq<char>,
    t_write: int,
    ttl: int,
    t_read: int,
)
    requires
        t_write <= t_read,
    ensures
        ({
            let key = cache_prefix() + percent_encode(url_bytes);
            let populated = store_set(store, key, content, t_write, ttl);
            &&& t_read < t_write + ttl ==> store_get(populated, key, t_read) == Some(content)
            &&& t_read >= t_write + ttl ==> store_get(populated, key, t_read) is None
            &&& store_get(store_clear_namespace(populated), key, t_read) is None
        }),
{
    let key = cache_prefix() + percent_encode(url_bytes);
    crate::keys::lemma_cache_key_in_namespace(key, url_bytes);
}

/// The purge removes only this service's entries: a key outside the
/// namespace reads the same before and after, at every instant, and
/// everything that survives the purge was in the store and lies
/// outside the namespace.
pub proof fn lemma_clear_spares_unrelated_keys(store: StoreModel, key: Seq<char>, now: int)
    requires
        !has_cache_prefix(key),
    ensures
        store_get(store_clear_namespace(store), key, now) == store_get(store, key, now),
        forall|k: Seq<char>| #[trigger]
            store_clear_namespace(store).dom().contains(k) ==> store.dom().contains(k)
                && !has_cache_prefix(k),
{
}

/// For one key the last writer wins: two writes in a row leave
/// exactly the state of the second, with nothing merged.
pub proof fn lemma_last_writer_wins(
    store: StoreModel,
    key: Seq<char>,
    v1: Seq<char>,
    v2: Seq<char>,
    t1: int,
    t2: int,
    ttl: int,
)
    ensures
        store_set(store_set(store, key, v1, t1, ttl), key, v2, t2, ttl) == store_set(
            store,
            key,
            v2,
            t2,
            ttl,
        ),
{
    assert(store_set(store_set(store, key, v1, t1, ttl), key, v2, t2, ttl) =~= store_set(
        store,
        key,
        v2,
        t2,
        ttl,
    ));
}

} // verus!
