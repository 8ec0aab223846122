//! A cache of what was fetched, by code.
//!
//! An entry is served while its age, counted in whole seconds, is below the limit that the reader
//! gives. Instants are nanoseconds of a clock that does not run backwards.
use vstd::hash_map::StringHashMap;
use vstd::prelude::*;

verus! {

/// How long the details of a stock are served from the cache, in seconds.
pub const DETAIL_TTL: u64 = 60;

/// How long a money flow is served from the cache, in seconds.
pub const MONEY_FLOW_TTL: u64 = 300;

/// How long the minutes of a day are served from the cache, in seconds.
pub const MINUTE_TTL: u64 = 10;

/// How long a series of K-lines is served from the cache, in seconds.
pub const KLINE_TTL: u64 = 300;

/// What was fetched, and when it was stored.
pub struct CacheEntry<T> {
    data: T,
    timestamp: u128,
}

/// What was last fetched, by key.
#[verifier::reject_recursive_types(T)]
pub struct Cache<T> {
    entries: StringHashMap<CacheEntry<T>>,
}

/// The age at `now` of what was stored at `timestamp`, in whole seconds; none if the clock reads
/// earlier than that.
pub open spec fn age_in_seconds(timestamp: u128, now: u128) -> int {
    if now < timestamp {
        0
    } else {
        (now - timestamp) / 1_000_000_000
    }
}

/// Whether a cache with contents `m` serves `key` at `now` to a reader whose limit is `ttl` seconds.
pub open spec fn serves<T>(m: Map<Seq<char>, (T, u128)>, key: Seq<char>, now: u128, ttl: u64) -> bool {
    m.dom().contains(key) && age_in_seconds(m[key].1, now) < ttl
}

impl<T> Cache<T> {
    /// The contents: for each key, what was stored and when.
    pub closed spec fn view(&self) -> Map<Seq<char>, (T, u128)> {
        self.entries@.map_values(|entry: CacheEntry<T>| (entry.data, entry.timestamp))
    }

    /// An empty cache.
    pub fn new() -> (r: Cache<T>)
        ensures
            r@ == Map::<Seq<char>, (T, u128)>::empty(),
    {
        let r = Cache { entries: StringHashMap::new() };
        assert(r@ =~= Map::<Seq<char>, (T, u128)>::empty());
        r
    }

    /// What is stored under a key, if it is still to be served.
    pub fn get(&self, key: &str, now: u128, ttl: u64) -> (r: Option<&T>)
        ensures
            match r {
                Some(data) => serves(self@, key@, now, ttl) && *data == self@[key@].0,
                None => !serves(self@, key@, now, ttl),
            },
    {
        match self.entries.get(key) {
            Some(entry) => {
                let age: u128 = if now < entry.timestamp {
                    0
                } else {
                    (now - entry.timestamp) / 1_000_000_000
                };
                if age < ttl as u128 {
                    Some(&entry.data)
                } else {
                    None
                }
            },
            None => None,
        }
    }

    /// Stores what was fetched for a key, in place of what was there.
    pub fn insert(&mut self, key: &str, data: T, now: u128)
        ensures
            final(self)@ == old(self)@.insert(key@, (data, now)),
    {
        self.entries.insert(key.to_owned(), CacheEntry { data, timestamp: now });
        assert(self@ =~= old(self)@.insert(key@, (data, now)));
    }
}

// ---------------------------------------------------------------------------------------------
// Laws
// ---------------------------------------------------------------------------------------------

/// What was stored is given back until its age reaches the limit, and not from then on; what is
/// stored under another key is left as it was.
pub proof fn law_cache_gives_back<T>(
    m: Map<Seq<char>, (T, u128)>,
    key: Seq<char>,
    data: T,
    stored: u128,
    now: u128,
    ttl: u64,
)
    requires
        stored <= now,
    ensures
        serves(m.insert(key, (data, stored)), key, now, ttl) <==> now - stored < ttl * 1_000_000_000,
        m.insert(key, (data, stored))[key].0 == data,
        forall|other: Seq<char>|
            other != key ==> (#[trigger] serves(m.insert(key, (data, stored)), other, now, ttl) == serves(
                m,
                other,
                now,
                ttl,
            )),
{
    assert((now - stored) / 1_000_000_000 < ttl <==> now - stored < ttl * 1_000_000_000) by (nonlinear_arith)
        requires
            stored <= now,
    ;
}

} // verus!
