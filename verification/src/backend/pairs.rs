//! The colour pairs of the terminal, and which colour each is bound to.
//!
//! The curses library draws in colour pairs, and a terminal has 256 of them
//! at most. Pair 0 is the terminal's own foreground and background and is
//! never rebound. Every other pair is bound when a colour is first asked
//! for, and found again under that colour's palette slot.
//!
//! Once every pair is bound, a new colour takes the pair of the highest
//! index from the colour that had it. Nothing is kept of how lately a pair
//! was used: a run of new colours rebinds that one pair again and again, and
//! what was drawn in it changes colour with it.

use std::collections::HashMap;
use vstd::prelude::*;

verus! {

broadcast use vstd::std_specs::hash::group_hash_axioms;

/// How many colour pairs there are, the reserved one included.
pub const MAX_PAIRS: usize = 256;

/// The key that the reserved pair is found under: the default colour.
pub const DEFAULT_KEY: i16 = -1;

/// What holds of the keys of a cache, listed by the index of their pair: the
/// reserved pair comes first, there are no more pairs than the terminal has,
/// and no key has two pairs.
pub open spec fn valid_keys(keys: Seq<i16>) -> bool {
    &&& 1 <= keys.len() <= MAX_PAIRS
    &&& keys[0] == DEFAULT_KEY
    &&& keys.no_duplicates()
}

/// The index of the pair that a request for `key` is answered with.
///
/// A key that has a pair keeps it. A new key gets the next index while there
/// is one, and the highest index once there is none.
pub open spec fn index_after(keys: Seq<i16>, key: i16) -> int {
    if keys.contains(key) {
        keys.index_of(key)
    } else if keys.len() < MAX_PAIRS {
        keys.len() as int
    } else {
        MAX_PAIRS - 1
    }
}

/// The keys of the cache after a request for `key`.
///
/// A new key is added while there is room. Once there is none it takes the
/// pair of the highest index from the key that had it.
pub open spec fn keys_after(keys: Seq<i16>, key: i16) -> Seq<i16> {
    if keys.contains(key) {
        keys
    } else if keys.len() < MAX_PAIRS {
        keys.push(key)
    } else {
        keys.update(MAX_PAIRS - 1, key)
    }
}

/// The cache of colour pairs.
pub struct ColorPairCache {
    keys: Vec<i16>,
    indices: HashMap<i16, i32>,
}

impl View for ColorPairCache {
    type V = Seq<i16>;

    /// The key of each pair, by the index of the pair.
    closed spec fn view(&self) -> Seq<i16> {
        self.keys@
    }
}

impl ColorPairCache {
    /// Whether the cache is in order: its keys are valid, and each is found
    /// under the index of its pair.
    pub closed spec fn wf(&self) -> bool {
        &&& valid_keys(self.keys@)
        &&& forall|i: int|
            0 <= i < self.keys@.len() ==> self.indices@.contains_key(#[trigger] self.keys@[i])
                && self.indices@[self.keys@[i]] == i
        &&& forall|k: i16| #[trigger]
            self.indices@.contains_key(k) ==> 0 <= self.indices@[k] < self.keys@.len()
                && self.keys@[self.indices@[k] as int] == k
    }

    /// A cache that holds the reserved pair alone.
    pub fn new() -> (cache: ColorPairCache)
        ensures
            cache.wf(),
            cache@ == seq![DEFAULT_KEY],
    {
        let mut keys: Vec<i16> = Vec::new();
        keys.push(DEFAULT_KEY);
        let mut indices: HashMap<i16, i32> = HashMap::new();
        indices.insert(DEFAULT_KEY, 0);
        ColorPairCache { keys, indices }
    }

    /// The number of pairs that are bound, the reserved one included.
    pub fn len(&self) -> (n: usize)
        requires
            self.wf(),
        ensures
            n == self@.len(),
            valid_keys(self@),
    {
        self.keys.len()
    }

    /// The index of the pair of `key`, if it has one.
    pub fn get(&self, key: i16) -> (index: Option<i32>)
        requires
            self.wf(),
        ensures
            valid_keys(self@),
            match index {
                Some(index) => 0 <= index < self@.len() && self@[index as int] == key,
                None => !self@.contains(key),
            },
    {
        match self.indices.get(&key) {
            Some(index) => Some(*index),
            None => None,
        }
    }

    /// Makes an index free for a new key and returns it: the next one while
    /// there is one, else the highest, taken from the key that had it.
    pub fn new_color_pair_index(&mut self) -> (index: i32)
        requires
            old(self).wf(),
        ensures
            final(self).wf(),
            final(self)@.len() < MAX_PAIRS,
            old(self)@.len() < MAX_PAIRS ==> final(self)@ == old(self)@ && index == old(self)@.len(),
            old(self)@.len() >= MAX_PAIRS ==> final(self)@ == old(self)@.drop_last() && index
                == MAX_PAIRS - 1,
    {
        let n = self.keys.len();
        if n < MAX_PAIRS {
            n as i32
        } else {
            let last = self.keys[n - 1];
            self.keys.pop();
            self.indices.remove(&last);
            (n - 1) as i32
        }
    }

    /// The index of the pair of `key`, and whether the pair was bound to the
    /// key by this call and has yet to be given its colours.
    pub fn get_or_insert(&mut self, key: i16) -> (pair: (i32, bool))
        requires
            old(self).wf(),
        ensures
            final(self).wf(),
            final(self)@ == keys_after(old(self)@, key),
            pair.0 == index_after(old(self)@, key),
            pair.1 == !old(self)@.contains(key),
            0 <= pair.0 < final(self)@.len(),
            final(self)@[pair.0 as int] == key,
    {
        match self.get(key) {
            Some(index) => (index, false),
            None => {
                let index = self.new_color_pair_index();
                self.keys.push(key);
                self.indices.insert(key, index);
                (index, true)
            },
        }
    }
}

/// The keys of the cache after one request for each key of `requests`, in
/// their order.
pub open spec fn keys_after_all(keys: Seq<i16>, requests: Seq<i16>) -> Seq<i16>
    decreases requests.len(),
{
    if requests.len() == 0 {
        keys
    } else {
        keys_after(keys_after_all(keys, requests.drop_last()), requests.last())
    }
}

/// A request leaves the cache valid and is answered with the index of a pair
/// that is then bound to the key.
pub proof fn lemma_request_binds(keys: Seq<i16>, key: i16)
    requires
        valid_keys(keys),
    ensures
        valid_keys(keys_after(keys, key)),
        0 <= index_after(keys, key) < keys_after(keys, key).len(),
        keys_after(keys, key)[index_after(keys, key)] == key,
        keys_after(keys, key)[0] == DEFAULT_KEY,
{
}

/// Two requests for one key in a row are answered with the same pair, and
/// the second changes nothing.
pub proof fn lemma_same_key_same_pair(keys: Seq<i16>, key: i16)
    requires
        valid_keys(keys),
    ensures
        index_after(keys_after(keys, key), key) == index_after(keys, key),
        keys_after(keys_after(keys, key), key) == keys_after(keys, key),
{
    lemma_request_binds(keys, key);
    assert(keys_after(keys, key).contains(key));
}

/// No request is answered with an index beyond the highest, and a full cache
/// answers a request for a new key with the highest and stays as large as it
/// is.
pub proof fn lemma_full_cache_reuses_highest(keys: Seq<i16>, key: i16)
    requires
        valid_keys(keys),
    ensures
        index_after(keys, key) <= MAX_PAIRS - 1,
        keys_after(keys, key).len() <= MAX_PAIRS,
        keys.len() == MAX_PAIRS && !keys.contains(key) ==> index_after(keys, key) == MAX_PAIRS - 1
            && keys_after(keys, key).len() == MAX_PAIRS,
{
    lemma_request_binds(keys, key);
}

/// Of requests for keys that all differ, made of a cache that holds the
/// reserved pair alone, the first is answered with pair 1, the second with
/// pair 2, and so on up to the 255th; every later one is answered with pair
/// 255 again.
pub proof fn lemma_distinct_requests(requests: Seq<i16>, n: int)
    requires
        requests.no_duplicates(),
        !requests.contains(DEFAULT_KEY),
        0 <= n < requests.len(),
    ensures
        index_after(keys_after_all(seq![DEFAULT_KEY], requests.take(n)), requests[n]) == if n + 1
            < MAX_PAIRS {
            n + 1
        } else {
            MAX_PAIRS - 1
        },
{
    lemma_distinct_prefix(requests, n);
    let keys = keys_after_all(seq![DEFAULT_KEY], requests.take(n));
    if keys.contains(requests[n]) {
        lemma_not_yet_requested(requests, n, keys[keys.index_of(requests[n])]);
    }
}

/// The reserved key and the keys of the first `n` of requests that all
/// differ are none of them the key of the next request.
proof fn lemma_not_yet_requested(requests: Seq<i16>, n: int, key: i16)
    requires
        requests.no_duplicates(),
        !requests.contains(DEFAULT_KEY),
        0 <= n < requests.len(),
        key == DEFAULT_KEY || requests.take(n).contains(key),
    ensures
        key != requests[n],
{
    if key == requests[n] {
        let earlier = requests.take(n);
        if earlier.contains(key) {
            let j = earlier.index_of(key);
            assert(requests[j] == requests[n]);
        } else {
            assert(requests.contains(DEFAULT_KEY));
        }
    }
}

/// After the first `n` of requests that all differ the cache is valid, holds
/// a pair for each of them while there is room, and no key but theirs and
/// the reserved one.
proof fn lemma_distinct_prefix(requests: Seq<i16>, n: int)
    requires
        requests.no_duplicates(),
        !requests.contains(DEFAULT_KEY),
        0 <= n <= requests.len(),
    ensures
        valid_keys(keys_after_all(seq![DEFAULT_KEY], requests.take(n))),
        keys_after_all(seq![DEFAULT_KEY], requests.take(n)).len() == if n + 1 < MAX_PAIRS {
            n + 1
        } else {
            MAX_PAIRS as int
        },
        forall|i: int|
            0 <= i < keys_after_all(seq![DEFAULT_KEY], requests.take(n)).len() ==> {
                let key = #[trigger] keys_after_all(seq![DEFAULT_KEY], requests.take(n))[i];
                key == DEFAULT_KEY || requests.take(n).contains(key)
            },
    decreases n,
{
    let start = seq![DEFAULT_KEY];
    if n > 0 {
        lemma_distinct_prefix(requests, n - 1);
        let before = keys_after_all(start, requests.take(n - 1));
        let key = requests[n - 1];
        assert(requests.take(n).drop_last() == requests.take(n - 1));
        let after = keys_after_all(start, requests.take(n));
        lemma_request_binds(before, key);
        if before.contains(key) {
            lemma_not_yet_requested(requests, n - 1, before[before.index_of(key)]);
        }
        assert forall|i: int| 0 <= i < after.len() implies {
            let k = #[trigger] after[i];
            k == DEFAULT_KEY || requests.take(n).contains(k)
        } by {
            let k = after[i];
            if k == key {
                assert(requests.take(n)[n - 1] == key);
            } else if k != DEFAULT_KEY {
                let earlier = requests.take(n - 1);
                let j = earlier.index_of(k);
                assert(requests.take(n)[j] == k);
            }
        }
    }
}

} // verus!
