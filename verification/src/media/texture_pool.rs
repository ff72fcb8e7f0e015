//! A pool of textures for reuse: textures that are given back are kept by
//! size and format for a while and handed out again before new ones are
//! made.

use vstd::prelude::*;

verus! {

/// What textures must share to stand in for each other.
#[derive(Debug, Clone, Copy, PartialEq, Eq, Structural, Hash)]
pub struct PoolKey {
    /// Width in pixels.
    pub width: u32,
    /// Height in pixels.
    pub height: u32,
    /// Code of the pixel format.
    pub format: u32,
}

/// A texture in the pool.
pub struct PoolEntry<T> {
    /// The texture.
    pub texture: T,
    /// When it was given back, in nanoseconds on the caller's clock.
    pub last_used: u64,
}

/// The textures kept for one key.
struct Bucket<T> {
    key: PoolKey,
    entries: Vec<PoolEntry<T>>,
}

/// A pool of textures of type `T`.
pub struct BgaTexturePool<T> {
    /// The textures kept, by key; no key stands twice.
    buckets: Vec<Bucket<T>>,
    /// Most textures kept for one key.
    max_per_size: usize,
    /// Time after which a texture that was not used is given up, in
    /// nanoseconds.
    expire_after: u64,
}

/// Whether a texture given back at `last_used` is still kept at `now`.
pub open spec fn is_fresh(last_used: u64, now: u64, expire_after: u64) -> bool {
    (if now >= last_used {
        now - last_used
    } else {
        0
    }) < expire_after
}

/// The entries that are still kept at `now`, in their order.
pub open spec fn fresh<T>(entries: Seq<PoolEntry<T>>, now: u64, expire_after: u64) -> Seq<
    PoolEntry<T>,
>
    decreases entries.len(),
{
    if entries.len() == 0 {
        Seq::empty()
    } else if is_fresh(entries.last().last_used, now, expire_after) {
        fresh(entries.drop_last(), now, expire_after).push(entries.last())
    } else {
        fresh(entries.drop_last(), now, expire_after)
    }
}

/// The entries that a list of buckets keeps for a key.
spec fn kept<T>(buckets: Seq<Bucket<T>>, key: PoolKey) -> Seq<PoolEntry<T>>
    decreases buckets.len(),
{
    if buckets.len() == 0 {
        Seq::empty()
    } else if buckets.last().key == key {
        buckets.last().entries@
    } else {
        kept(buckets.drop_last(), key)
    }
}

/// Whether no key stands twice in a list of buckets.
spec fn keys_differ<T>(buckets: Seq<Bucket<T>>) -> bool {
    forall|i: int, j: int|
        0 <= i < j < buckets.len() ==> (#[trigger] buckets[i]).key != (#[trigger] buckets[j]).key
}

/// Where no key stands twice, a bucket holds what is kept for its key.
proof fn lemma_kept_at<T>(buckets: Seq<Bucket<T>>, i: int)
    requires
        keys_differ(buckets),
        0 <= i < buckets.len(),
    ensures
        kept(buckets, buckets[i].key) == buckets[i].entries@,
    decreases buckets.len(),
{
    if i < buckets.len() - 1 {
        let rest = buckets.drop_last();
        assert(rest[i] == buckets[i]);
        assert(buckets.last() == buckets[buckets.len() - 1]);
        assert forall|a: int, b: int| 0 <= a < b < rest.len() implies (#[trigger] rest[a]).key != (
        #[trigger] rest[b]).key by {
            assert(rest[a] == buckets[a] && rest[b] == buckets[b]);
        }
        lemma_kept_at(rest, i);
    }
}

/// A key that no bucket has keeps nothing.
proof fn lemma_kept_nothing<T>(buckets: Seq<Bucket<T>>, key: PoolKey)
    requires
        forall|i: int| 0 <= i < buckets.len() ==> (#[trigger] buckets[i]).key != key,
    ensures
        kept(buckets, key) == Seq::<PoolEntry<T>>::empty(),
    decreases buckets.len(),
{
    if buckets.len() > 0 {
        let rest = buckets.drop_last();
        assert(buckets.last() == buckets[buckets.len() - 1]);
        assert forall|i: int| 0 <= i < rest.len() implies (#[trigger] rest[i]).key != key by {
            assert(rest[i] == buckets[i]);
        }
        lemma_kept_nothing(rest, key);
    }
}

/// Two lists of buckets with the same keys keep the same for every key
/// whose bucket holds the same.
proof fn lemma_kept_elsewhere<T>(before: Seq<Bucket<T>>, after: Seq<Bucket<T>>, key: PoolKey)
    requires
        before.len() == after.len(),
        forall|i: int| 0 <= i < before.len() ==> (#[trigger] before[i]).key == after[i].key,
        forall|i: int|
            0 <= i < before.len() && (#[trigger] before[i]).key == key ==> before[i].entries@
                == after[i].entries@,
    ensures
        kept(after, key) == kept(before, key),
    decreases before.len(),
{
    if before.len() > 0 {
        assert(before.last() == before[before.len() - 1]);
        assert(after.last() == after[after.len() - 1]);
        let b = before.drop_last();
        let a = after.drop_last();
        assert forall|i: int| 0 <= i < b.len() implies (#[trigger] b[i]).key == a[i].key by {
            assert(b[i] == before[i] && a[i] == after[i]);
        }
        assert forall|i: int| 0 <= i < b.len() && (#[trigger] b[i]).key == key implies b[i].entries@
            == a[i].entries@ by {
            assert(b[i] == before[i] && a[i] == after[i]);
        }
        lemma_kept_elsewhere(b, a, key);
    }
}

/// Tells whether a texture given back at `last_used` is still kept at
/// `now`.
fn entry_is_fresh(last_used: u64, now: u64, expire_after: u64) -> (kept: bool)
    ensures
        kept == is_fresh(last_used, now, expire_after),
{
    let age: u64 = if now >= last_used {
        now - last_used
    } else {
        0
    };
    age < expire_after
}

/// Gives up the entries that have expired.
fn retain_fresh<T>(entries: Vec<PoolEntry<T>>, now: u64, expire_after: u64) -> (out: Vec<
    PoolEntry<T>,
>)
    ensures
        out@ == fresh(entries@, now, expire_after),
{
    let mut entries = entries;
    let ghost all = entries@;
    let mut reversed: Vec<PoolEntry<T>> = Vec::new();
    while entries.len() > 0
        invariant
            fresh(all, now, expire_after) == fresh(entries@, now, expire_after)
                + reversed@.reverse(),
        decreases entries.len(),
    {
        let ghost before = entries@;
        let ghost held = reversed@;
        match entries.pop() {
            Some(entry) => {
                assert(entries@ =~= before.drop_last());
                if entry_is_fresh(entry.last_used, now, expire_after) {
                    reversed.push(entry);
                    assert(reversed@.reverse() =~= seq![entry] + held.reverse());
                    assert(fresh(before, now, expire_after) + held.reverse() =~= fresh(
                        entries@,
                        now,
                        expire_after,
                    ) + reversed@.reverse());
                }
            },
            None => {},
        }
    }
    let mut out: Vec<PoolEntry<T>> = Vec::new();
    let ghost kept_reversed = reversed@;
    assert(fresh(all, now, expire_after) =~= kept_reversed.reverse());
    while reversed.len() > 0
        invariant
            kept_reversed.reverse() == out@ + reversed@.reverse(),
        decreases reversed.len(),
    {
        let ghost before = reversed@;
        let ghost done = out@;
        match reversed.pop() {
            Some(entry) => {
                assert(reversed@ =~= before.drop_last());
                out.push(entry);
                assert(before.reverse() =~= seq![entry] + reversed@.reverse());
                assert(done + before.reverse() =~= out@ + reversed@.reverse());
            },
            None => {},
        }
    }
    assert(out@ =~= out@ + reversed@.reverse());
    out
}

impl<T> BgaTexturePool<T> {
    /// Whether no key has two buckets. Every pool that `new` made is
    /// well-formed, whatever was done with it since.
    pub closed spec fn wf(&self) -> bool {
        keys_differ(self.buckets@)
    }

    /// The textures kept for a key, the one given back last being last.
    pub closed spec fn held(&self, key: PoolKey) -> Seq<PoolEntry<T>> {
        kept(self.buckets@, key)
    }

    /// Most textures kept for one key.
    pub closed spec fn limit(&self) -> usize {
        self.max_per_size
    }

    /// Time after which an unused texture is given up.
    pub closed spec fn lifetime(&self) -> u64 {
        self.expire_after
    }

    /// An empty pool that keeps `max_per_size` textures for a key at most,
    /// each for `expire_after` nanoseconds.
    pub fn new(max_per_size: usize, expire_after: u64) -> (pool: Self)
        ensures
            pool.wf(),
            pool.limit() == max_per_size,
            pool.lifetime() == expire_after,
            forall|key: PoolKey| #[trigger] pool.held(key) == Seq::<PoolEntry<T>>::empty(),
    {
        BgaTexturePool { buckets: Vec::new(), max_per_size, expire_after }
    }

    /// Position of the bucket of a key.
    fn find(&self, key: PoolKey) -> (at: Option<usize>)
        requires
            self.wf(),
        ensures
            match at {
                Some(i) => i < self.buckets@.len() && self.buckets@[i as int].key == key
                    && self.held(key) == self.buckets@[i as int].entries@,
                None => self.held(key) == Seq::<PoolEntry<T>>::empty() && forall|i: int|
                    0 <= i < self.buckets@.len() ==> (#[trigger] self.buckets@[i]).key != key,
            },
    {
        let mut i: usize = 0;
        while i < self.buckets.len()
            invariant
                self.wf(),
                i <= self.buckets@.len(),
                forall|j: int| 0 <= j < i ==> (#[trigger] self.buckets@[j]).key != key,
            decreases self.buckets.len() - i,
        {
            if self.buckets[i].key == key {
                proof {
                    lemma_kept_at(self.buckets@, i as int);
                }
                return Some(i);
            }
            i += 1;
        }
        proof {
            lemma_kept_nothing(self.buckets@, key);
        }
        None
    }

    /// Takes a texture for `key` out of the pool, if a fresh one is kept:
    /// the textures of the key that have expired at `now` are given up, and
    /// of the rest the one given back last is handed out. Where none is
    /// kept the caller makes a new texture.
    pub fn acquire(&mut self, key: PoolKey, now: u64) -> (texture: Option<T>)
        requires
            old(self).wf(),
        ensures
            final(self).wf(),
            final(self).limit() == old(self).limit(),
            final(self).lifetime() == old(self).lifetime(),
            match texture {
                Some(t) => {
                    let rest = fresh(old(self).held(key), now, old(self).lifetime());
                    rest.len() > 0 && t == rest.last().texture && final(self).held(key)
                        == rest.drop_last()
                },
                None => fresh(old(self).held(key), now, old(self).lifetime()).len() == 0
                    && final(self).held(key) == Seq::<PoolEntry<T>>::empty(),
            },
            forall|other: PoolKey|
                other != key ==> #[trigger] final(self).held(other) == old(self).held(other),
    {
        let i = match self.find(key) {
            Some(i) => i,
            None => {
                return None;
            },
        };
        let ghost before = self.buckets@;
        let bucket = self.buckets.remove(i);
        let mut entries = retain_fresh(bucket.entries, now, self.expire_after);
        let taken = entries.pop();
        self.buckets.insert(i, Bucket { key, entries });
        proof {
            let after = self.buckets@;
            assert(after.len() == before.len());
            assert forall|j: int| 0 <= j < before.len() implies (#[trigger] before[j]).key
                == after[j].key by {}
            assert(keys_differ(after)) by {
                assert forall|a: int, b: int| 0 <= a < b < after.len() implies (
                #[trigger] after[a]).key != (#[trigger] after[b]).key by {
                    assert(before[a].key == after[a].key && before[b].key == after[b].key);
                }
            }
            lemma_kept_at(after, i as int);
            assert forall|other: PoolKey| other != key implies #[trigger] kept(after, other)
                == kept(before, other) by {
                lemma_kept_elsewhere(before, after, other);
            }
        }
        match taken {
            Some(entry) => Some(entry.texture),
            None => None,
        }
    }

    /// Gives a texture back at `now`. It is kept unless the pool holds as
    /// many textures for the key as it may.
    pub fn release(&mut self, texture: T, key: PoolKey, now: u64)
        requires
            old(self).wf(),
        ensures
            final(self).wf(),
            final(self).limit() == old(self).limit(),
            final(self).lifetime() == old(self).lifetime(),
            final(self).held(key) == if old(self).held(key).len() < old(self).limit() {
                old(self).held(key).push(PoolEntry { texture, last_used: now })
            } else {
                old(self).held(key)
            },
            forall|other: PoolKey|
                other != key ==> #[trigger] final(self).held(other) == old(self).held(other),
    {
        let ghost before = self.buckets@;
        match self.find(key) {
            Some(i) => {
                let bucket = self.buckets.remove(i);
                let mut entries = bucket.entries;
                if entries.len() < self.max_per_size {
                    entries.push(PoolEntry { texture, last_used: now });
                }
                self.buckets.insert(i, Bucket { key, entries });
                proof {
                    let after = self.buckets@;
                    assert(after.len() == before.len());
                    assert forall|j: int| 0 <= j < before.len() implies (#[trigger] before[j]).key
                        == after[j].key by {}
                    assert(keys_differ(after)) by {
                        assert forall|a: int, b: int| 0 <= a < b < after.len() implies (
                        #[trigger] after[a]).key != (#[trigger] after[b]).key by {
                            assert(before[a].key == after[a].key && before[b].key == after[b].key);
                        }
                    }
                    lemma_kept_at(after, i as int);
                    assert forall|other: PoolKey| other != key implies #[trigger] kept(after, other)
                        == kept(before, other) by {
                        lemma_kept_elsewhere(before, after, other);
                    }
                }
            },
            None => {
                let mut entries: Vec<PoolEntry<T>> = Vec::new();
                if entries.len() < self.max_per_size {
                    entries.push(PoolEntry { texture, last_used: now });
                }
                self.buckets.push(Bucket { key, entries });
                proof {
                    let after = self.buckets@;
                    assert(after.drop_last() =~= before);
                    assert(keys_differ(after));
                }
            },
        }
    }

    /// Gives up every texture that has expired at `now`.
    pub fn cleanup_expired(&mut self, now: u64)
        requires
            old(self).wf(),
        ensures
            final(self).wf(),
            final(self).limit() == old(self).limit(),
            final(self).lifetime() == old(self).lifetime(),
            forall|key: PoolKey|
                #[trigger] final(self).held(key) == fresh(
                    old(self).held(key),
                    now,
                    old(self).lifetime(),
                ),
    {
        let ghost before = self.buckets@;
        let mut i: usize = 0;
        while i < self.buckets.len()
            invariant
                i <= self.buckets@.len(),
                self.buckets@.len() == before.len(),
                self.max_per_size == old(self).max_per_size,
                self.expire_after == old(self).expire_after,
                forall|j: int| 0 <= j < before.len() ==> (#[trigger] self.buckets@[j]).key
                    == before[j].key,
                forall|j: int|
                    0 <= j < i ==> (#[trigger] self.buckets@[j]).entries@ == fresh(
                        before[j].entries@,
                        now,
                        self.expire_after,
                    ),
                forall|j: int|
                    i <= j < before.len() ==> (#[trigger] self.buckets@[j]).entries@
                        == before[j].entries@,
            decreases self.buckets.len() - i,
        {
            let bucket = self.buckets.remove(i);
            let key = bucket.key;
            let entries = retain_fresh(bucket.entries, now, self.expire_after);
            self.buckets.insert(i, Bucket { key, entries });
            i += 1;
        }
        proof {
            let after = self.buckets@;
            assert(keys_differ(after)) by {
                assert forall|a: int, b: int| 0 <= a < b < after.len() implies (
                #[trigger] after[a]).key != (#[trigger] after[b]).key by {
                    assert(before[a].key == after[a].key && before[b].key == after[b].key);
                }
            }
            assert forall|key: PoolKey| #[trigger] kept(after, key) == fresh(
                kept(before, key),
                now,
                self.expire_after,
            ) by {
                lemma_cleaned(before, after, key, now, self.expire_after);
            }
        }
    }

    /// Gives up every texture.
    pub fn clear(&mut self)
        ensures
            final(self).wf(),
            final(self).limit() == old(self).limit(),
            final(self).lifetime() == old(self).lifetime(),
            forall|key: PoolKey| #[trigger] final(self).held(key) == Seq::<PoolEntry<T>>::empty(),
    {
        self.buckets.clear();
    }
}

/// Where every bucket keeps what was fresh in the bucket that stood in its
/// place, every key keeps what was fresh of what it kept.
proof fn lemma_cleaned<T>(
    before: Seq<Bucket<T>>,
    after: Seq<Bucket<T>>,
    key: PoolKey,
    now: u64,
    expire_after: u64,
)
    requires
        before.len() == after.len(),
        forall|j: int| 0 <= j < before.len() ==> (#[trigger] after[j]).key == before[j].key,
        forall|j: int|
            0 <= j < before.len() ==> (#[trigger] after[j]).entries@ == fresh(
                before[j].entries@,
                now,
                expire_after,
            ),
    ensures
        kept(after, key) == fresh(kept(before, key), now, expire_after),
    decreases before.len(),
{
    if before.len() > 0 {
        assert(before.last() == before[before.len() - 1]);
        assert(after.last() == after[after.len() - 1]);
        let b = before.drop_last();
        let a = after.drop_last();
        assert forall|j: int| 0 <= j < b.len() implies (#[trigger] a[j]).key == b[j].key by {
            assert(b[j] == before[j] && a[j] == after[j]);
        }
        assert forall|j: int| 0 <= j < b.len() implies (#[trigger] a[j]).entries@ == fresh(
            b[j].entries@,
            now,
            expire_after,
        ) by {
            assert(b[j] == before[j] && a[j] == after[j]);
        }
        lemma_cleaned(b, a, key, now, expire_after);
    }
}

impl<T> Default for BgaTexturePool<T> {
    /// A pool that keeps four textures for a key, each for ten seconds.
    fn default() -> (pool: Self)
        ensures
            pool.wf(),
            pool.limit() == 4,
            pool.lifetime() == 10_000_000_000,
    {
        BgaTexturePool::new(4, 10_000_000_000)
    }
}

} // verus!
