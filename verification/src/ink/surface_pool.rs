//! A pool of idle off-screen surfaces for reuse. A surface is reused only for
//! exactly the same pixel size and configuration; the pool is bounded by an
//! entry count and an estimated byte budget, evicts least recently used
//! entries first, and drops entries that stayed idle too long.
//!
//! The surfaces themselves are opaque to the pool; clearing a reused surface
//! and creating a new one on a miss belong to the caller. Times are
//! nanoseconds on the caller's monotonic clock.

use vstd::prelude::*;
use vstd::multiset::Multiset;

use crate::ink::surface::{lemma_saturate_late, saturated, saturating_mul, BYTES_PER_PIXEL};

verus! {

broadcast use {
    vstd::seq_lib::group_to_multiset_ensures,
    vstd::multiset::group_multiset_axioms,
};

/// The surface settings that a pooled surface must match exactly.
#[derive(Debug, Clone, Copy, PartialEq, Eq, Structural)]
pub struct InkSurfaceConfig {
    /// MSAA samples per pixel; zero for none.
    pub sample_count: usize,
}

/// Colour-buffer copies that MSAA keeps: one without it, else samples plus the
/// resolved buffer (saturating).
pub open spec fn sample_multiplier(config: InkSurfaceConfig) -> int {
    if config.sample_count == 0 {
        1
    } else {
        saturated(config.sample_count + 1)
    }
}

/// The estimated bytes of a surface: width × height × 4 × the sample multiplier,
/// saturating at the largest `usize`.
pub open spec fn estimated_bytes_of(render_size: [u32; 2], config: InkSurfaceConfig) -> int {
    saturated(render_size[0] * render_size[1] * 4 * sample_multiplier(config))
}

/// A conservative estimate of a surface's colour buffer and MSAA samples.
pub fn estimate_surface_bytes(render_size: [u32; 2], config: InkSurfaceConfig) -> (bytes: usize)
    ensures
        bytes == estimated_bytes_of(render_size, config),
{
    let multiplier: usize = if config.sample_count == 0 {
        1
    } else {
        config.sample_count.saturating_add(1)
    };
    let pixels = saturating_mul(render_size[0] as usize, render_size[1] as usize);
    let color = saturating_mul(pixels, BYTES_PER_PIXEL);
    let bytes = saturating_mul(color, multiplier);
    proof {
        let area = render_size[0] * render_size[1];
        lemma_saturate_late(area, 4);
        assert(area * 4 >= 0) by (nonlinear_arith)
            requires
                area >= 0,
        ;
        lemma_saturate_late(area * 4, multiplier as int);
    }
    bytes
}

/// An idle surface with its exact size, configuration, estimated bytes and
/// the time it was returned.
#[derive(Debug)]
pub struct PooledSurface<S> {
    pub surface: S,
    pub render_size: [u32; 2],
    pub config: InkSurfaceConfig,
    pub estimated_bytes: usize,
    pub last_used: u64,
}

/// Read-only diagnostics of the pool.
#[derive(Debug, Clone, Copy, PartialEq, Eq, Structural)]
pub struct SurfacePoolStats {
    pub idle_count: usize,
    pub estimated_bytes: usize,
    pub reused_count: u64,
    pub created_count: u64,
    pub eviction_count: u64,
}

/// `a + b`, saturating at the largest `u64`.
pub open spec fn counter_plus(a: u64, b: int) -> u64 {
    if a + b > u64::MAX {
        u64::MAX
    } else {
        (a + b) as u64
    }
}

/// The estimated bytes of all entries.
pub open spec fn bytes_sum<S>(entries: Seq<PooledSurface<S>>) -> int
    decreases entries.len(),
{
    if entries.len() == 0 {
        0
    } else {
        bytes_sum(entries.drop_last()) + entries.last().estimated_bytes
    }
}

/// The entries after the one at `i` is removed by moving the last into its place.
pub open spec fn swap_removed<A>(entries: Seq<A>, i: int) -> Seq<A> {
    entries.update(i, entries.last()).drop_last()
}

/// Whether an entry has exactly this size and configuration.
pub open spec fn fits<S>(entry: PooledSurface<S>, render_size: [u32; 2], config: InkSurfaceConfig) -> bool {
    entry.render_size[0] == render_size[0] && entry.render_size[1] == render_size[1]
        && entry.config == config
}

/// `i` is the first entry that fits.
pub open spec fn is_first_fit<S>(
    entries: Seq<PooledSurface<S>>,
    i: int,
    render_size: [u32; 2],
    config: InkSurfaceConfig,
) -> bool {
    &&& 0 <= i < entries.len()
    &&& fits(entries[i], render_size, config)
    &&& forall|j: int| 0 <= j < i ==> !fits(#[trigger] entries[j], render_size, config)
}

/// The entry has stayed idle for at least `timeout` at time `now`.
pub open spec fn is_expired<S>(entry: PooledSurface<S>, now: u64, timeout: u64) -> bool {
    (if now >= entry.last_used {
        now - entry.last_used
    } else {
        0
    }) >= timeout
}

/// `kept` is what is left of `entries` after evicting least recently used
/// entries: nothing was added, and every entry that left was used no later
/// than every entry that stayed.
pub open spec fn evicted_oldest_first<S>(
    entries: Seq<PooledSurface<S>>,
    kept: Seq<PooledSurface<S>>,
) -> bool {
    &&& forall|e: PooledSurface<S>| #[trigger]
        kept.to_multiset().count(e) <= entries.to_multiset().count(e)
    &&& forall|d: PooledSurface<S>, k: PooledSurface<S>|
        #![trigger entries.to_multiset().count(d), kept.to_multiset().count(k)]
        entries.to_multiset().count(d) > kept.to_multiset().count(d) && kept.to_multiset().count(k)
            > 0 ==> d.last_used <= k.last_used
}

/// Removing an entry by swapping in the last one removes one copy of it from
/// the multiset of entries.
proof fn lemma_swap_remove_multiset<A>(entries: Seq<A>, i: int)
    requires
        0 <= i < entries.len(),
    ensures
        swap_removed(entries, i).to_multiset() =~= entries.to_multiset().remove(entries[i]),
{
    let updated = entries.update(i, entries.last());
    assert(updated.drop_last() =~= updated.remove(updated.len() - 1));
    assert(updated[updated.len() - 1] == entries.last());
    assert(updated.to_multiset() == entries.to_multiset().insert(entries.last()).remove(entries[i]));
}

/// The byte total after replacing one entry.
proof fn lemma_bytes_sum_update<S>(entries: Seq<PooledSurface<S>>, i: int, v: PooledSurface<S>)
    requires
        0 <= i < entries.len(),
    ensures
        bytes_sum(entries.update(i, v)) == bytes_sum(entries) - entries[i].estimated_bytes
            + v.estimated_bytes,
    decreases entries.len(),
{
    let updated = entries.update(i, v);
    if i == entries.len() - 1 {
        assert(updated.drop_last() =~= entries.drop_last());
    } else {
        assert(updated.drop_last() =~= entries.drop_last().update(i, v));
        lemma_bytes_sum_update(entries.drop_last(), i, v);
    }
}

/// The byte total after a swap-remove.
proof fn lemma_bytes_sum_swap_remove<S>(entries: Seq<PooledSurface<S>>, i: int)
    requires
        0 <= i < entries.len(),
    ensures
        bytes_sum(swap_removed(entries, i)) == bytes_sum(entries) - entries[i].estimated_bytes,
{
    lemma_bytes_sum_update(entries, i, entries.last());
}

/// Byte totals are never negative.
proof fn lemma_bytes_sum_nonnegative<S>(entries: Seq<PooledSurface<S>>)
    ensures
        bytes_sum(entries) >= 0,
    decreases entries.len(),
{
    if entries.len() > 0 {
        lemma_bytes_sum_nonnegative(entries.drop_last());
    }
}

/// Every entry's bytes are within the total.
proof fn lemma_bytes_sum_bounds_entry<S>(entries: Seq<PooledSurface<S>>, i: int)
    requires
        0 <= i < entries.len(),
    ensures
        entries[i].estimated_bytes <= bytes_sum(entries),
    decreases entries.len(),
{
    lemma_bytes_sum_nonnegative(entries.drop_last());
    if i < entries.len() - 1 {
        lemma_bytes_sum_bounds_entry(entries.drop_last(), i);
    }
}

/// Evicting a least recently used entry keeps the eviction order.
proof fn lemma_evict_step<S>(
    entries: Seq<PooledSurface<S>>,
    current: Seq<PooledSurface<S>>,
    i: int,
)
    requires
        evicted_oldest_first(entries, current),
        0 <= i < current.len(),
        forall|j: int|
            0 <= j < current.len() ==> current[i].last_used <= #[trigger] current[j].last_used,
    ensures
        evicted_oldest_first(entries, swap_removed(current, i)),
{
    let next = swap_removed(current, i);
    let m = current[i];
    lemma_swap_remove_multiset(current, i);
    assert forall|e: PooledSurface<S>| #[trigger]
        next.to_multiset().count(e) <= entries.to_multiset().count(e) by {
        assert(next.to_multiset().count(e) <= current.to_multiset().count(e));
        assert(current.to_multiset().count(e) <= entries.to_multiset().count(e));
    }
    assert forall|d: PooledSurface<S>, k: PooledSurface<S>|
        entries.to_multiset().count(d) > next.to_multiset().count(d)
            && next.to_multiset().count(k) > 0 implies d.last_used <= k.last_used by {
        assert(current.to_multiset().count(k) > 0);
        if entries.to_multiset().count(d) <= current.to_multiset().count(d) {
            assert(d == m);
            assert(current.contains(k));
            let j = choose|j: int| 0 <= j < current.len() && current[j] == k;
            assert(current[i].last_used <= current[j].last_used);
        } else {
            assert(entries.to_multiset().count(d) > current.to_multiset().count(d)
                && current.to_multiset().count(k) > 0);
        }
    }
}

/// How far a collection pass has come: the entries before `i` are fresh, and
/// every expired entry that is left stands at or after `i`.
pub open spec fn gc_progress<S>(
    entries: Seq<PooledSurface<S>>,
    current: Seq<PooledSurface<S>>,
    i: int,
    now: u64,
    timeout: u64,
) -> bool {
    &&& 0 <= i <= current.len()
    &&& forall|j: int| 0 <= j < i ==> !is_expired(#[trigger] current[j], now, timeout)
    &&& forall|e: PooledSurface<S>| #[trigger]
        current.to_multiset().count(e) == if is_expired(e, now, timeout) {
            current.subrange(i, current.len() as int).to_multiset().count(e)
        } else {
            entries.to_multiset().count(e)
        }
}

/// Dropping the expired entry at `i` keeps the collection's progress.
proof fn lemma_gc_drop_step<S>(
    entries: Seq<PooledSurface<S>>,
    current: Seq<PooledSurface<S>>,
    i: int,
    now: u64,
    timeout: u64,
)
    requires
        gc_progress(entries, current, i, now, timeout),
        i < current.len(),
        is_expired(current[i], now, timeout),
    ensures
        gc_progress(entries, swap_removed(current, i), i, now, timeout),
{
    let next = swap_removed(current, i);
    let x = current[i];
    let rest = current.subrange(i, current.len() as int);
    let next_rest = next.subrange(i, next.len() as int);
    assert(next_rest =~= swap_removed(rest, 0));
    lemma_swap_remove_multiset(current, i);
    lemma_swap_remove_multiset(rest, 0);
    assert forall|j: int| 0 <= j < i implies !is_expired(#[trigger] next[j], now, timeout) by {
        assert(next[j] == current[j]);
    }
    assert forall|e: PooledSurface<S>|
        #[trigger] next.to_multiset().count(e) == if is_expired(e, now, timeout) {
            next_rest.to_multiset().count(e)
        } else {
            entries.to_multiset().count(e)
        } by {
        if is_expired(e, now, timeout) {
            assert(current.to_multiset().count(e) == rest.to_multiset().count(e));
        } else {
            assert(e != x);
            assert(current.to_multiset().count(e) == entries.to_multiset().count(e));
        }
    }
}

/// Keeping the fresh entry at `i` advances the collection's progress.
proof fn lemma_gc_keep_step<S>(
    entries: Seq<PooledSurface<S>>,
    current: Seq<PooledSurface<S>>,
    i: int,
    now: u64,
    timeout: u64,
)
    requires
        gc_progress(entries, current, i, now, timeout),
        i < current.len(),
        !is_expired(current[i], now, timeout),
    ensures
        gc_progress(entries, current, i + 1, now, timeout),
{
    let rest = current.subrange(i, current.len() as int);
    let next_rest = current.subrange(i + 1, current.len() as int);
    assert(rest.remove(0) =~= next_rest);
    assert(rest[0] == current[i]);
    assert forall|e: PooledSurface<S>|
        #[trigger] current.to_multiset().count(e) == if is_expired(e, now, timeout) {
            next_rest.to_multiset().count(e)
        } else {
            entries.to_multiset().count(e)
        } by {
        if is_expired(e, now, timeout) {
            assert(e != current[i]);
            assert(current.to_multiset().count(e) == rest.to_multiset().count(e));
        }
    }
}

/// Where some idle entry fits a request, acquiring finds one: there is a first fit.
pub proof fn lemma_fitting_entry_is_found<S>(
    entries: Seq<PooledSurface<S>>,
    k: int,
    render_size: [u32; 2],
    config: InkSurfaceConfig,
)
    requires
        0 <= k < entries.len(),
        fits(entries[k], render_size, config),
    ensures
        exists|i: int| #[trigger] is_first_fit(entries, i, render_size, config),
    decreases k,
{
    if forall|j: int| 0 <= j < k ==> !fits(#[trigger] entries[j], render_size, config) {
        assert(is_first_fit(entries, k, render_size, config));
    } else {
        let j = choose|j: int| 0 <= j < k && fits(#[trigger] entries[j], render_size, config);
        lemma_fitting_entry_is_found(entries, j, render_size, config);
    }
}

/// The pool of idle surfaces.
pub struct SurfacePool<S> {
    idle_surfaces: Vec<PooledSurface<S>>,
    max_entries: usize,
    max_estimated_bytes: usize,
    estimated_bytes: usize,
    reused_count: u64,
    created_count: u64,
    eviction_count: u64,
}

impl<S> SurfacePool<S> {
    /// The idle entries, in the pool's order.
    pub closed spec fn entries(&self) -> Seq<PooledSurface<S>> {
        self.idle_surfaces@
    }

    /// The entry limit.
    pub closed spec fn entry_limit(&self) -> usize {
        self.max_entries
    }

    /// The estimated byte budget.
    pub closed spec fn byte_limit(&self) -> usize {
        self.max_estimated_bytes
    }

    /// The estimated bytes the idle entries hold.
    pub closed spec fn bytes(&self) -> usize {
        self.estimated_bytes
    }

    /// How many acquisitions were served from the pool.
    pub closed spec fn reused(&self) -> u64 {
        self.reused_count
    }

    /// How many acquisitions found no fitting entry.
    pub closed spec fn created(&self) -> u64 {
        self.created_count
    }

    /// How many entries were evicted or dropped.
    pub closed spec fn evictions(&self) -> u64 {
        self.eviction_count
    }

    /// The pool's invariant: the byte count is the entries' total, and both
    /// limits hold.
    pub closed spec fn wf(&self) -> bool {
        &&& self.estimated_bytes == bytes_sum(self.idle_surfaces@)
        &&& self.idle_surfaces@.len() <= self.max_entries
        &&& self.estimated_bytes <= self.max_estimated_bytes
    }

    /// A well-formed pool never holds more entries or estimated bytes than its
    /// limits, and its byte count is the entries' total.
    pub proof fn lemma_limits_hold(&self)
        requires
            self.wf(),
        ensures
            self.entries().len() <= self.entry_limit(),
            self.bytes() <= self.byte_limit(),
            self.bytes() == bytes_sum(self.entries()),
    {
    }

    /// An empty pool with an entry limit and an estimated byte budget.
    pub fn new(max_entries: usize, max_estimated_bytes: usize) -> (pool: SurfacePool<S>)
        ensures
            pool.wf(),
            pool.entries() == Seq::<PooledSurface<S>>::empty(),
            pool.entry_limit() == max_entries,
            pool.byte_limit() == max_estimated_bytes,
            pool.bytes() == 0,
            pool.reused() == 0,
            pool.created() == 0,
            pool.evictions() == 0,
    {
        SurfacePool {
            idle_surfaces: Vec::new(),
            max_entries,
            max_estimated_bytes,
            estimated_bytes: 0,
            reused_count: 0,
            created_count: 0,
            eviction_count: 0,
        }
    }

    /// Takes the first idle surface of exactly this size and configuration;
    /// `None` means the caller creates one, and that is counted.
    pub fn acquire(&mut self, render_size: [u32; 2], config: InkSurfaceConfig) -> (surface: Option<S>)
        requires
            old(self).wf(),
        ensures
            final(self).wf(),
            final(self).entry_limit() == old(self).entry_limit(),
            final(self).byte_limit() == old(self).byte_limit(),
            final(self).evictions() == old(self).evictions(),
            forall|i: int|
                is_first_fit(old(self).entries(), i, render_size, config) ==> {
                    &&& surface == Some(old(self).entries()[i].surface)
                    &&& final(self).entries() == swap_removed(old(self).entries(), i)
                    &&& final(self).bytes() == old(self).bytes() - old(self).entries()[i].estimated_bytes
                    &&& final(self).reused() == counter_plus(old(self).reused(), 1)
                    &&& final(self).created() == old(self).created()
                },
            (forall|i: int|
                0 <= i < old(self).entries().len() ==> !fits(
                    #[trigger] old(self).entries()[i],
                    render_size,
                    config,
                )) ==> {
                &&& surface is None
                &&& final(self).entries() == old(self).entries()
                &&& final(self).bytes() == old(self).bytes()
                &&& final(self).reused() == old(self).reused()
                &&& final(self).created() == counter_plus(old(self).created(), 1)
            },
    {
        let mut index: usize = 0;
        while index < self.idle_surfaces.len()
            invariant
                index <= self.idle_surfaces@.len(),
                forall|j: int| 0 <= j < index ==> !fits(#[trigger] self.idle_surfaces@[j], render_size, config),
            ensures
                index <= self.idle_surfaces@.len(),
                forall|j: int| 0 <= j < index ==> !fits(#[trigger] self.idle_surfaces@[j], render_size, config),
                index < self.idle_surfaces@.len() ==> fits(self.idle_surfaces@[index as int], render_size, config),
            decreases self.idle_surfaces@.len() - index,
        {
            let entry = &self.idle_surfaces[index];
            if entry.render_size[0] == render_size[0] && entry.render_size[1] == render_size[1]
                && entry.config == config {
                break;
            }
            index = index + 1;
        }
        if index < self.idle_surfaces.len() {
            let ghost before = self.idle_surfaces@;
            proof {
                lemma_bytes_sum_swap_remove(before, index as int);
                lemma_bytes_sum_bounds_entry(before, index as int);
                assert(is_first_fit(before, index as int, render_size, config));
                assert(fits(old(self).entries()[index as int], render_size, config));
                assert forall|i: int| is_first_fit(before, i, render_size, config) implies i
                    == index by {
                    if i < index {
                        assert(!fits(before[i], render_size, config));
                    }
                    if i > index {
                        assert(!fits(before[index as int], render_size, config));
                    }
                }
            }
            let entry = self.idle_surfaces.swap_remove(index);
            self.estimated_bytes = self.estimated_bytes.saturating_sub(entry.estimated_bytes);
            self.reused_count = self.reused_count.saturating_add(1);
            return Some(entry.surface);
        }
        self.created_count = self.created_count.saturating_add(1);
        None
    }

    /// Returns a surface to the pool at time `now`. A surface that could never
    /// fit (no entries allowed, or larger than the whole budget) is dropped;
    /// otherwise least recently used entries are evicted until it fits, and it
    /// is added last.
    pub fn release_at(&mut self, surface: S, render_size: [u32; 2], config: InkSurfaceConfig, now: u64)
        requires
            old(self).wf(),
            old(self).byte_limit() < usize::MAX || old(self).bytes() + estimated_bytes_of(
                render_size,
                config,
            ) <= usize::MAX,
        ensures
            final(self).wf(),
            final(self).entry_limit() == old(self).entry_limit(),
            final(self).byte_limit() == old(self).byte_limit(),
            final(self).reused() == old(self).reused(),
            final(self).created() == old(self).created(),
            (old(self).entry_limit() == 0 || estimated_bytes_of(render_size, config) > old(
                self,
            ).byte_limit()) ==> {
                &&& final(self).entries() == old(self).entries()
                &&& final(self).bytes() == old(self).bytes()
                &&& final(self).evictions() == old(self).evictions()
            },
            !(old(self).entry_limit() == 0 || estimated_bytes_of(render_size, config) > old(
                self,
            ).byte_limit()) ==> {
                &&& final(self).entries().len() >= 1
                &&& final(self).entries().last() == (PooledSurface {
                    surface,
                    render_size,
                    config,
                    estimated_bytes: estimated_bytes_of(render_size, config) as usize,
                    last_used: now,
                })
                &&& evicted_oldest_first(old(self).entries(), final(self).entries().drop_last())
                &&& final(self).evictions() == counter_plus(
                    old(self).evictions(),
                    old(self).entries().len() - (final(self).entries().len() - 1),
                )
                &&& (old(self).entries().len() < old(self).entry_limit() && old(self).bytes()
                    + estimated_bytes_of(render_size, config) <= old(self).byte_limit())
                    ==> final(self).entries().drop_last() == old(self).entries()
            },
    {
        let estimated_bytes = estimate_surface_bytes(render_size, config);
        if self.max_entries == 0 || estimated_bytes > self.max_estimated_bytes {
            return;
        }
        let ghost start = self.idle_surfaces@;
        let ghost start_bytes = self.estimated_bytes;
        let ghost start_evictions = self.eviction_count;
        while self.idle_surfaces.len() >= self.max_entries || self.estimated_bytes.saturating_add(
            estimated_bytes,
        ) > self.max_estimated_bytes
            invariant
                self.wf(),
                self.max_entries == old(self).max_entries,
                self.max_estimated_bytes == old(self).max_estimated_bytes,
                self.reused_count == old(self).reused_count,
                self.created_count == old(self).created_count,
                self.max_entries > 0,
                estimated_bytes <= self.max_estimated_bytes,
                start == old(self).idle_surfaces@,
                start_bytes == old(self).estimated_bytes,
                start_bytes == bytes_sum(start),
                self.estimated_bytes <= start_bytes,
                self.max_estimated_bytes < usize::MAX || start_bytes + estimated_bytes <= usize::MAX,
                start_evictions == old(self).eviction_count,
                evicted_oldest_first(start, self.idle_surfaces@),
                self.idle_surfaces@.len() <= start.len(),
                self.eviction_count == counter_plus(
                    start_evictions,
                    start.len() - self.idle_surfaces@.len(),
                ),
                (start.len() < self.max_entries && start_bytes + estimated_bytes
                    <= self.max_estimated_bytes) ==> self.idle_surfaces@ == start,
            ensures
                self.wf(),
                self.max_entries == old(self).max_entries,
                self.max_estimated_bytes == old(self).max_estimated_bytes,
                self.reused_count == old(self).reused_count,
                self.created_count == old(self).created_count,
                evicted_oldest_first(start, self.idle_surfaces@),
                self.idle_surfaces@.len() <= start.len(),
                self.eviction_count == counter_plus(
                    start_evictions,
                    start.len() - self.idle_surfaces@.len(),
                ),
                (start.len() < self.max_entries && start_bytes + estimated_bytes
                    <= self.max_estimated_bytes) ==> self.idle_surfaces@ == start,
                self.idle_surfaces@.len() < self.max_entries,
                self.estimated_bytes + estimated_bytes <= self.max_estimated_bytes,
            decreases self.idle_surfaces@.len(),
        {
            let ghost current = self.idle_surfaces@;
            let ghost current_evictions = self.eviction_count;
            if !self.evict_oldest() {
                assert(current.len() == 0);
                assert(bytes_sum(current) == 0);
                break;
            }
            proof {
                let i = choose|i: int|
                    #![trigger current[i]]
                    {
                        &&& 0 <= i < current.len()
                        &&& forall|j: int|
                            0 <= j < current.len() ==> current[i].last_used
                                <= #[trigger] current[j].last_used
                        &&& self.idle_surfaces@ == swap_removed(current, i)
                    };
                lemma_evict_step(start, current, i);
            }
        }
        if self.idle_surfaces.len() < self.max_entries && self.estimated_bytes.saturating_add(
            estimated_bytes,
        ) <= self.max_estimated_bytes {
            let ghost kept = self.idle_surfaces@;
            let entry = PooledSurface {
                surface,
                render_size,
                config,
                estimated_bytes,
                last_used: now,
            };
            self.estimated_bytes = self.estimated_bytes + estimated_bytes;
            self.idle_surfaces.push(entry);
            assert(self.idle_surfaces@.drop_last() =~= kept);
        }
    }

    /// Drops every entry that has been idle for at least `timeout` at time `now`.
    pub fn gc_at(&mut self, now: u64, timeout: u64)
        requires
            old(self).wf(),
        ensures
            final(self).wf(),
            final(self).entry_limit() == old(self).entry_limit(),
            final(self).byte_limit() == old(self).byte_limit(),
            final(self).reused() == old(self).reused(),
            final(self).created() == old(self).created(),
            forall|e: PooledSurface<S>| #[trigger]
                final(self).entries().to_multiset().count(e) == if is_expired(e, now, timeout) {
                    0
                } else {
                    old(self).entries().to_multiset().count(e)
                },
            final(self).evictions() == counter_plus(
                old(self).evictions(),
                old(self).entries().len() - final(self).entries().len(),
            ),
    {
        let ghost start = self.idle_surfaces@;
        let ghost start_evictions = self.eviction_count;
        assert(start.subrange(0, start.len() as int) =~= start);
        let mut index: usize = 0;
        while index < self.idle_surfaces.len()
            invariant
                self.wf(),
                self.max_entries == old(self).max_entries,
                self.max_estimated_bytes == old(self).max_estimated_bytes,
                self.reused_count == old(self).reused_count,
                self.created_count == old(self).created_count,
                start == old(self).idle_surfaces@,
                start_evictions == old(self).eviction_count,
                gc_progress(start, self.idle_surfaces@, index as int, now, timeout),
                self.idle_surfaces@.len() <= start.len(),
                self.eviction_count == counter_plus(
                    start_evictions,
                    start.len() - self.idle_surfaces@.len(),
                ),
            decreases self.idle_surfaces@.len() - index,
        {
            let age = now.saturating_sub(self.idle_surfaces[index].last_used);
            if age >= timeout {
                let ghost current = self.idle_surfaces@;
                proof {
                    lemma_gc_drop_step(start, current, index as int, now, timeout);
                    lemma_bytes_sum_swap_remove(current, index as int);
                    lemma_bytes_sum_bounds_entry(current, index as int);
                }
                let entry = self.idle_surfaces.swap_remove(index);
                self.estimated_bytes = self.estimated_bytes.saturating_sub(entry.estimated_bytes);
                self.eviction_count = self.eviction_count.saturating_add(1);
            } else {
                proof {
                    lemma_gc_keep_step(start, self.idle_surfaces@, index as int, now, timeout);
                }
                index = index + 1;
            }
        }
        assert(self.idle_surfaces@.subrange(index as int, self.idle_surfaces@.len() as int)
            =~= Seq::<PooledSurface<S>>::empty());
    }

    /// Drops every idle entry at once.
    pub fn clear(&mut self)
        requires
            old(self).wf(),
        ensures
            final(self).wf(),
            final(self).entries() == Seq::<PooledSurface<S>>::empty(),
            final(self).bytes() == 0,
            final(self).entry_limit() == old(self).entry_limit(),
            final(self).byte_limit() == old(self).byte_limit(),
            final(self).reused() == old(self).reused(),
            final(self).created() == old(self).created(),
            final(self).evictions() == counter_plus(old(self).evictions(), old(self).entries().len() as int),
    {
        let count = self.idle_surfaces.len() as u64;
        self.eviction_count = self.eviction_count.saturating_add(count);
        self.idle_surfaces.clear();
        self.estimated_bytes = 0;
    }

    /// The pool's size, hit and eviction counters.
    pub fn stats(&self) -> (stats: SurfacePoolStats)
        ensures
            stats == (SurfacePoolStats {
                idle_count: self.entries().len() as usize,
                estimated_bytes: self.bytes(),
                reused_count: self.reused(),
                created_count: self.created(),
                eviction_count: self.evictions(),
            }),
    {
        SurfacePoolStats {
            idle_count: self.idle_surfaces.len(),
            estimated_bytes: self.estimated_bytes,
            reused_count: self.reused_count,
            created_count: self.created_count,
            eviction_count: self.eviction_count,
        }
    }

    /// The entry at `index`, for inspection.
    pub fn entry(&self, index: usize) -> (entry: &PooledSurface<S>)
        requires
            index < self.entries().len(),
        ensures
            *entry == self.entries()[index as int],
    {
        &self.idle_surfaces[index]
    }

    /// Removes the least recently used entry, the first one on a tie; `false`
    /// when the pool is empty.
    fn evict_oldest(&mut self) -> (evicted: bool)
        requires
            old(self).wf(),
        ensures
            final(self).wf(),
            final(self).max_entries == old(self).max_entries,
            final(self).max_estimated_bytes == old(self).max_estimated_bytes,
            final(self).reused_count == old(self).reused_count,
            final(self).created_count == old(self).created_count,
            final(self).estimated_bytes <= old(self).estimated_bytes,
            evicted == (old(self).idle_surfaces@.len() > 0),
            !evicted ==> final(self).idle_surfaces@ == old(self).idle_surfaces@
                && final(self).eviction_count == old(self).eviction_count,
            evicted ==> exists|i: int|
                #![trigger old(self).idle_surfaces@[i]]
                {
                    &&& 0 <= i < old(self).idle_surfaces@.len()
                    &&& forall|j: int|
                        0 <= j < old(self).idle_surfaces@.len()
                            ==> old(self).idle_surfaces@[i].last_used
                            <= #[trigger] old(self).idle_surfaces@[j].last_used
                    &&& final(self).idle_surfaces@ == swap_removed(old(self).idle_surfaces@, i)
                },
            evicted ==> final(self).eviction_count == counter_plus(old(self).eviction_count, 1),
    {
        if self.idle_surfaces.len() == 0 {
            return false;
        }
        let mut oldest: usize = 0;
        let mut index: usize = 1;
        while index < self.idle_surfaces.len()
            invariant
                1 <= index <= self.idle_surfaces@.len(),
                oldest < index,
                forall|j: int|
                    0 <= j < index ==> self.idle_surfaces@[oldest as int].last_used
                        <= #[trigger] self.idle_surfaces@[j].last_used,
            decreases self.idle_surfaces@.len() - index,
        {
            if self.idle_surfaces[index].last_used < self.idle_surfaces[oldest].last_used {
                oldest = index;
            }
            index = index + 1;
        }
        let ghost before = self.idle_surfaces@;
        proof {
            lemma_bytes_sum_swap_remove(before, oldest as int);
            lemma_bytes_sum_bounds_entry(before, oldest as int);
            lemma_bytes_sum_nonnegative(swap_removed(before, oldest as int));
        }
        let entry = self.idle_surfaces.swap_remove(oldest);
        self.estimated_bytes = self.estimated_bytes.saturating_sub(entry.estimated_bytes);
        self.eviction_count = self.eviction_count.saturating_add(1);
        assert(before[oldest as int] == before[oldest as int]);
        true
    }
}

} // verus!
