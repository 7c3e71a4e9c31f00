//! The overlay performance monitor: fixed-capacity windows of frame, render, input
//! and present-interval times, and the counters of the current sampling session.
//!
//! Times are nanoseconds; the caller turns the aggregates into milliseconds and FPS.

use vstd::prelude::*;
use super::sort::{is_sorted_permutation, nearest_rank, percentile_sample};

verus! {

/// Number of samples that each window keeps.
pub const PERFORMANCE_SAMPLE_CAPACITY: usize = 120;
/// Frames that take at least this long count as slow: 33 ms.
pub const SLOW_FRAME_THRESHOLD_NANOS: u64 = 33000000;
/// Present intervals longer than this are idle gaps, not activity: one second.
pub const ACTIVE_INTERVAL_LIMIT_NANOS: u64 = 1000000000;

/// The work that one frame's ink synchronisation did on the persistent cache.
#[derive(Debug, Clone, Copy, PartialEq, Eq, Structural)]
pub enum PerformanceInkSync {
    Unchanged,
    Incremental,
    RegionRebuild,
    FullRebuild,
}

/// What the render thread reports for one presented frame.
#[derive(Debug, Clone, Copy, PartialEq, Eq)]
pub struct PerformanceFrameSample {
    pub presented_at: u64,
    pub frame_time: u64,
    pub render_time: u64,
    pub input_latency: Option<u64>,
    pub visible_strokes: Option<usize>,
    pub visible_operations: Option<usize>,
    pub ink_sync: PerformanceInkSync,
    pub managed_gpu_bytes: u64,
}

/// A fixed-capacity ring of the most recent samples.
pub struct SampleWindow {
    values: Vec<u64>,
    len: usize,
    next: usize,
}

/// The window after one more sample: the oldest drops out once it is full.
pub open spec fn window_push(window: Seq<u64>, value: u64) -> Seq<u64> {
    if window.len() < PERFORMANCE_SAMPLE_CAPACITY {
        window.push(value)
    } else {
        window.drop_first().push(value)
    }
}

/// The largest sample, or zero for an empty window.
pub open spec fn window_max(window: Seq<u64>) -> u64
    decreases window.len(),
{
    if window.len() == 0 {
        0
    } else {
        let rest = window_max(window.drop_last());
        if window.last() > rest {
            window.last()
        } else {
            rest
        }
    }
}

/// The sum of the samples.
pub open spec fn window_sum(window: Seq<u64>) -> int
    decreases window.len(),
{
    if window.len() == 0 {
        0
    } else {
        window_sum(window.drop_last()) + window.last()
    }
}

impl SampleWindow {
    /// The samples, oldest first.
    pub closed spec fn view(&self) -> Seq<u64> {
        let start = if self.len == PERFORMANCE_SAMPLE_CAPACITY {
            self.next as int
        } else {
            0
        };
        Seq::new(
            self.len as nat,
            |k: int| self.values@[(start + k) % (PERFORMANCE_SAMPLE_CAPACITY as int)],
        )
    }

    /// The ring's storage is consistent.
    pub closed spec fn well_formed(&self) -> bool {
        &&& self.values@.len() == PERFORMANCE_SAMPLE_CAPACITY
        &&& self.len <= PERFORMANCE_SAMPLE_CAPACITY
        &&& self.next < PERFORMANCE_SAMPLE_CAPACITY
        &&& self.len < PERFORMANCE_SAMPLE_CAPACITY ==> self.next == self.len
    }

    /// An empty window.
    pub fn new() -> (window: SampleWindow)
        ensures
            window.well_formed(),
            window.view() == Seq::<u64>::empty(),
    {
        let mut values: Vec<u64> = Vec::new();
        while values.len() < PERFORMANCE_SAMPLE_CAPACITY
            invariant
                values@.len() <= PERFORMANCE_SAMPLE_CAPACITY,
            decreases PERFORMANCE_SAMPLE_CAPACITY - values@.len(),
        {
            values.push(0);
        }
        let window = SampleWindow { values, len: 0, next: 0 };
        assert(window.view() =~= Seq::<u64>::empty());
        window
    }

    /// Appends a sample, overwriting the oldest once the window is full.
    pub fn push(&mut self, value: u64)
        requires
            old(self).well_formed(),
        ensures
            final(self).well_formed(),
            final(self).view() == window_push(old(self).view(), value),
    {
        let ghost before = self.view();
        let ghost old_next = self.next;
        let ghost old_len = self.len;
        self.values.set(self.next, value);
        self.next = (self.next + 1) % PERFORMANCE_SAMPLE_CAPACITY;
        if self.len < PERFORMANCE_SAMPLE_CAPACITY {
            self.len = self.len + 1;
        }
        let ghost after = self.view();
        proof {
            let cap = PERFORMANCE_SAMPLE_CAPACITY as int;
            if old_len < PERFORMANCE_SAMPLE_CAPACITY {
                assert forall|k: int| 0 <= k < after.len() implies after[k] == before.push(
                    value,
                )[k] by {
                    if self.len == PERFORMANCE_SAMPLE_CAPACITY {
                        assert((self.next + k) % cap == k) by {
                            assert(self.next == 0);
                        }
                    }
                }
                assert(after =~= before.push(value));
            } else {
                assert forall|k: int| 0 <= k < after.len() implies after[k] == before.drop_first().push(
                    value,
                )[k] by {
                    if k < cap - 1 {
                        assert((self.next + k) % cap == (old_next + (k + 1)) % cap);
                    } else {
                        assert((self.next + k) % cap == old_next);
                    }
                }
                assert(after =~= before.drop_first().push(value));
            }
        }
    }

    /// Empties the window, keeping its storage.
    pub fn clear(&mut self)
        requires
            old(self).well_formed(),
        ensures
            final(self).well_formed(),
            final(self).view() == Seq::<u64>::empty(),
    {
        self.len = 0;
        self.next = 0;
        assert(self.view() =~= Seq::<u64>::empty());
    }

    /// The number of samples.
    pub fn len(&self) -> (len: usize)
        requires
            self.well_formed(),
        ensures
            len == self.view().len(),
    {
        self.len
    }

    /// The most recent sample, or zero for an empty window.
    pub fn last(&self) -> (last: u64)
        requires
            self.well_formed(),
        ensures
            last == (if self.view().len() == 0 {
                0
            } else {
                self.view().last()
            }),
    {
        if self.len == 0 {
            0
        } else {
            let index = (self.next + PERFORMANCE_SAMPLE_CAPACITY - 1) % PERFORMANCE_SAMPLE_CAPACITY;
            proof {
                let cap = PERFORMANCE_SAMPLE_CAPACITY as int;
                let start = if self.len == PERFORMANCE_SAMPLE_CAPACITY {
                    self.next as int
                } else {
                    0
                };
                assert((start + (self.len - 1)) % cap == (self.next + cap - 1) % cap);
            }
            self.values[index]
        }
    }

    /// The samples, oldest first.
    pub fn copy_ordered(&self) -> (samples: Vec<u64>)
        requires
            self.well_formed(),
        ensures
            samples@ == self.view(),
    {
        let start = if self.len == PERFORMANCE_SAMPLE_CAPACITY {
            self.next
        } else {
            0
        };
        let mut samples: Vec<u64> = Vec::new();
        let mut offset: usize = 0;
        while offset < self.len
            invariant
                self.well_formed(),
                start < PERFORMANCE_SAMPLE_CAPACITY,
                start == (if self.len == PERFORMANCE_SAMPLE_CAPACITY {
                    self.next as int
                } else {
                    0
                }),
                offset <= self.len,
                samples@ == self.view().subrange(0, offset as int),
            decreases self.len - offset,
        {
            samples.push(self.values[(start + offset) % PERFORMANCE_SAMPLE_CAPACITY]);
            offset = offset + 1;
            assert(samples@ =~= self.view().subrange(0, offset as int));
        }
        assert(samples@ =~= self.view());
        samples
    }

    /// The sum of the samples.
    pub fn sum(&self) -> (sum: u128)
        requires
            self.well_formed(),
        ensures
            sum == window_sum(self.view()),
    {
        let samples = self.copy_ordered();
        let mut sum: u128 = 0;
        let mut index: usize = 0;
        while index < samples.len()
            invariant
                samples@ == self.view(),
                samples@.len() <= PERFORMANCE_SAMPLE_CAPACITY,
                index <= samples@.len(),
                sum == window_sum(samples@.subrange(0, index as int)),
                sum <= index * 18446744073709551615,
            decreases samples@.len() - index,
        {
            assert(samples@.subrange(0, index + 1).drop_last() =~= samples@.subrange(
                0,
                index as int,
            ));
            sum = sum + samples[index] as u128;
            index = index + 1;
        }
        assert(samples@.subrange(0, index as int) =~= samples@);
        sum
    }

    /// The largest sample, or zero for an empty window.
    pub fn max(&self) -> (max: u64)
        requires
            self.well_formed(),
        ensures
            max == window_max(self.view()),
    {
        let samples = self.copy_ordered();
        let mut max: u64 = 0;
        let mut index: usize = 0;
        while index < samples.len()
            invariant
                samples@ == self.view(),
                index <= samples@.len(),
                max == window_max(samples@.subrange(0, index as int)),
            decreases samples@.len() - index,
        {
            assert(samples@.subrange(0, index + 1).drop_last() =~= samples@.subrange(
                0,
                index as int,
            ));
            if samples[index] > max {
                max = samples[index];
            }
            index = index + 1;
        }
        assert(samples@.subrange(0, index as int) =~= samples@);
        max
    }

    /// The nearest-rank 95th percentile of the samples, or zero for an empty window.
    pub fn percentile_95(&self) -> (p95: u64)
        requires
            self.well_formed(),
        ensures
            self.view().len() == 0 ==> p95 == 0,
            self.view().len() > 0 ==> exists|sorted: Seq<u64>|
                is_sorted_permutation(self.view(), sorted) && p95 == sorted[nearest_rank(
                    self.view().len(),
                    95,
                ) - 1],
    {
        let mut samples = self.copy_ordered();
        let ghost window = samples@;
        match percentile_sample(&mut samples, 95) {
            Some(p95) => {
                assert(is_sorted_permutation(window, samples@));
                p95
            },
            None => 0,
        }
    }
}

/// The summary of one window that the overlay shows.
#[derive(Debug, Clone, Copy, PartialEq, Eq)]
pub struct WindowStats {
    pub len: usize,
    pub last: u64,
    pub sum: u128,
    pub max: u64,
    pub p95: u64,
}

/// The summary describes the window.
pub open spec fn stats_of(window: Seq<u64>, stats: WindowStats) -> bool {
    &&& stats.len == window.len()
    &&& stats.last == (if window.len() == 0 {
        0
    } else {
        window.last()
    })
    &&& stats.sum == window_sum(window)
    &&& stats.max == window_max(window)
    &&& (window.len() == 0 ==> stats.p95 == 0)
    &&& (window.len() > 0 ==> exists|sorted: Seq<u64>|
        is_sorted_permutation(window, sorted) && stats.p95 == sorted[nearest_rank(
            window.len(),
            95,
        ) - 1])
}

/// The maximum of a window is one of its samples and no sample exceeds it; an
/// empty window's maximum is zero.
pub proof fn lemma_window_max_is_largest(window: Seq<u64>)
    ensures
        forall|i: int| 0 <= i < window.len() ==> #[trigger] window[i] <= window_max(window),
        window.len() > 0 ==> exists|i: int| 0 <= i < window.len() && #[trigger] window[i] == window_max(window),
        window.len() == 0 ==> window_max(window) == 0,
    decreases window.len(),
{
    if window.len() > 0 {
        let rest = window.drop_last();
        lemma_window_max_is_largest(rest);
        assert forall|i: int| 0 <= i < window.len() implies #[trigger] window[i] <= window_max(window) by {
            if i < window.len() - 1 {
                assert(window[i] == rest[i]);
            }
        }
        if window.last() > window_max(rest) || rest.len() == 0 {
            assert(window[window.len() - 1] == window_max(window));
        } else {
            let j = choose|j: int| 0 <= j < rest.len() && #[trigger] rest[j] == window_max(rest);
            assert(window[j] == rest[j]);
        }
    }
}

/// The maximum that a summary reports is the largest sample of the window it
/// describes, and zero for an empty window: no sample exceeds it and one equals it.
pub proof fn lemma_reported_max_is_largest(window: Seq<u64>, stats: WindowStats)
    requires
        stats_of(window, stats),
    ensures
        forall|i: int| 0 <= i < window.len() ==> #[trigger] window[i] <= stats.max,
        window.len() > 0 ==> exists|i: int| 0 <= i < window.len() && #[trigger] window[i] == stats.max,
        window.len() == 0 ==> stats.max == 0,
{
    lemma_window_max_is_largest(window);
}

impl SampleWindow {
    /// Summarises the window.
    pub fn stats(&self) -> (stats: WindowStats)
        requires
            self.well_formed(),
        ensures
            stats_of(self.view(), stats),
    {
        WindowStats {
            len: self.len(),
            last: self.last(),
            sum: self.sum(),
            max: self.max(),
            p95: self.percentile_95(),
        }
    }
}

/// The counters of the current sampling session.
#[derive(Debug, Clone, Copy, PartialEq, Eq)]
pub struct MonitorCounters {
    pub frame_count: u64,
    pub input_sample_count: u64,
    pub visible_strokes: usize,
    pub visible_operations: usize,
    pub incremental_sync_count: u64,
    pub region_rebuild_count: u64,
    pub full_rebuild_count: u64,
    pub slow_frame_count: u64,
    pub managed_gpu_bytes: u64,
}

/// Counters of a session that has recorded nothing.
pub open spec fn zero_counters() -> MonitorCounters {
    MonitorCounters {
        frame_count: 0,
        input_sample_count: 0,
        visible_strokes: 0,
        visible_operations: 0,
        incremental_sync_count: 0,
        region_rebuild_count: 0,
        full_rebuild_count: 0,
        slow_frame_count: 0,
        managed_gpu_bytes: 0,
    }
}

/// A counter after one more event; it stays at its maximum.
pub open spec fn inc(count: u64) -> u64 {
    if count < u64::MAX {
        (count + 1) as u64
    } else {
        count
    }
}

/// The counters after recording `sample`.
pub open spec fn counters_after(c: MonitorCounters, sample: PerformanceFrameSample) -> MonitorCounters {
    MonitorCounters {
        frame_count: inc(c.frame_count),
        input_sample_count: if sample.input_latency is Some {
            inc(c.input_sample_count)
        } else {
            c.input_sample_count
        },
        visible_strokes: match sample.visible_strokes {
            Some(count) => count,
            None => c.visible_strokes,
        },
        visible_operations: match sample.visible_operations {
            Some(count) => count,
            None => c.visible_operations,
        },
        incremental_sync_count: if sample.ink_sync is Incremental {
            inc(c.incremental_sync_count)
        } else {
            c.incremental_sync_count
        },
        region_rebuild_count: if sample.ink_sync is RegionRebuild {
            inc(c.region_rebuild_count)
        } else {
            c.region_rebuild_count
        },
        full_rebuild_count: if sample.ink_sync is FullRebuild {
            inc(c.full_rebuild_count)
        } else {
            c.full_rebuild_count
        },
        slow_frame_count: if sample.frame_time >= SLOW_FRAME_THRESHOLD_NANOS {
            inc(c.slow_frame_count)
        } else {
            c.slow_frame_count
        },
        managed_gpu_bytes: sample.managed_gpu_bytes,
    }
}

/// Aggregates the render thread's presented frames into fixed-capacity windows.
pub struct PerformanceMonitor {
    enabled: bool,
    frame_times: SampleWindow,
    render_times: SampleWindow,
    input_latencies: SampleWindow,
    present_intervals: SampleWindow,
    last_presented_at: Option<u64>,
    counters: MonitorCounters,
}

/// The abstract state of the monitor.
pub struct MonitorView {
    pub enabled: bool,
    pub frame_times: Seq<u64>,
    pub render_times: Seq<u64>,
    pub input_latencies: Seq<u64>,
    pub present_intervals: Seq<u64>,
    pub last_presented_at: Option<u64>,
    pub counters: MonitorCounters,
}

/// The present-interval window after a frame presented at `at`: an interval longer
/// than a second is an idle gap and empties the window.
pub open spec fn intervals_after(intervals: Seq<u64>, last: Option<u64>, at: u64) -> Seq<u64> {
    match last {
        None => intervals,
        Some(previous) => {
            let interval = if at >= previous {
                (at - previous) as u64
            } else {
                0
            };
            if interval > ACTIVE_INTERVAL_LIMIT_NANOS {
                Seq::empty()
            } else {
                window_push(intervals, interval)
            }
        },
    }
}

/// The state of a monitor right after sampling was switched on or created.
pub open spec fn fresh_monitor(enabled: bool) -> MonitorView {
    MonitorView {
        enabled,
        frame_times: Seq::empty(),
        render_times: Seq::empty(),
        input_latencies: Seq::empty(),
        present_intervals: Seq::empty(),
        last_presented_at: None,
        counters: zero_counters(),
    }
}

impl PerformanceMonitor {
    /// The abstract state.
    pub closed spec fn view(&self) -> MonitorView {
        MonitorView {
            enabled: self.enabled,
            frame_times: self.frame_times.view(),
            render_times: self.render_times.view(),
            input_latencies: self.input_latencies.view(),
            present_intervals: self.present_intervals.view(),
            last_presented_at: self.last_presented_at,
            counters: self.counters,
        }
    }

    /// The windows are consistent.
    pub closed spec fn well_formed(&self) -> bool {
        &&& self.frame_times.well_formed()
        &&& self.render_times.well_formed()
        &&& self.input_latencies.well_formed()
        &&& self.present_intervals.well_formed()
    }

    /// A monitor that is off and has no data.
    pub fn new() -> (monitor: PerformanceMonitor)
        ensures
            monitor.well_formed(),
            monitor.view() == fresh_monitor(false),
    {
        PerformanceMonitor {
            enabled: false,
            frame_times: SampleWindow::new(),
            render_times: SampleWindow::new(),
            input_latencies: SampleWindow::new(),
            present_intervals: SampleWindow::new(),
            last_presented_at: None,
            counters: MonitorCounters {
                frame_count: 0,
                input_sample_count: 0,
                visible_strokes: 0,
                visible_operations: 0,
                incremental_sync_count: 0,
                region_rebuild_count: 0,
                full_rebuild_count: 0,
                slow_frame_count: 0,
                managed_gpu_bytes: 0,
            },
        }
    }

    /// Whether a sampling session is on.
    pub fn enabled(&self) -> (enabled: bool)
        ensures
            enabled == self.view().enabled,
    {
        self.enabled
    }

    /// The counters of the current session.
    pub fn counters(&self) -> (counters: MonitorCounters)
        ensures
            counters == self.view().counters,
    {
        self.counters
    }

    /// Switches sampling; switching it on starts a fresh session and returns `true`.
    pub fn set_enabled(&mut self, enabled: bool) -> (started: bool)
        requires
            old(self).well_formed(),
        ensures
            final(self).well_formed(),
            started == (enabled && !old(self).view().enabled),
            old(self).view().enabled == enabled ==> final(self).view() == old(self).view(),
            old(self).view().enabled != enabled && enabled ==> final(self).view() == fresh_monitor(
                true,
            ),
            old(self).view().enabled != enabled && !enabled ==> final(self).view() == (MonitorView {
                enabled: false,
                ..old(self).view()
            }),
    {
        if self.enabled == enabled {
            return false;
        }
        self.enabled = enabled;
        if enabled {
            self.frame_times.clear();
            self.render_times.clear();
            self.input_latencies.clear();
            self.present_intervals.clear();
            self.last_presented_at = None;
            self.counters = MonitorCounters {
                frame_count: 0,
                input_sample_count: 0,
                visible_strokes: 0,
                visible_operations: 0,
                incremental_sync_count: 0,
                region_rebuild_count: 0,
                full_rebuild_count: 0,
                slow_frame_count: 0,
                managed_gpu_bytes: 0,
            };
        }
        enabled
    }

    /// Records one presented frame and returns whether it was slow; nothing is
    /// recorded while sampling is off.
    pub fn record_frame(&mut self, sample: PerformanceFrameSample) -> (slow: bool)
        requires
            old(self).well_formed(),
        ensures
            final(self).well_formed(),
            !old(self).view().enabled ==> !slow && final(self).view() == old(self).view(),
            old(self).view().enabled ==> {
                &&& slow == (sample.frame_time >= SLOW_FRAME_THRESHOLD_NANOS)
                &&& final(self).view() == (MonitorView {
                    enabled: true,
                    frame_times: window_push(old(self).view().frame_times, sample.frame_time),
                    render_times: window_push(old(self).view().render_times, sample.render_time),
                    input_latencies: match sample.input_latency {
                        Some(latency) => window_push(old(self).view().input_latencies, latency),
                        None => old(self).view().input_latencies,
                    },
                    present_intervals: intervals_after(
                        old(self).view().present_intervals,
                        old(self).view().last_presented_at,
                        sample.presented_at,
                    ),
                    last_presented_at: Some(sample.presented_at),
                    counters: counters_after(old(self).view().counters, sample),
                })
            },
    {
        if !self.enabled {
            return false;
        }
        if let Some(previous) = self.last_presented_at {
            let interval = sample.presented_at.saturating_sub(previous);
            if interval > ACTIVE_INTERVAL_LIMIT_NANOS {
                self.present_intervals.clear();
            } else {
                self.present_intervals.push(interval);
            }
        }
        self.last_presented_at = Some(sample.presented_at);
        self.frame_times.push(sample.frame_time);
        self.render_times.push(sample.render_time);
        if let Some(latency) = sample.input_latency {
            self.input_latencies.push(latency);
            self.counters.input_sample_count = self.counters.input_sample_count.saturating_add(1);
        }
        if let Some(visible_strokes) = sample.visible_strokes {
            self.counters.visible_strokes = visible_strokes;
        }
        if let Some(visible_operations) = sample.visible_operations {
            self.counters.visible_operations = visible_operations;
        }
        match sample.ink_sync {
            PerformanceInkSync::Unchanged => {},
            PerformanceInkSync::Incremental => {
                self.counters.incremental_sync_count = self.counters.incremental_sync_count.saturating_add(1);
            },
            PerformanceInkSync::RegionRebuild => {
                self.counters.region_rebuild_count = self.counters.region_rebuild_count.saturating_add(1);
            },
            PerformanceInkSync::FullRebuild => {
                self.counters.full_rebuild_count = self.counters.full_rebuild_count.saturating_add(1);
            },
        }
        let slow = sample.frame_time >= SLOW_FRAME_THRESHOLD_NANOS;
        self.counters.frame_count = self.counters.frame_count.saturating_add(1);
        if slow {
            self.counters.slow_frame_count = self.counters.slow_frame_count.saturating_add(1);
        }
        self.counters.managed_gpu_bytes = sample.managed_gpu_bytes;
        slow
    }

    /// The frame-time window's summary.
    pub fn frame_stats(&self) -> (stats: WindowStats)
        requires
            self.well_formed(),
        ensures
            stats_of(self.view().frame_times, stats),
    {
        self.frame_times.stats()
    }

    /// The render-time window's summary.
    pub fn render_stats(&self) -> (stats: WindowStats)
        requires
            self.well_formed(),
        ensures
            stats_of(self.view().render_times, stats),
    {
        self.render_times.stats()
    }

    /// The input-latency window's summary.
    pub fn input_stats(&self) -> (stats: WindowStats)
        requires
            self.well_formed(),
        ensures
            stats_of(self.view().input_latencies, stats),
    {
        self.input_latencies.stats()
    }

    /// The present-interval window's summary, from which the overlay derives its FPS.
    pub fn present_stats(&self) -> (stats: WindowStats)
        requires
            self.well_formed(),
        ensures
            stats_of(self.view().present_intervals, stats),
    {
        self.present_intervals.stats()
    }

    /// The frame times, oldest first, for the overlay's history graph.
    pub fn frame_history(&self) -> (history: Vec<u64>)
        requires
            self.well_formed(),
        ensures
            history@ == self.view().frame_times,
    {
        self.frame_times.copy_ordered()
    }
}

} // verus!
