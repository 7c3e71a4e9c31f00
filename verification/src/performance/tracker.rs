//! The optional runtime performance tracker: redraw sources, pointer batches, frame
//! times and input-to-display latencies, summarised in reporting windows.
//!
//! Instants are nanoseconds on the caller's monotonic clock; durations are nanoseconds.

use vstd::prelude::*;
use super::sort::{is_sorted_permutation, nearest_rank, percentile_sample};

verus! {

/// Length of one reporting window: five seconds.
pub const REPORT_INTERVAL_NANOS: u64 = 5000000000;
/// Percentile reported as the median.
pub const PERCENTILE_50: usize = 50;
/// Percentile reported as the tail.
pub const PERCENTILE_95: usize = 95;
/// Number of redraw sources.
pub const REDRAW_REASON_COUNT: usize = 7;

/// The runtime source of a window redraw request.
#[derive(Debug, Clone, Copy, PartialEq, Eq, Structural)]
pub enum RedrawReason {
    Startup,
    WindowEvent,
    Egui,
    UiCommand,
    PointerInput,
    SlideShow,
    AnimationTimer,
}

/// The counter slot of each redraw source.
pub open spec fn reason_index(reason: RedrawReason) -> usize {
    match reason {
        RedrawReason::Startup => 0,
        RedrawReason::WindowEvent => 1,
        RedrawReason::Egui => 2,
        RedrawReason::UiCommand => 3,
        RedrawReason::PointerInput => 4,
        RedrawReason::SlideShow => 5,
        RedrawReason::AnimationTimer => 6,
    }
}

impl RedrawReason {
    /// Returns the counter slot of this source.
    pub fn index(self) -> (index: usize)
        ensures
            index == reason_index(self),
            index < REDRAW_REASON_COUNT,
    {
        match self {
            RedrawReason::Startup => 0,
            RedrawReason::WindowEvent => 1,
            RedrawReason::Egui => 2,
            RedrawReason::UiCommand => 3,
            RedrawReason::PointerInput => 4,
            RedrawReason::SlideShow => 5,
            RedrawReason::AnimationTimer => 6,
        }
    }
}

/// The frame time of one completed present, and the input-to-display latency when
/// input was waiting for it.
#[derive(Debug, Clone, Copy, PartialEq, Eq)]
pub struct FrameSample {
    pub frame_duration: u64,
    pub input_to_display: Option<u64>,
}

/// The summary of one reporting window.
#[derive(Debug, Clone, PartialEq, Eq)]
pub struct PerformanceReport {
    pub frames: u64,
    pub pointer_batches: u64,
    pub pointer_samples: u64,
    pub frame_p50: Option<u64>,
    pub frame_p95: Option<u64>,
    pub input_to_display_p50: Option<u64>,
    pub input_to_display_p95: Option<u64>,
    pub surface_rebuilds: u64,
    pub redraw_counts: Vec<u64>,
}

/// The optional low-overhead runtime sampler.
pub struct PerformanceTracker {
    enabled: bool,
    report_started_at: u64,
    frame_durations: Vec<u64>,
    input_latencies: Vec<u64>,
    pending_input_at: Option<u64>,
    frame_count: u64,
    pointer_batch_count: u64,
    pointer_sample_count: u64,
    surface_rebuild_count: u64,
    redraw_counts: Vec<u64>,
    last_report: Option<PerformanceReport>,
}

/// The abstract state of the tracker.
pub struct TrackerView {
    pub enabled: bool,
    pub report_started_at: u64,
    pub frame_durations: Seq<u64>,
    pub input_latencies: Seq<u64>,
    pub pending_input_at: Option<u64>,
    pub frame_count: u64,
    pub pointer_batch_count: u64,
    pub pointer_sample_count: u64,
    pub surface_rebuild_count: u64,
    pub redraw_counts: Seq<u64>,
}

/// A counter after one more event; it stays at its maximum.
pub open spec fn saturating_inc(count: u64) -> u64 {
    if count < u64::MAX {
        (count + 1) as u64
    } else {
        count
    }
}

/// The sum of two counters, staying at the maximum.
pub open spec fn saturating_sum(a: u64, b: u64) -> u64 {
    if a + b <= u64::MAX {
        (a + b) as u64
    } else {
        u64::MAX
    }
}

/// The time from `earlier` to `later`, zero when `later` is not after it.
pub open spec fn elapsed(earlier: u64, later: u64) -> u64 {
    if later >= earlier {
        (later - earlier) as u64
    } else {
        0
    }
}

/// A window with no samples and all counters at zero, started at `now`.
pub open spec fn fresh_window(enabled: bool, now: u64) -> TrackerView {
    TrackerView {
        enabled,
        report_started_at: now,
        frame_durations: Seq::empty(),
        input_latencies: Seq::empty(),
        pending_input_at: None,
        frame_count: 0,
        pointer_batch_count: 0,
        pointer_sample_count: 0,
        surface_rebuild_count: 0,
        redraw_counts: Seq::new(REDRAW_REASON_COUNT as nat, |i: int| 0u64),
    }
}

/// The report's percentile is the nearest-rank percentile of the window's samples.
pub open spec fn is_percentile_of(samples: Seq<u64>, percentile: nat, value: Option<u64>) -> bool {
    if samples.len() == 0 {
        value is None
    } else {
        exists|sorted: Seq<u64>|
            is_sorted_permutation(samples, sorted) && value == Some(
                sorted[nearest_rank(samples.len(), percentile) - 1],
            )
    }
}

/// The report summarises the window `w`.
pub open spec fn report_of(w: TrackerView, report: PerformanceReport) -> bool {
    &&& report.frames == w.frame_count
    &&& report.pointer_batches == w.pointer_batch_count
    &&& report.pointer_samples == w.pointer_sample_count
    &&& report.surface_rebuilds == w.surface_rebuild_count
    &&& report.redraw_counts@ == w.redraw_counts
    &&& is_percentile_of(w.frame_durations, PERCENTILE_50 as nat, report.frame_p50)
    &&& is_percentile_of(w.frame_durations, PERCENTILE_95 as nat, report.frame_p95)
    &&& is_percentile_of(w.input_latencies, PERCENTILE_50 as nat, report.input_to_display_p50)
    &&& is_percentile_of(w.input_latencies, PERCENTILE_95 as nat, report.input_to_display_p95)
}

impl PerformanceTracker {
    /// The abstract state.
    pub closed spec fn view(&self) -> TrackerView {
        TrackerView {
            enabled: self.enabled,
            report_started_at: self.report_started_at,
            frame_durations: self.frame_durations@,
            input_latencies: self.input_latencies@,
            pending_input_at: self.pending_input_at,
            frame_count: self.frame_count,
            pointer_batch_count: self.pointer_batch_count,
            pointer_sample_count: self.pointer_sample_count,
            surface_rebuild_count: self.surface_rebuild_count,
            redraw_counts: self.redraw_counts@,
        }
    }

    /// The report made by the last window that closed, not yet taken.
    pub closed spec fn pending_report(&self) -> Option<PerformanceReport> {
        self.last_report
    }

    /// The tracker keeps one counter per redraw source.
    pub closed spec fn well_formed(&self) -> bool {
        self.redraw_counts@.len() == REDRAW_REASON_COUNT
    }

    /// A tracker with the given switch, its first window starting at `now`.
    pub fn with_enabled(enabled: bool, now: u64) -> (tracker: PerformanceTracker)
        ensures
            tracker.view() == fresh_window(enabled, now),
            tracker.pending_report() is None,
            tracker.well_formed(),
    {
        let mut redraw_counts: Vec<u64> = Vec::new();
        let mut i: usize = 0;
        while i < REDRAW_REASON_COUNT
            invariant
                i <= REDRAW_REASON_COUNT,
                redraw_counts@ == Seq::new(i as nat, |k: int| 0u64),
            decreases REDRAW_REASON_COUNT - i,
        {
            redraw_counts.push(0);
            i = i + 1;
            assert(redraw_counts@ =~= Seq::new(i as nat, |k: int| 0u64));
        }
        PerformanceTracker {
            enabled,
            report_started_at: now,
            frame_durations: Vec::new(),
            input_latencies: Vec::new(),
            pending_input_at: None,
            frame_count: 0,
            pointer_batch_count: 0,
            pointer_sample_count: 0,
            surface_rebuild_count: 0,
            redraw_counts,
            last_report: None,
        }
    }

    /// Whether sampling is on.
    pub fn enabled(&self) -> (enabled: bool)
        ensures
            enabled == self.view().enabled,
    {
        self.enabled
    }

    /// Frames completed in the current window.
    pub fn frame_count(&self) -> (count: u64)
        ensures
            count == self.view().frame_count,
    {
        self.frame_count
    }

    /// Pointer batches recorded in the current window.
    pub fn pointer_batch_count(&self) -> (count: u64)
        ensures
            count == self.view().pointer_batch_count,
    {
        self.pointer_batch_count
    }

    /// Raw pointer samples recorded in the current window.
    pub fn pointer_sample_count(&self) -> (count: u64)
        ensures
            count == self.view().pointer_sample_count,
    {
        self.pointer_sample_count
    }

    /// Counts one redraw request from `reason`.
    pub fn record_redraw(&mut self, reason: RedrawReason)
        requires
            old(self).well_formed(),
        ensures
            final(self).well_formed(),
            final(self).pending_report() == old(self).pending_report(),
            final(self).view() == (if old(self).view().enabled {
                TrackerView {
                    redraw_counts: old(self).view().redraw_counts.update(
                        reason_index(reason) as int,
                        saturating_inc(old(self).view().redraw_counts[reason_index(reason) as int]),
                    ),
                    ..old(self).view()
                }
            } else {
                old(self).view()
            }),
    {
        if self.enabled {
            let index = reason.index();
            let count = self.redraw_counts[index];
            let next = if count < u64::MAX {
                count + 1
            } else {
                count
            };
            self.redraw_counts.set(index, next);
        }
    }

    /// Records a pointer batch of `sample_count` raw samples that waits to be
    /// displayed; the first waiting batch's arrival `now` is what the next frame's
    /// latency is measured from.
    pub fn record_pointer_batch(&mut self, sample_count: usize, now: u64)
        ensures
            final(self).well_formed() == old(self).well_formed(),
            final(self).pending_report() == old(self).pending_report(),
            final(self).view() == (if !old(self).view().enabled || sample_count == 0 {
                old(self).view()
            } else {
                TrackerView {
                    pending_input_at: match old(self).view().pending_input_at {
                        Some(at) => Some(at),
                        None => Some(now),
                    },
                    pointer_batch_count: saturating_inc(old(self).view().pointer_batch_count),
                    pointer_sample_count: saturating_sum(
                        old(self).view().pointer_sample_count,
                        sample_count as u64,
                    ),
                    ..old(self).view()
                }
            }),
    {
        if !self.enabled || sample_count == 0 {
            return;
        }
        if self.pending_input_at.is_none() {
            self.pending_input_at = Some(now);
        }
        self.pointer_batch_count = self.pointer_batch_count.saturating_add(1);
        self.pointer_sample_count = self.pointer_sample_count.saturating_add(sample_count as u64);
    }

    /// Counts one full-size surface rebuild after a window size change.
    pub fn record_surface_rebuild(&mut self)
        ensures
            final(self).well_formed() == old(self).well_formed(),
            final(self).pending_report() == old(self).pending_report(),
            final(self).view() == (if old(self).view().enabled {
                TrackerView {
                    surface_rebuild_count: saturating_inc(old(self).view().surface_rebuild_count),
                    ..old(self).view()
                }
            } else {
                old(self).view()
            }),
    {
        if self.enabled {
            self.surface_rebuild_count = self.surface_rebuild_count.saturating_add(1);
        }
    }

    /// The start of a frame: `now` while sampling is on, else no time at all.
    pub fn begin_frame(&self, now: u64) -> (started_at: Option<u64>)
        ensures
            started_at == (if self.view().enabled {
                Some(now)
            } else {
                None
            }),
    {
        if self.enabled {
            Some(now)
        } else {
            None
        }
    }

    /// When the current window is due to be reported, while sampling is on.
    pub fn next_report_deadline(&self) -> (deadline: Option<u64>)
        ensures
            deadline == (if self.view().enabled {
                Some(saturating_sum(self.view().report_started_at, REPORT_INTERVAL_NANOS))
            } else {
                None
            }),
    {
        if self.enabled {
            Some(self.report_started_at.saturating_add(REPORT_INTERVAL_NANOS))
        } else {
            None
        }
    }

    /// Closes the current window at `now`: summarises it and starts a fresh one.
    pub fn report(&mut self, now: u64) -> (report: PerformanceReport)
        requires
            old(self).well_formed(),
            old(self).view().frame_durations.len() * PERCENTILE_95 + 99 <= usize::MAX,
            old(self).view().input_latencies.len() * PERCENTILE_95 + 99 <= usize::MAX,
        ensures
            report_of(old(self).view(), report),
            final(self).view() == fresh_window(old(self).view().enabled, now),
            final(self).well_formed(),
            final(self).pending_report() == old(self).pending_report(),
    {
        let ghost frames = self.frame_durations@;
        let ghost inputs = self.input_latencies@;
        let frame_p50 = percentile_sample(&mut self.frame_durations, PERCENTILE_50);
        let ghost frames_sorted_once = self.frame_durations@;
        let frame_p95 = percentile_sample(&mut self.frame_durations, PERCENTILE_95);
        let input_p50 = percentile_sample(&mut self.input_latencies, PERCENTILE_50);
        let ghost inputs_sorted_once = self.input_latencies@;
        let input_p95 = percentile_sample(&mut self.input_latencies, PERCENTILE_95);
        proof {
            assert(is_sorted_permutation(frames, frames_sorted_once));
            assert(is_sorted_permutation(frames, self.frame_durations@));
            assert(is_sorted_permutation(inputs, inputs_sorted_once));
            assert(is_sorted_permutation(inputs, self.input_latencies@));
        }
        let mut counts: Vec<u64> = Vec::new();
        std::mem::swap(&mut counts, &mut self.redraw_counts);
        let report = PerformanceReport {
            frames: self.frame_count,
            pointer_batches: self.pointer_batch_count,
            pointer_samples: self.pointer_sample_count,
            frame_p50,
            frame_p95,
            input_to_display_p50: input_p50,
            input_to_display_p95: input_p95,
            surface_rebuilds: self.surface_rebuild_count,
            redraw_counts: counts,
        };
        let last_report = self.last_report.take();
        *self = PerformanceTracker::with_enabled(self.enabled, now);
        self.last_report = last_report;
        report
    }

    /// Closes the window at `now` when sampling is on and the window is five seconds
    /// old; the report waits in `take_report`.
    pub fn report_if_due(&mut self, now: u64)
        requires
            old(self).well_formed(),
            old(self).view().frame_durations.len() * PERCENTILE_95 + 99 <= usize::MAX,
            old(self).view().input_latencies.len() * PERCENTILE_95 + 99 <= usize::MAX,
        ensures
            final(self).well_formed(),
            (old(self).view().enabled && elapsed(old(self).view().report_started_at, now)
                >= REPORT_INTERVAL_NANOS) ==> {
                &&& final(self).view() == fresh_window(true, now)
                &&& final(self).pending_report() matches Some(report) && report_of(
                    old(self).view(),
                    report,
                )
            },
            !(old(self).view().enabled && elapsed(old(self).view().report_started_at, now)
                >= REPORT_INTERVAL_NANOS) ==> final(self).view() == old(self).view()
                && final(self).pending_report() == old(self).pending_report(),
    {
        if self.enabled && now.saturating_sub(self.report_started_at) >= REPORT_INTERVAL_NANOS {
            let report = self.report(now);
            self.last_report = Some(report);
        }
    }

    /// Completes a frame at `now` that began at `frame_started_at`: records its frame
    /// time and, when input was waiting, its input-to-display latency, which is then
    /// consumed. Nothing happens while sampling is off or when the frame has no start.
    pub fn finish_frame(&mut self, frame_started_at: Option<u64>, now: u64) -> (sample: Option<
        FrameSample,
    >)
        requires
            old(self).well_formed(),
            old(self).view().frame_durations.len() + 1 < usize::MAX / 100,
            old(self).view().input_latencies.len() + 1 < usize::MAX / 100,
        ensures
            final(self).well_formed(),
            !old(self).view().enabled || frame_started_at is None ==> sample is None
                && final(self).view() == old(self).view() && final(self).pending_report()
                == old(self).pending_report(),
            old(self).view().enabled && frame_started_at is Some ==> {
                let started = frame_started_at->Some_0;
                let latency = match old(self).view().pending_input_at {
                    Some(at) => Some(elapsed(at, now)),
                    None => None,
                };
                let recorded = TrackerView {
                    frame_durations: old(self).view().frame_durations.push(elapsed(started, now)),
                    input_latencies: match latency {
                        Some(l) => old(self).view().input_latencies.push(l),
                        None => old(self).view().input_latencies,
                    },
                    pending_input_at: None,
                    frame_count: saturating_inc(old(self).view().frame_count),
                    ..old(self).view()
                };
                &&& sample == Some(
                    FrameSample { frame_duration: elapsed(started, now), input_to_display: latency },
                )
                &&& if elapsed(recorded.report_started_at, now) >= REPORT_INTERVAL_NANOS {
                    &&& final(self).view() == fresh_window(true, now)
                    &&& final(self).pending_report() matches Some(report) && report_of(
                        recorded,
                        report,
                    )
                } else {
                    final(self).view() == recorded && final(self).pending_report()
                        == old(self).pending_report()
                }
            },
    {
        if !self.enabled {
            return None;
        }
        let started = match frame_started_at {
            Some(started) => started,
            None => return None,
        };
        let frame_duration = now.saturating_sub(started);
        let input_to_display = match self.pending_input_at.take() {
            Some(input_at) => Some(now.saturating_sub(input_at)),
            None => None,
        };
        self.frame_durations.push(frame_duration);
        if let Some(latency) = input_to_display {
            self.input_latencies.push(latency);
        }
        self.frame_count = self.frame_count.saturating_add(1);
        self.report_if_due(now);
        Some(FrameSample { frame_duration, input_to_display })
    }

    /// Takes the report of the last window that closed.
    pub fn take_report(&mut self) -> (report: Option<PerformanceReport>)
        ensures
            report == old(self).pending_report(),
            final(self).pending_report() is None,
            final(self).view() == old(self).view(),
            final(self).well_formed() == old(self).well_formed(),
    {
        self.last_report.take()
    }

    /// The report of the last, incomplete window when the application exits: made
    /// only while sampling is on and the window saw a frame or a pointer sample.
    pub fn final_report(&mut self, now: u64) -> (report: Option<PerformanceReport>)
        requires
            old(self).well_formed(),
            old(self).view().frame_durations.len() * PERCENTILE_95 + 99 <= usize::MAX,
            old(self).view().input_latencies.len() * PERCENTILE_95 + 99 <= usize::MAX,
        ensures
            final(self).well_formed(),
            (old(self).view().enabled && (old(self).view().frame_count > 0
                || old(self).view().pointer_sample_count > 0)) ==> (report matches Some(r)
                && report_of(old(self).view(), r)),
            !(old(self).view().enabled && (old(self).view().frame_count > 0
                || old(self).view().pointer_sample_count > 0)) ==> report is None
                && final(self).view() == old(self).view(),
    {
        if self.enabled && (self.frame_count > 0 || self.pointer_sample_count > 0) {
            Some(self.report(now))
        } else {
            None
        }
    }
}

} // verus!
