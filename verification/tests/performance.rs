use steady_ink::performance::monitor::{
    PerformanceFrameSample, PerformanceInkSync, PerformanceMonitor, PERFORMANCE_SAMPLE_CAPACITY,
};
use steady_ink::performance::sort::{percentile_sample, sort_samples};
use steady_ink::performance::tracker::{
    PerformanceTracker, RedrawReason, PERCENTILE_50, PERCENTILE_95, REPORT_INTERVAL_NANOS,
};

const MILLISECOND: u64 = 1_000_000;

fn milliseconds(nanos: u64) -> f64 {
    nanos as f64 / MILLISECOND as f64
}

#[test]
fn percentile_uses_nearest_rank_within_sample_range() {
    let mut samples: Vec<u64> = (1..=100).map(|ms| ms * MILLISECOND).collect();

    assert_eq!(
        percentile_sample(&mut samples, PERCENTILE_50).map(milliseconds),
        Some(50.0)
    );
    assert_eq!(
        percentile_sample(&mut samples, PERCENTILE_95).map(milliseconds),
        Some(95.0)
    );

    let mut short_window = vec![10 * MILLISECOND, 20 * MILLISECOND];
    assert_eq!(
        percentile_sample(&mut short_window, PERCENTILE_95).map(milliseconds),
        Some(20.0)
    );
}

#[test]
fn percentile_of_nothing_is_none_and_sorting_orders() {
    let mut empty: Vec<u64> = Vec::new();
    assert_eq!(percentile_sample(&mut empty, PERCENTILE_95), None);
    let mut values = vec![5, 1, 4, 1, 3];
    sort_samples(&mut values);
    assert_eq!(values, vec![1, 1, 3, 4, 5]);
    let mut unsorted = vec![30, 10, 20];
    assert_eq!(percentile_sample(&mut unsorted, PERCENTILE_50), Some(20));
    assert_eq!(unsorted, vec![10, 20, 30]);
}

#[test]
fn disabled_tracker_returns_no_frame_sample() {
    let mut tracker = PerformanceTracker::with_enabled(false, 0);

    assert_eq!(tracker.begin_frame(0), None);
    assert!(tracker.finish_frame(None, 0).is_none());
    assert_eq!(tracker.next_report_deadline(), None);
}

#[test]
fn enabled_tracker_consumes_pending_input_once() {
    let mut tracker = PerformanceTracker::with_enabled(true, 0);
    tracker.record_pointer_batch(3, 1_000);

    let started = tracker.begin_frame(2_000);
    let first = tracker
        .finish_frame(started, 3_000)
        .expect("an enabled tracker samples every frame");
    let started = tracker.begin_frame(4_000);
    let second = tracker
        .finish_frame(started, 5_000)
        .expect("later presents still produce samples");

    assert!(first.input_to_display.is_some());
    assert_eq!(second.input_to_display, None);
    assert_eq!(tracker.pointer_batch_count(), 1);
    assert_eq!(tracker.pointer_sample_count(), 3);
}

#[test]
fn tracker_measures_frame_and_input_latency() {
    let mut tracker = PerformanceTracker::with_enabled(true, 0);
    tracker.record_pointer_batch(2, 100);
    tracker.record_pointer_batch(5, 150);
    let sample = tracker.finish_frame(Some(120), 400).expect("sample");
    assert_eq!(sample.frame_duration, 280);
    assert_eq!(sample.input_to_display, Some(300));
    assert_eq!(tracker.frame_count(), 1);
    assert_eq!(tracker.pointer_batch_count(), 2);
    assert_eq!(tracker.pointer_sample_count(), 7);
    assert_eq!(tracker.next_report_deadline(), Some(REPORT_INTERVAL_NANOS));
}

#[test]
fn tracker_reports_the_closed_window_and_starts_afresh() {
    let mut tracker = PerformanceTracker::with_enabled(true, 0);
    tracker.record_redraw(RedrawReason::PointerInput);
    tracker.record_redraw(RedrawReason::PointerInput);
    tracker.record_surface_rebuild();
    tracker.finish_frame(Some(0), 10 * MILLISECOND);
    tracker.finish_frame(Some(10 * MILLISECOND), 30 * MILLISECOND);
    assert!(tracker.take_report().is_none());
    tracker.finish_frame(Some(30 * MILLISECOND), REPORT_INTERVAL_NANOS);
    let report = tracker.take_report().expect("the window closed");
    assert_eq!(report.frames, 3);
    assert_eq!(report.surface_rebuilds, 1);
    assert_eq!(report.redraw_counts[RedrawReason::PointerInput.index()], 2);
    assert_eq!(report.frame_p50, Some(20 * MILLISECOND));
    assert_eq!(report.input_to_display_p50, None);
    assert_eq!(tracker.frame_count(), 0);
    assert_eq!(
        tracker.next_report_deadline(),
        Some(2 * REPORT_INTERVAL_NANOS)
    );
}

#[test]
fn final_report_is_made_only_when_frames_were_seen() {
    let mut idle = PerformanceTracker::with_enabled(true, 0);
    assert!(idle.final_report(10).is_none());
    let mut busy = PerformanceTracker::with_enabled(true, 0);
    busy.finish_frame(Some(0), 5);
    let report = busy.final_report(10).expect("a frame was seen");
    assert_eq!(report.frames, 1);
    let mut off = PerformanceTracker::with_enabled(false, 0);
    assert!(off.final_report(10).is_none());
}

#[test]
fn redraw_reasons_have_distinct_slots() {
    let reasons = [
        RedrawReason::Startup,
        RedrawReason::WindowEvent,
        RedrawReason::Egui,
        RedrawReason::UiCommand,
        RedrawReason::PointerInput,
        RedrawReason::SlideShow,
        RedrawReason::AnimationTimer,
    ];
    let slots: Vec<usize> = reasons.iter().map(|reason| reason.index()).collect();
    assert_eq!(slots, vec![0, 1, 2, 3, 4, 5, 6]);
}

fn sample(base: u64, index: u64, frame_ms: u64) -> PerformanceFrameSample {
    PerformanceFrameSample {
        presented_at: base + index * 16 * MILLISECOND,
        frame_time: frame_ms * MILLISECOND,
        render_time: frame_ms.saturating_sub(1) * MILLISECOND,
        input_latency: None,
        visible_strokes: Some(4),
        visible_operations: Some(5),
        ink_sync: PerformanceInkSync::Unchanged,
        managed_gpu_bytes: 8 * 1024 * 1024,
    }
}

fn fps(monitor: &PerformanceMonitor) -> f64 {
    let stats = monitor.present_stats();
    if stats.len == 0 {
        return 0.0;
    }
    let average = stats.sum as f64 / stats.len as f64 / MILLISECOND as f64;
    if average > f64::EPSILON {
        1_000.0 / average
    } else {
        0.0
    }
}

#[test]
fn disabled_monitor_does_not_record() {
    let mut monitor = PerformanceMonitor::new();

    assert!(!monitor.record_frame(sample(0, 0, 12)));
    assert_eq!(monitor.counters().frame_count, 0);
    assert_eq!(monitor.frame_stats().len, 0);
    assert!(monitor.frame_history().is_empty());
}

#[test]
fn frame_samples_update_aggregates_and_counts() {
    let base = 1_000 * MILLISECOND;
    let mut monitor = PerformanceMonitor::new();
    assert!(monitor.set_enabled(true));
    monitor.record_frame(sample(base, 0, 10));
    let mut second = sample(base, 1, 20);
    second.input_latency = Some(24 * MILLISECOND);
    second.ink_sync = PerformanceInkSync::RegionRebuild;
    monitor.record_frame(second);
    let mut third = sample(base, 2, 30);
    third.ink_sync = PerformanceInkSync::FullRebuild;
    monitor.record_frame(third);

    let counters = monitor.counters();
    let frames = monitor.frame_stats();
    let inputs = monitor.input_stats();
    assert_eq!(counters.frame_count, 3);
    assert!((fps(&monitor) - 62.5).abs() < 0.01);
    assert_eq!(milliseconds((frames.sum / frames.len as u128) as u64), 20.0);
    assert_eq!(milliseconds(frames.p95), 30.0);
    assert_eq!(milliseconds(frames.max), 30.0);
    assert_eq!(counters.input_sample_count, 1);
    assert_eq!(milliseconds((inputs.sum / inputs.len as u128) as u64), 24.0);
    assert_eq!(counters.region_rebuild_count, 1);
    assert_eq!(counters.full_rebuild_count, 1);
    assert_eq!(counters.visible_strokes, 4);
    assert_eq!(counters.visible_operations, 5);
}

#[test]
fn frame_history_is_bounded_and_chronological() {
    let base = 0;
    let mut monitor = PerformanceMonitor::new();
    monitor.set_enabled(true);
    for index in 0..130 {
        monitor.record_frame(sample(base, index, index));
    }

    let history = monitor.frame_history();
    assert_eq!(history.len(), PERFORMANCE_SAMPLE_CAPACITY);
    assert_eq!(history.first().copied().map(milliseconds), Some(10.0));
    assert_eq!(history.last().copied().map(milliseconds), Some(129.0));
}

#[test]
fn idle_gap_resets_active_fps_window() {
    let base = 0;
    let mut monitor = PerformanceMonitor::new();
    monitor.set_enabled(true);
    monitor.record_frame(sample(base, 0, 8));
    monitor.record_frame(sample(base, 1, 8));
    assert!(fps(&monitor) > 0.0);

    let mut after_idle = sample(base, 2, 8);
    after_idle.presented_at = base + 2_000 * MILLISECOND;
    monitor.record_frame(after_idle);

    assert_eq!(fps(&monitor), 0.0);
}

#[test]
fn reenabling_starts_a_fresh_session() {
    let mut monitor = PerformanceMonitor::new();
    monitor.set_enabled(true);
    monitor.record_frame(sample(0, 0, 12));
    monitor.set_enabled(false);
    assert_eq!(monitor.counters().frame_count, 1);
    assert!(!monitor.enabled());

    assert!(monitor.set_enabled(true));
    assert_eq!(monitor.counters().frame_count, 0);
    assert!(monitor.enabled());
}

#[test]
fn slow_frame_threshold_is_inclusive() {
    let mut monitor = PerformanceMonitor::new();
    monitor.set_enabled(true);

    assert!(monitor.record_frame(sample(0, 0, 33)));
    assert_eq!(monitor.counters().slow_frame_count, 1);
    assert!(!monitor.record_frame(sample(0, 1, 32)));
    assert_eq!(monitor.counters().slow_frame_count, 1);
}

#[test]
fn sync_kinds_are_counted_separately() {
    let mut monitor = PerformanceMonitor::new();
    monitor.set_enabled(true);
    let mut incremental = sample(0, 0, 5);
    incremental.ink_sync = PerformanceInkSync::Incremental;
    incremental.visible_strokes = None;
    monitor.record_frame(incremental);
    let counters = monitor.counters();
    assert_eq!(counters.incremental_sync_count, 1);
    assert_eq!(counters.region_rebuild_count, 0);
    assert_eq!(counters.visible_strokes, 0);
    assert_eq!(counters.managed_gpu_bytes, 8 * 1024 * 1024);
    let render = monitor.render_stats();
    assert_eq!(render.len, 1);
    assert_eq!(render.last, 4 * MILLISECOND);
}

use steady_ink::performance::benchmark::{
    benchmark_enabled, benchmark_failures, benchmark_operation, input_samples_complete,
    BenchmarkFailure, INPUT_P95_LIMIT_NANOS, operation_counts_complete,
    BenchmarkOperation, BenchmarkProgress, BenchmarkStep, DRAW_OPERATION_COUNT,
    ERASE_OPERATION_COUNT, TOTAL_OPERATION_COUNT,
};
use steady_ink::performance::tracker::FrameSample;

#[test]
fn workload_generator_creates_required_operation_mix() {
    let mut progress = BenchmarkProgress::new();
    let mut draws = 0;
    let mut erases = 0;
    let mut sample = None;
    loop {
        match progress.after_present(sample).expect("the scenario advances") {
            BenchmarkStep::Next(BenchmarkOperation::Draw(_)) => draws += 1,
            BenchmarkStep::Next(BenchmarkOperation::Erase(_)) => erases += 1,
            BenchmarkStep::Complete => break,
        }
        sample = Some(FrameSample {
            frame_duration: 5,
            input_to_display: Some(7),
        });
    }

    assert_eq!(draws + erases, TOTAL_OPERATION_COUNT);
    assert_eq!(draws, DRAW_OPERATION_COUNT);
    assert_eq!(erases, ERASE_OPERATION_COUNT);
    assert_eq!(progress.measured_operations(), TOTAL_OPERATION_COUNT);
    assert_eq!(progress.frame_durations().len(), TOTAL_OPERATION_COUNT);
    assert_eq!(progress.input_latencies().len(), TOTAL_OPERATION_COUNT);
}

#[test]
fn benchmark_needs_every_waited_sample() {
    let mut progress = BenchmarkProgress::new();
    assert_eq!(
        progress.after_present(None),
        Ok(BenchmarkStep::Next(BenchmarkOperation::Draw(0)))
    );
    assert_eq!(
        progress.after_present(None),
        Err("GPU 压力场景未收到已启用的帧性能样本".to_owned())
    );
    assert_eq!(
        progress.after_present(Some(FrameSample {
            frame_duration: 1,
            input_to_display: None
        })),
        Err("GPU 压力场景帧缺少输入到显示延迟样本".to_owned())
    );
    assert_eq!(progress.queued_operations(), 1);
    assert_eq!(progress.measured_operations(), 0);
}

#[test]
fn benchmark_operations_are_indexed_and_bounded() {
    assert_eq!(benchmark_operation(0), Ok(BenchmarkOperation::Draw(0)));
    assert_eq!(benchmark_operation(999), Ok(BenchmarkOperation::Draw(999)));
    assert_eq!(benchmark_operation(1000), Ok(BenchmarkOperation::Erase(0)));
    assert_eq!(benchmark_operation(1199), Ok(BenchmarkOperation::Erase(199)));
    assert_eq!(
        benchmark_operation(1200),
        Err("GPU 压力场景收到越界 operation 索引 1200".to_owned())
    );
}

#[test]
fn benchmark_switch_accepts_one_or_true() {
    assert!(benchmark_enabled(Some("1")));
    assert!(benchmark_enabled(Some("TRUE")));
    assert!(benchmark_enabled(Some("tRuE")));
    assert!(!benchmark_enabled(Some("yes")));
    assert!(!benchmark_enabled(Some("")));
    assert!(!benchmark_enabled(Some("10")));
    assert!(!benchmark_enabled(None));
}

use steady_ink::performance::export::{export_file_name, MEMORY_SCOPE, PERFORMANCE_SCHEMA_VERSION};

#[test]
fn export_names_are_zero_padded_and_unique_per_nanosecond() {
    assert_eq!(
        export_file_name(2024, 5, 6, 7, 8, 9, 42),
        "steady-ink-performance-20240506-070809-000000042.json"
    );
    assert_eq!(
        export_file_name(12345, 12, 31, 23, 59, 59, 999_999_999),
        "steady-ink-performance-123451231-235959-999999999.json"
    );
    assert_eq!(
        export_file_name(-5, 1, 1, 0, 0, 0, 0),
        format!("steady-ink-performance-{:04}0101-000000-{:09}.json", -5, 0)
    );
    assert_eq!(PERFORMANCE_SCHEMA_VERSION, 1);
    assert_eq!(MEMORY_SCOPE, "managed_render_resources_estimate");
}

#[test]
fn benchmark_counts_must_cover_every_operation() {
    let total = TOTAL_OPERATION_COUNT;
    assert!(operation_counts_complete(total, total, total));
    assert!(!operation_counts_complete(total, total - 1, total));
    assert!(!operation_counts_complete(total, total, total + 1));
    assert!(input_samples_complete(total));
    assert!(!input_samples_complete(0));
}

#[test]
fn benchmark_verdict_lists_every_failure_in_order() {
    let total = TOTAL_OPERATION_COUNT;
    assert!(benchmark_failures("Intel(R) UHD 0x8086", false, total, total, total, total, Some(INPUT_P95_LIMIT_NANOS)).is_empty());
    assert_eq!(
        benchmark_failures("AMD 0x1002", true, total, total - 1, total, 3, Some(INPUT_P95_LIMIT_NANOS + 1)),
        vec![
            BenchmarkFailure::NotIntelAdapter,
            BenchmarkFailure::SoftwareFallback,
            BenchmarkFailure::OperationCountMismatch { queued: total, measured: total - 1, document: total },
            BenchmarkFailure::InputSampleCountMismatch(3),
            BenchmarkFailure::InputP95TooSlow(INPUT_P95_LIMIT_NANOS + 1),
        ]
    );
    assert_eq!(
        benchmark_failures("0x8086", false, total, total, total, total, None),
        vec![BenchmarkFailure::MissingInputP95]
    );
}
