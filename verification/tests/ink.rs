use steady_ink::ink::model::{EraserSize, InkColor, InkTool, OperationId, PenWidth};
use steady_ink::ink::page_store::PageKey;
use steady_ink::ink::surface::{estimate_surface_bytes, surface_size, sync_kind, InkSyncKind};
use steady_ink::ink::surface_pool::{estimate_surface_bytes as pooled, InkSurfaceConfig, SurfacePool};

#[test]
fn surface_size_stays_at_logical_resolution() {
    assert_eq!(surface_size([1919, 1079]), Some([1919, 1079]));
    assert_eq!(surface_size([0, 0]), Some([1, 1]));
    assert_eq!(surface_size([u32::MAX, 1]), None);
}

#[test]
fn surface_bytes_are_four_per_pixel_and_saturate() {
    assert_eq!(estimate_surface_bytes([1920, 1080]), 1920 * 1080 * 4);
    assert_eq!(estimate_surface_bytes([0, 5]), 0);
    assert_eq!(surface_size([1, i32::MAX as u32]), Some([1, i32::MAX as u32]));
    assert_eq!(surface_size([1, i32::MAX as u32 + 1]), None);
}

fn ids(values: &[u64]) -> Vec<OperationId> {
    values.iter().map(|value| OperationId::new(*value)).collect()
}

#[test]
fn sync_kind_follows_the_drawn_history() {
    let history = ids(&[1, 2, 3]);
    assert_eq!(sync_kind(true, true, 3, Some(OperationId::new(3)), &history), InkSyncKind::FullRebuild);
    assert_eq!(sync_kind(false, true, 3, Some(OperationId::new(3)), &history), InkSyncKind::RegionRebuild);
    assert_eq!(sync_kind(false, false, 3, Some(OperationId::new(3)), &history), InkSyncKind::Unchanged);
    assert_eq!(sync_kind(false, false, 2, Some(OperationId::new(2)), &history), InkSyncKind::Incremental);
    assert_eq!(sync_kind(false, false, 0, None, &history), InkSyncKind::Incremental);
    assert_eq!(sync_kind(false, false, 2, Some(OperationId::new(9)), &history), InkSyncKind::FullRebuild);
    assert_eq!(sync_kind(false, false, 4, Some(OperationId::new(3)), &history), InkSyncKind::FullRebuild);
    assert_eq!(sync_kind(false, false, 1, None, &history), InkSyncKind::FullRebuild);
    assert_eq!(sync_kind(false, false, 0, None, &[]), InkSyncKind::Unchanged);
}

fn off_config() -> InkSurfaceConfig {
    InkSurfaceConfig { sample_count: 0 }
}

#[test]
fn pooled_estimate_counts_msaa_samples() {
    assert_eq!(pooled([64, 64], off_config()), 64 * 64 * 4);
    assert_eq!(pooled([64, 64], InkSurfaceConfig { sample_count: 4 }), 64 * 64 * 4 * 5);
    assert_eq!(pooled([u32::MAX, u32::MAX], InkSurfaceConfig { sample_count: usize::MAX }), usize::MAX);
}

#[test]
fn exact_match_reuses_surface() {
    let mut pool: SurfacePool<(u32, u32)> = SurfacePool::new(5, 5 * 1024 * 1024);
    pool.release_at((64, 64), [64, 64], off_config(), 0);

    let surface = pool
        .acquire([64, 64], off_config())
        .expect("an exact match returns the pooled surface");

    assert_eq!(surface, (64, 64));
    assert_eq!(pool.stats().reused_count, 1);
    assert_eq!(pool.stats().idle_count, 0);
}

#[test]
fn similar_size_does_not_match() {
    let mut pool: SurfacePool<(u32, u32)> = SurfacePool::new(5, 5 * 1024 * 1024);
    pool.release_at((64, 64), [64, 64], off_config(), 0);

    let surface = pool.acquire([68, 68], off_config()).unwrap_or((68, 68));

    assert_eq!(surface, (68, 68));
    assert_eq!(pool.stats().created_count, 1);
    assert_eq!(pool.stats().idle_count, 1);
}

#[test]
fn entry_limit_evicts_oldest_surface() {
    let second = 1_000_000_000;
    let mut pool: SurfacePool<(u32, u32)> = SurfacePool::new(2, 5 * 1024 * 1024);
    let start = 7;
    pool.release_at((32, 32), [32, 32], off_config(), start);
    pool.release_at((48, 48), [48, 48], off_config(), start + second);
    pool.release_at((64, 64), [64, 64], off_config(), start + 2 * second);

    assert_eq!(pool.stats().idle_count, 2);
    assert_eq!(pool.stats().eviction_count, 1);
    let sizes: Vec<[u32; 2]> = (0..pool.stats().idle_count)
        .map(|index| pool.entry(index).render_size)
        .collect();
    assert!(sizes.iter().all(|size| *size != [32, 32]));
    assert!(sizes.iter().any(|size| *size == [48, 48]));
    assert!(sizes.iter().any(|size| *size == [64, 64]));
}

#[test]
fn memory_limit_is_enforced() {
    let mut pool: SurfacePool<u8> = SurfacePool::new(5, 5 * 1024 * 1024);
    pool.release_at(1, [768, 768], off_config(), 0);
    pool.release_at(2, [768, 768], off_config(), 1);
    pool.release_at(3, [768, 768], off_config(), 2);

    assert_eq!(pool.stats().idle_count, 2);
    assert!(pool.stats().estimated_bytes <= 5 * 1024 * 1024);
}

#[test]
fn gc_removes_expired_surfaces() {
    let second = 1_000_000_000;
    let mut pool: SurfacePool<(u32, u32)> = SurfacePool::new(5, 5 * 1024 * 1024);
    let start = 3;
    pool.release_at((32, 32), [32, 32], off_config(), start);
    pool.release_at((48, 48), [48, 48], off_config(), start + 20 * second);

    pool.gc_at(start + 31 * second, 30 * second);

    assert_eq!(pool.stats().idle_count, 1);
    assert_eq!(pool.entry(0).render_size, [48, 48]);
}

#[test]
fn oversized_or_disabled_pools_drop_surfaces() {
    let mut none: SurfacePool<u8> = SurfacePool::new(0, 1 << 30);
    none.release_at(1, [8, 8], off_config(), 0);
    assert_eq!(none.stats().idle_count, 0);
    let mut small: SurfacePool<u8> = SurfacePool::new(4, 100);
    small.release_at(1, [8, 8], off_config(), 0);
    assert_eq!(small.stats().idle_count, 0);
    assert_eq!(small.stats().eviction_count, 0);
}

#[test]
fn clear_counts_every_idle_surface_as_evicted() {
    let mut pool: SurfacePool<u8> = SurfacePool::new(4, 1 << 30);
    pool.release_at(1, [8, 8], off_config(), 0);
    pool.release_at(2, [9, 9], off_config(), 0);
    pool.clear();
    let stats = pool.stats();
    assert_eq!((stats.idle_count, stats.estimated_bytes, stats.eviction_count), (0, 0, 2));
}

#[test]
fn acquire_takes_the_first_fit_and_keeps_bytes_consistent() {
    let mut pool: SurfacePool<u8> = SurfacePool::new(4, 1 << 30);
    pool.release_at(1, [8, 8], off_config(), 0);
    pool.release_at(2, [8, 8], off_config(), 1);
    pool.release_at(3, [8, 8], InkSurfaceConfig { sample_count: 4 }, 2);
    assert_eq!(pool.stats().estimated_bytes, 8 * 8 * 4 * 2 + 8 * 8 * 4 * 5);
    assert_eq!(pool.acquire([8, 8], InkSurfaceConfig { sample_count: 4 }), Some(3));
    assert_eq!(pool.acquire([8, 8], off_config()), Some(1));
    assert_eq!(pool.stats().estimated_bytes, 8 * 8 * 4);
    assert_eq!(pool.acquire([8, 8], off_config()), Some(2));
    assert_eq!(pool.acquire([8, 8], off_config()), None);
}

#[test]
fn tool_values_match_the_toolbar() {
    assert_eq!(InkColor::Red.rgba(), [220, 38, 38, 255]);
    assert_eq!(InkColor::White.rgba(), [255, 255, 255, 255]);
    assert_eq!(PenWidth::Px16.pixel_count(), 16);
    assert_eq!(EraserSize::Px72.pixel_count(), 72);
    assert_eq!(InkTool::default_tool(), InkTool::Pen);
    assert_eq!(OperationId::new(42).get(), 42);
}

#[test]
fn page_keys_are_one_based() {
    assert!(PageKey::new(0).is_none());
    assert_eq!(PageKey::new(3).map(PageKey::show_position), Some(3));
}

use steady_ink::ink::document::{GeometryFault, InkDocument, InkOperation, OperationKind};
use steady_ink::ink::page_store::{PageInkEntry, PageInkStore};

/// A stroke's points, carried through the history unread.
type Stroke = Vec<(f32, f32)>;

fn append(document: &mut InkDocument<Stroke>, kind: OperationKind, points: Stroke) -> OperationId {
    document.allocate_operation_id();
    document.push_operation(kind, points)
}

#[test]
fn operation_finds_ids_across_undo_gap() {
    let mut document: InkDocument<Stroke> = InkDocument::new();
    let removed_id = append(&mut document, OperationKind::DrawStroke, vec![(0.0, 0.0), (4.0, 4.0)]);
    document.undo();
    let retained_id = append(&mut document, OperationKind::DrawStroke, vec![(8.0, 8.0), (12.0, 12.0)]);

    assert!(document.operation(removed_id).is_none());
    assert_eq!(
        document.operation(retained_id).map(|operation| operation.id),
        Some(retained_id)
    );
    assert_ne!(removed_id, retained_id);
}

#[test]
fn recovery_rejects_exhausted_operation_id() {
    let document: InkDocument<Stroke> = InkDocument::from_parts(Vec::new(), u64::MAX);

    assert!(document.validate_recovery(None).is_err());
    assert_eq!(
        document.validate_recovery(None),
        Err("墨迹 operation id 已耗尽".to_owned())
    );
}

#[test]
fn recovery_rejects_inconsistent_clear_bounds() {
    let mut document: InkDocument<Stroke> = InkDocument::new();
    append(&mut document, OperationKind::DrawStroke, vec![(4.0, 4.0)]);
    append(&mut document, OperationKind::Clear, Vec::new());

    assert!(document.validate_recovery(None).is_ok());
    assert_eq!(
        document.validate_recovery(Some((1, GeometryFault::ClearBoundsMismatch))),
        Err("清屏 operation bounds 与此前可见墨迹不一致".to_owned())
    );
}

#[test]
fn recovery_reports_the_first_faulty_operation() {
    let operation = |id: u64| InkOperation {
        id: OperationId::new(id),
        kind: OperationKind::DrawStroke,
        content: Vec::new(),
    };
    let out_of_order: InkDocument<Stroke> =
        InkDocument::from_parts(vec![operation(1), operation(3), operation(2)], 3);
    assert_eq!(
        out_of_order.validate_recovery(Some((2, GeometryFault::InvalidGeometry))),
        Err("墨迹 operation id 不满足严格单调约束".to_owned())
    );
    assert_eq!(
        out_of_order.validate_recovery(Some((1, GeometryFault::InvalidGeometry))),
        Err("墨迹 operation 含有无效或非有限几何".to_owned())
    );
    let beyond_allocator: InkDocument<Stroke> = InkDocument::from_parts(vec![operation(5)], 4);
    assert!(beyond_allocator.validate_recovery(None).is_err());
    let zero: InkDocument<Stroke> = InkDocument::from_parts(vec![operation(0)], 4);
    assert!(zero.validate_recovery(None).is_err());
    let fine: InkDocument<Stroke> = InkDocument::from_parts(vec![operation(2), operation(4)], 4);
    assert_eq!(fine.validate_recovery(None), Ok(()));
}

#[test]
fn replay_starts_after_the_last_clear() {
    let mut document: InkDocument<Stroke> = InkDocument::new();
    assert!(document.has_no_history());
    assert_eq!(document.replay_start(), 0);
    append(&mut document, OperationKind::DrawStroke, vec![(1.0, 1.0)]);
    append(&mut document, OperationKind::Clear, Vec::new());
    let after = append(&mut document, OperationKind::EraseStroke, vec![(2.0, 2.0)]);
    assert_eq!(document.replay_start(), 2);
    let replay = document.replay_operations();
    assert_eq!(replay.len(), 1);
    assert_eq!(replay[0].id, after);
    assert_eq!(document.operations().len(), 3);
    let undone = document.undo().expect("an operation to undo");
    assert_eq!(undone.id, after);
    assert_eq!(document.replay_operations().len(), 0);
    assert!(document.last_id_is_current() == false);
}

#[test]
fn page_store_keeps_each_position_apart() {
    let first = PageKey::new(1).expect("a valid page key");
    let second = PageKey::new(2).expect("a valid page key");
    let mut store: PageInkStore<Stroke> = PageInkStore::new();
    store.save(
        first,
        PageInkEntry {
            stable_slide_id: Some(10),
            document: vec![(1.0, 1.0)],
        },
    );
    store.save(second, PageInkEntry::default());
    assert_eq!(store.saved_page_count(), 2);
    let taken = store.take(first);
    assert_eq!(taken.stable_slide_id, Some(10));
    assert_eq!(taken.document, vec![(1.0, 1.0)]);
    assert_eq!(store.saved_page_count(), 1);
    let fresh = store.take(first);
    assert_eq!(fresh.stable_slide_id, None);
    assert!(fresh.document.is_empty());
    store.clear();
    assert_eq!(store.saved_page_count(), 0);
}

#[test]
fn undo_reverts_an_append_or_a_clear() {
    let mut document: InkDocument<u32> = InkDocument::new();
    assert!(document.undo().is_none());
    assert!(document.has_no_history());
    let stroke = document.append_operation(OperationKind::DrawStroke, 10);
    let before: Vec<u32> = document.operations().iter().map(|op| op.content).collect();
    let cleared = document.clear(Some(99)).expect("visible ink is cleared");
    assert!(document.clear(None).is_none());
    let undone = document.undo().expect("the clear is undone");
    assert_eq!(undone.id, cleared);
    assert_eq!(undone.kind, OperationKind::Clear);
    let after: Vec<u32> = document.operations().iter().map(|op| op.content).collect();
    assert_eq!(before, after);
    let undone = document.undo().expect("the stroke is undone");
    assert_eq!(undone.id, stroke);
    assert!(document.has_no_history());
    let again = document.append_operation(OperationKind::EraseStroke, 5);
    assert!(again.get() > cleared.get());
}

#[test]
fn an_empty_stroke_adds_nothing_and_uses_no_id() {
    let mut document: InkDocument<Stroke> = InkDocument::new();
    let empty: Vec<(f32, f32)> = Vec::new();
    assert_eq!(document.append_stroke(OperationKind::DrawStroke, &empty, Some(Vec::new())), None);
    assert!(document.has_no_history());

    let points = vec![(0.0, 0.0), (4.0, 4.0)];
    let first = document.append_stroke(OperationKind::DrawStroke, &points, Some(points.clone()));
    assert_eq!(first.map(|id| id.get()), Some(1));

    let unbuildable = vec![(f32::NAN, 0.0)];
    assert_eq!(document.append_stroke(OperationKind::EraseStroke, &unbuildable, None), None);
    assert_eq!(document.operations().len(), 1);

    let next = document.append_stroke(OperationKind::EraseStroke, &points, Some(points.clone()));
    assert_eq!(next.map(|id| id.get()), Some(3));
    assert_eq!(document.operations().len(), 2);
}
