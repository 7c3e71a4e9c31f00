//! Sizes and byte estimates of the persistent ink surface, and the kind of
//! work one frame's synchronisation does on it.

use vstd::prelude::*;

use crate::ink::model::OperationId;

verus! {

/// The largest side a surface may have: the graphics backend takes sizes as `i32`.
pub const MAX_SURFACE_SIDE: u32 = 2147483647;

/// Bytes of one RGBA pixel.
pub const BYTES_PER_PIXEL: usize = 4;

/// `value` clamped to the largest `usize`.
pub open spec fn saturated(value: int) -> int {
    if value > usize::MAX {
        usize::MAX as int
    } else {
        value
    }
}

/// `a * b`, saturating at the largest `usize`.
pub fn saturating_mul(a: usize, b: usize) -> (product: usize)
    ensures
        product == saturated(a * b),
{
    match a.checked_mul(b) {
        Some(product) => product,
        None => usize::MAX,
    }
}

/// Saturating once at the end gives what saturating after every factor gives.
pub proof fn lemma_saturate_late(value: int, factor: int)
    requires
        value >= 0,
        factor >= 1,
    ensures
        saturated(saturated(value) * factor) == saturated(value * factor),
{
    if value > usize::MAX {
        assert(value * factor >= value) by (nonlinear_arith)
            requires
                value >= 0,
                factor >= 1,
        ;
        assert(usize::MAX * factor >= usize::MAX) by (nonlinear_arith)
            requires
                factor >= 1,
        ;
    }
}

/// The surface size for a logical size: each side at least one pixel, `None`
/// where a side does not fit the backend's `i32`.
pub open spec fn surface_size_of(logical_size: [u32; 2]) -> Option<[u32; 2]> {
    let width: u32 = if logical_size[0] == 0 { 1 } else { logical_size[0] };
    let height: u32 = if logical_size[1] == 0 { 1 } else { logical_size[1] };
    if width <= MAX_SURFACE_SIDE && height <= MAX_SURFACE_SIDE {
        Some([width, height])
    } else {
        None
    }
}

/// The pixel size of the 1x ink surface for a logical size; sizes beyond the
/// backend's `i32` range are refused.
pub fn surface_size(logical_size: [u32; 2]) -> (size: Option<[u32; 2]>)
    ensures
        size == surface_size_of(logical_size),
{
    let width: u32 = if logical_size[0] == 0 { 1 } else { logical_size[0] };
    let height: u32 = if logical_size[1] == 0 { 1 } else { logical_size[1] };
    if width <= MAX_SURFACE_SIDE && height <= MAX_SURFACE_SIDE {
        Some([width, height])
    } else {
        None
    }
}

/// A conservative estimate of the colour buffer of a 1x RGBA surface:
/// width × height × 4 bytes, saturating.
pub fn estimate_surface_bytes(render_size: [u32; 2]) -> (bytes: usize)
    ensures
        bytes == saturated(render_size[0] * render_size[1] * 4),
{
    let pixels = saturating_mul(render_size[0] as usize, render_size[1] as usize);
    let bytes = saturating_mul(pixels, BYTES_PER_PIXEL);
    proof {
        lemma_saturate_late(render_size[0] * render_size[1], 4);
    }
    bytes
}

/// The work one frame's synchronisation does on the persistent ink surface.
#[derive(Debug, Clone, Copy, PartialEq, Eq, Structural)]
pub enum InkSyncKind {
    Unchanged,
    Incremental,
    RegionRebuild,
    FullRebuild,
}

/// Whether the operations the surface has drawn are still the start of the
/// document's history: the count fits and the last drawn identifier is where
/// it was.
pub open spec fn drawn_prefix_matches(
    applied_count: int,
    last_applied: Option<OperationId>,
    history: Seq<OperationId>,
) -> bool {
    applied_count <= history.len() && match last_applied {
        Some(id) => applied_count > 0 && history[applied_count - 1] == id,
        None => applied_count == 0,
    }
}

/// The kind of synchronisation a frame does: a requested full rebuild, then a
/// pending region rebuild, then a full rebuild when the drawn history no
/// longer matches, else nothing or an incremental draw of the new operations.
pub open spec fn sync_kind_of(
    full_rebuild_requested: bool,
    region_rebuild_pending: bool,
    applied_count: int,
    last_applied: Option<OperationId>,
    history: Seq<OperationId>,
) -> InkSyncKind {
    if full_rebuild_requested {
        InkSyncKind::FullRebuild
    } else if region_rebuild_pending {
        InkSyncKind::RegionRebuild
    } else if !drawn_prefix_matches(applied_count, last_applied, history) {
        InkSyncKind::FullRebuild
    } else if applied_count == history.len() {
        InkSyncKind::Unchanged
    } else {
        InkSyncKind::Incremental
    }
}

/// Decides the synchronisation work for a frame from the surface's record of
/// what it drew and the identifiers of the document's operations.
pub fn sync_kind(
    full_rebuild_requested: bool,
    region_rebuild_pending: bool,
    applied_operation_count: usize,
    last_operation_id: Option<OperationId>,
    history: &[OperationId],
) -> (kind: InkSyncKind)
    ensures
        kind == sync_kind_of(
            full_rebuild_requested,
            region_rebuild_pending,
            applied_operation_count as int,
            last_operation_id,
            history@,
        ),
{
    if full_rebuild_requested {
        return InkSyncKind::FullRebuild;
    }
    if region_rebuild_pending {
        return InkSyncKind::RegionRebuild;
    }
    let prefix_still_matches = applied_operation_count <= history.len() && match last_operation_id {
        Some(last_id) => applied_operation_count > 0 && history[applied_operation_count - 1]
            == last_id,
        None => applied_operation_count == 0,
    };
    if !prefix_still_matches {
        InkSyncKind::FullRebuild
    } else if applied_operation_count == history.len() {
        InkSyncKind::Unchanged
    } else {
        InkSyncKind::Incremental
    }
}

} // verus!
