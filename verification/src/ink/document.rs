//! The structured ink history of one canvas or slideshow position: operations
//! with strictly increasing identifiers that undo never reuses, lookup by
//! identifier, and the part after the last clear that a blank canvas replays.
//!
//! An operation's geometry is carried unread; what is checked of it (finite
//! coordinates, bounds) is reported by the caller.

use vstd::prelude::*;

use crate::ink::model::OperationId;
use crate::text::{push_str, string_from_chars};

verus! {

/// The three kinds of ink operation.
#[derive(Debug, Clone, Copy, PartialEq, Eq, Structural)]
pub enum OperationKind {
    DrawStroke,
    EraseStroke,
    Clear,
}

/// One operation of the history.
#[derive(Debug, Clone, PartialEq)]
pub struct InkOperation<T> {
    pub id: OperationId,
    pub kind: OperationKind,
    pub content: T,
}

/// The identifiers increase strictly along the history.
pub open spec fn ids_increasing<T>(operations: Seq<InkOperation<T>>) -> bool {
    forall|i: int, j: int|
        0 <= i < j < operations.len() ==> operations[i].id.value() < operations[j].id.value()
}

/// Every identifier is positive and was handed out, that is at most `next_id`.
pub open spec fn ids_allocated<T>(operations: Seq<InkOperation<T>>, next_id: u64) -> bool {
    forall|i: int|
        0 <= i < operations.len() ==> 0 < #[trigger] operations[i].id.value() <= next_id
}

/// The index after the last clear; zero when there is none.
pub open spec fn replay_start_of<T>(operations: Seq<InkOperation<T>>) -> int
    decreases operations.len(),
{
    if operations.len() == 0 {
        0
    } else if operations.last().kind is Clear {
        operations.len() as int
    } else {
        replay_start_of(operations.drop_last())
    }
}

/// What is wrong with one operation's geometry, as the caller found it.
#[derive(Debug, Clone, Copy, PartialEq, Eq, Structural)]
pub enum GeometryFault {
    /// A coordinate or width is not finite, or the cached bounds do not match.
    InvalidGeometry,
    /// A clear's bounds differ from the ink that was visible before it.
    ClearBoundsMismatch,
}

/// The index of the first operation whose identifier is out of order (zero,
/// not above the one before, or above `next_id`).
pub open spec fn first_bad_id<T>(operations: Seq<InkOperation<T>>, next_id: u64) -> Option<int> {
    if exists|i: int| 0 <= i < operations.len() && #[trigger] id_out_of_order(operations, i, next_id) {
        Some(
            choose|i: int|
                {
                    &&& 0 <= i < operations.len()
                    &&& id_out_of_order(operations, i, next_id)
                    &&& forall|j: int| 0 <= j < i ==> !id_out_of_order(operations, j, next_id)
                },
        )
    } else {
        None
    }
}

/// The identifier at `i` is zero, not above the one before it, or above `next_id`.
pub open spec fn id_out_of_order<T>(operations: Seq<InkOperation<T>>, i: int, next_id: u64) -> bool {
    let id = operations[i].id.value();
    id == 0 || (i > 0 && id <= operations[i - 1].id.value()) || id > next_id
}

/// The outcome of checking a recovered history.
#[derive(Debug, Clone, Copy, PartialEq, Eq, Structural)]
pub enum RecoveryCheck {
    /// The identifier allocator is at its end.
    Exhausted,
    /// The identifier at this index is out of order.
    BadId(usize),
    /// The geometry at this index is faulty.
    Geometry(usize, GeometryFault),
    /// Everything holds.
    Valid,
}

/// What checking a recovered history finds: the allocator's end first, then
/// the first operation that fails, its identifier checked before its geometry.
pub open spec fn recovery_check<T>(
    operations: Seq<InkOperation<T>>,
    next_id: u64,
    first_fault: Option<(usize, GeometryFault)>,
) -> RecoveryCheck {
    if next_id == u64::MAX {
        RecoveryCheck::Exhausted
    } else {
        match (first_bad_id(operations, next_id), first_fault) {
            (Some(i), Some((f, fault))) => if i <= f {
                RecoveryCheck::BadId(i as usize)
            } else {
                RecoveryCheck::Geometry(f, fault)
            },
            (Some(i), None) => RecoveryCheck::BadId(i as usize),
            (None, Some((f, fault))) => if f < operations.len() {
                RecoveryCheck::Geometry(f, fault)
            } else {
                RecoveryCheck::Valid
            },
            (None, None) => RecoveryCheck::Valid,
        }
    }
}

/// The message of each failed check.
pub open spec fn recovery_error_text(check: RecoveryCheck) -> Seq<char> {
    match check {
        RecoveryCheck::Exhausted => "墨迹 operation id 已耗尽"@,
        RecoveryCheck::BadId(_) => "墨迹 operation id 不满足严格单调约束"@,
        RecoveryCheck::Geometry(_, GeometryFault::InvalidGeometry) => "墨迹 operation 含有无效或非有限几何"@,
        RecoveryCheck::Geometry(_, GeometryFault::ClearBoundsMismatch) => "清屏 operation bounds 与此前可见墨迹不一致"@,
        RecoveryCheck::Valid => Seq::empty(),
    }
}

/// The ink history of one canvas.
#[derive(Debug, Clone)]
pub struct InkDocument<T> {
    operations: Vec<InkOperation<T>>,
    next_operation_id: u64,
}

impl<T> InkDocument<T> {
    /// The operations, oldest first, including those a later clear hides.
    pub closed spec fn history(&self) -> Seq<InkOperation<T>> {
        self.operations@
    }

    /// The last identifier handed out.
    pub closed spec fn next_id(&self) -> u64 {
        self.next_operation_id
    }

    /// The identifiers increase and were all handed out.
    pub open spec fn wf(&self) -> bool {
        ids_increasing(self.history()) && ids_allocated(self.history(), self.next_id())
    }

    /// A document with no history.
    pub fn new() -> (document: InkDocument<T>)
        ensures
            document.wf(),
            document.history() == Seq::<InkOperation<T>>::empty(),
            document.next_id() == 0,
    {
        InkDocument { operations: Vec::new(), next_operation_id: 0 }
    }

    /// A document recovered from saved data, to be checked with `validate_recovery`.
    pub fn from_parts(operations: Vec<InkOperation<T>>, next_operation_id: u64) -> (document:
        InkDocument<T>)
        ensures
            document.history() == operations@,
            document.next_id() == next_operation_id,
    {
        InkDocument { operations, next_operation_id }
    }

    /// Hands out the next identifier; it is never reused, not even after undo.
    pub fn allocate_operation_id(&mut self) -> (id: OperationId)
        requires
            old(self).wf(),
            old(self).next_id() < u64::MAX,
        ensures
            final(self).wf(),
            final(self).history() == old(self).history(),
            final(self).next_id() == old(self).next_id() + 1,
            id.value() == final(self).next_id(),
    {
        self.next_operation_id = self.next_operation_id + 1;
        OperationId::new(self.next_operation_id)
    }

    /// Appends an operation under the identifier that was just handed out.
    pub fn push_operation(&mut self, kind: OperationKind, content: T) -> (id: OperationId)
        requires
            old(self).wf(),
            old(self).next_id() > 0,
            old(self).history().len() > 0 ==> old(self).history().last().id.value() < old(
                self,
            ).next_id(),
        ensures
            final(self).wf(),
            id.value() == old(self).next_id(),
            final(self).next_id() == old(self).next_id(),
            final(self).history() == old(self).history().push(
                InkOperation { id, kind, content },
            ),
    {
        let id = OperationId::new(self.next_operation_id);
        self.operations.push(InkOperation { id, kind, content });
        id
    }

    /// Hands out a fresh identifier and appends an operation under it, as every
    /// append of a stroke, an erase or a clear does.
    pub fn append_operation(&mut self, kind: OperationKind, content: T) -> (id: OperationId)
        requires
            old(self).wf(),
            old(self).next_id() < u64::MAX,
        ensures
            final(self).wf(),
            id.value() == old(self).next_id() + 1,
            final(self).next_id() == old(self).next_id() + 1,
            final(self).history() == old(self).history().push(InkOperation { id, kind, content }),
            (final(self).history(), final(self).next_id()) == spec_append(
                old(self).history(),
                old(self).next_id(),
                id,
                kind,
                content,
            ),
    {
        let ghost before = self.history();
        let allocated = self.allocate_operation_id();
        assert(before.len() > 0 ==> before.last().id.value() <= old(self).next_id());
        let id = self.push_operation(kind, content);
        proof {
            OperationId::lemma_value_identifies(id, allocated);
        }
        id
    }

    /// Appends a stroke or an erase made of `points`. An empty input adds nothing
    /// and uses no identifier. Otherwise the next identifier is handed out, and
    /// the operation is appended under it when the caller could build its content
    /// from the points (`content`); where it could not, the identifier stays used
    /// and nothing is appended.
    pub fn append_stroke<P>(&mut self, kind: OperationKind, points: &[P], content: Option<T>) -> (id:
        Option<OperationId>)
        requires
            old(self).wf(),
            old(self).next_id() < u64::MAX,
        ensures
            final(self).wf(),
            points@.len() == 0 ==> id is None && final(self).history() == old(self).history()
                && final(self).next_id() == old(self).next_id(),
            points@.len() > 0 ==> final(self).next_id() == old(self).next_id() + 1,
            points@.len() > 0 ==> match content {
                None => id is None && final(self).history() == old(self).history(),
                Some(c) => id matches Some(new_id) && new_id.value() == old(self).next_id() + 1
                    && (final(self).history(), final(self).next_id()) == spec_append(
                    old(self).history(),
                    old(self).next_id(),
                    new_id,
                    kind,
                    c,
                ),
            },
    {
        if points.len() == 0 {
            return None;
        }
        match content {
            None => {
                let _ = self.allocate_operation_id();
                None
            },
            Some(c) => Some(self.append_operation(kind, c)),
        }
    }

    /// Clears the visible ink as one undoable operation: when ink is visible (the
    /// caller passes its bounds), a clear carrying them is appended under a fresh
    /// identifier; with nothing visible the history stays as it is.
    pub fn clear(&mut self, visible_bounds: Option<T>) -> (id: Option<OperationId>)
        requires
            old(self).wf(),
            old(self).next_id() < u64::MAX,
        ensures
            final(self).wf(),
            match visible_bounds {
                None => id is None && final(self).history() == old(self).history()
                    && final(self).next_id() == old(self).next_id(),
                Some(bounds) => id matches Some(new_id) && new_id.value() == old(self).next_id() + 1
                    && final(self).next_id() == old(self).next_id() + 1 && final(self).history()
                    == old(self).history().push(
                    InkOperation { id: new_id, kind: OperationKind::Clear, content: bounds },
                ) && (final(self).history(), final(self).next_id()) == spec_append(
                    old(self).history(),
                    old(self).next_id(),
                    new_id,
                    OperationKind::Clear,
                    bounds,
                ),
            },
    {
        match visible_bounds {
            None => None,
            Some(bounds) => Some(self.append_operation(OperationKind::Clear, bounds)),
        }
    }

    /// Whether the last operation, if any, carries the last identifier handed out.
    pub fn last_id_is_current(&self) -> (current: bool)
        requires
            self.wf(),
        ensures
            current == (self.history().len() > 0 && self.history().last().id.value()
                == self.next_id()),
    {
        let len = self.operations.len();
        len > 0 && self.operations[len - 1].id.get() == self.next_operation_id
    }

    /// Removes and returns the latest operation.
    pub fn undo(&mut self) -> (undone: Option<InkOperation<T>>)
        requires
            old(self).wf(),
        ensures
            final(self).wf(),
            final(self).next_id() == old(self).next_id(),
            old(self).history().len() == 0 ==> undone is None && final(self).history() == old(
                self,
            ).history(),
            old(self).history().len() > 0 ==> undone == Some(old(self).history().last())
                && final(self).history() == old(self).history().drop_last(),
            (final(self).history(), undone) == spec_undo(old(self).history()),
    {
        self.operations.pop()
    }

    /// The whole history, oldest first.
    pub fn operations(&self) -> (operations: &[InkOperation<T>])
        ensures
            operations@ == self.history(),
    {
        self.operations.as_slice()
    }

    /// Whether there is no history at all.
    pub fn has_no_history(&self) -> (empty: bool)
        ensures
            empty == (self.history().len() == 0),
    {
        self.operations.len() == 0
    }

    /// The index of the operation with identifier `id`, found by binary search.
    pub fn operation_index(&self, id: OperationId) -> (index: Option<usize>)
        requires
            self.wf(),
        ensures
            match index {
                Some(i) => i < self.history().len() && self.history()[i as int].id == id,
                None => forall|i: int|
                    0 <= i < self.history().len() ==> #[trigger] self.history()[i].id != id,
            },
    {
        let target = id.get();
        let mut low: usize = 0;
        let mut high: usize = self.operations.len();
        while low < high
            invariant
                target == id.value(),
                ids_increasing(self.operations@),
                low <= high <= self.operations@.len(),
                forall|i: int| 0 <= i < low ==> #[trigger] self.operations@[i].id.value() < target,
                forall|i: int|
                    high <= i < self.operations@.len() ==> #[trigger] self.operations@[i].id.value()
                        > target,
            decreases high - low,
        {
            let middle = low + (high - low) / 2;
            let found = self.operations[middle].id.get();
            if found == target {
                proof {
                    OperationId::lemma_value_identifies(self.operations@[middle as int].id, id);
                }
                return Some(middle);
            } else if found < target {
                low = middle + 1;
            } else {
                high = middle;
            }
        }
        assert forall|i: int| 0 <= i < self.history().len() implies #[trigger] self.history()[i].id
            != id by {
            if i < low {
                assert(self.operations@[i].id.value() < target);
            } else {
                assert(self.operations@[i].id.value() > target);
            }
        }
        None
    }

    /// The operation with identifier `id`.
    pub fn operation(&self, id: OperationId) -> (operation: Option<&InkOperation<T>>)
        requires
            self.wf(),
        ensures
            match operation {
                Some(op) => exists|i: int|
                    0 <= i < self.history().len() && self.history()[i] == *op && #[trigger] op.id
                        == id,
                None => forall|i: int|
                    0 <= i < self.history().len() ==> #[trigger] self.history()[i].id != id,
            },
    {
        match self.operation_index(id) {
            Some(index) => {
                let op = &self.operations[index];
                assert(self.history()[index as int] == *op);
                Some(op)
            },
            None => None,
        }
    }

    /// The index after the last clear, from where a blank canvas replays.
    pub fn replay_start(&self) -> (start: usize)
        ensures
            start == replay_start_of(self.history()),
            start <= self.history().len(),
    {
        let mut i: usize = self.operations.len();
        assert(self.operations@.subrange(0, i as int) =~= self.operations@);
        while i > 0
            invariant
                i <= self.operations@.len(),
                replay_start_of(self.operations@) == replay_start_of(
                    self.operations@.subrange(0, i as int),
                ),
            decreases i,
        {
            let ghost prefix = self.operations@.subrange(0, i as int);
            assert(prefix.drop_last() =~= self.operations@.subrange(0, i - 1));
            match self.operations[i - 1].kind {
                OperationKind::Clear => {
                    return i;
                },
                _ => {},
            }
            i = i - 1;
        }
        assert(self.operations@.subrange(0, 0) =~= Seq::<InkOperation<T>>::empty());
        0
    }

    /// The operations after the last clear.
    pub fn replay_operations(&self) -> (operations: &[InkOperation<T>])
        ensures
            operations@ == self.history().subrange(
                replay_start_of(self.history()),
                self.history().len() as int,
            ),
    {
        let start = self.replay_start();
        vstd::slice::slice_subrange(self.operations.as_slice(), start, self.operations.len())
    }

    /// Checks a recovered history: the allocator must not be at its end, every
    /// identifier must be positive, above the one before and handed out, and
    /// the caller's geometry check must pass; the first failure is reported.
    /// `first_fault` is the first operation whose geometry the caller found
    /// faulty.
    pub fn validate_recovery(&self, first_fault: Option<(usize, GeometryFault)>) -> (res: Result<
        (),
        String,
    >)
        ensures
            match recovery_check(self.history(), self.next_id(), first_fault) {
                RecoveryCheck::Valid => res is Ok,
                check => res matches Err(message) && message@ == recovery_error_text(check),
            },
            res is Ok ==> self.wf(),
    {
        let ghost ops = self.operations@;
        let next = self.next_operation_id;
        if next == u64::MAX {
            return Err(message_for(RecoveryCheck::Exhausted));
        }
        let mut i: usize = 0;
        let mut previous: u64 = 0;
        while i < self.operations.len()
            invariant
                ops == self.operations@,
                next == self.next_operation_id,
                next < u64::MAX,
                i <= ops.len(),
                forall|j: int| 0 <= j < i ==> !#[trigger] id_out_of_order(ops, j, next),
                i > 0 ==> previous == ops[i - 1].id.value(),
                i == 0 ==> previous == 0,
                first_fault matches Some((f, _)) ==> i <= f,
            decreases ops.len() - i,
        {
            let id = self.operations[i].id.get();
            if id == 0 || id <= previous || id > next {
                proof {
                    assert(id_out_of_order(ops, i as int, next));
                    assert(first_bad_id(ops, next) == Some(i as int)) by {
                        lemma_first_bad_id_is(ops, next, i as int);
                    }
                }
                return Err(message_for(RecoveryCheck::BadId(i)));
            }
            match first_fault {
                Some((f, fault)) => {
                    if f == i {
                        proof {
                            assert(!id_out_of_order(ops, i as int, next));
                            lemma_no_bad_id_before(ops, next, i as int);
                        }
                        return Err(message_for(RecoveryCheck::Geometry(i, fault)));
                    }
                },
                None => {},
            }
            previous = id;
            i = i + 1;
        }
        proof {
            assert(!(exists|j: int| 0 <= j < ops.len() && #[trigger] id_out_of_order(ops, j, next)));
            lemma_in_order_ids_increase(ops, next);
        }
        Ok(())
    }
}

/// The text of a failed check.
fn message_for(check: RecoveryCheck) -> (message: String)
    ensures
        message@ == recovery_error_text(check),
{
    let mut chars: Vec<char> = Vec::new();
    match check {
        RecoveryCheck::Exhausted => push_str(&mut chars, "墨迹 operation id 已耗尽"),
        RecoveryCheck::BadId(_) => push_str(&mut chars, "墨迹 operation id 不满足严格单调约束"),
        RecoveryCheck::Geometry(_, GeometryFault::InvalidGeometry) => push_str(
            &mut chars,
            "墨迹 operation 含有无效或非有限几何",
        ),
        RecoveryCheck::Geometry(_, GeometryFault::ClearBoundsMismatch) => push_str(
            &mut chars,
            "清屏 operation bounds 与此前可见墨迹不一致",
        ),
        RecoveryCheck::Valid => {},
    }
    assert(chars@ =~= recovery_error_text(check));
    string_from_chars(&chars)
}

/// When the identifiers before `i` are in order and the one at `i` is not, the
/// first identifier out of order is at `i`.
proof fn lemma_first_bad_id_is<T>(operations: Seq<InkOperation<T>>, next_id: u64, i: int)
    requires
        0 <= i < operations.len(),
        id_out_of_order(operations, i, next_id),
        forall|j: int| 0 <= j < i ==> !#[trigger] id_out_of_order(operations, j, next_id),
    ensures
        first_bad_id(operations, next_id) == Some(i),
{
    let c = choose|k: int|
        {
            &&& 0 <= k < operations.len()
            &&& id_out_of_order(operations, k, next_id)
            &&& forall|j: int| 0 <= j < k ==> !id_out_of_order(operations, j, next_id)
        };
    assert(exists|k: int| 0 <= k < operations.len() && #[trigger] id_out_of_order(operations, k, next_id));
    if c < i {
        assert(!id_out_of_order(operations, c, next_id));
    }
    if c > i {
        assert(!id_out_of_order(operations, i, next_id));
    }
}

/// When the identifiers up to `i` are in order, the first one out of order, if
/// any, comes after `i`.
proof fn lemma_no_bad_id_before<T>(operations: Seq<InkOperation<T>>, next_id: u64, i: int)
    requires
        0 <= i < operations.len(),
        forall|j: int| 0 <= j <= i ==> !#[trigger] id_out_of_order(operations, j, next_id),
    ensures
        match first_bad_id(operations, next_id) {
            Some(k) => k > i,
            None => true,
        },
{
    if exists|k: int| 0 <= k < operations.len() && #[trigger] id_out_of_order(operations, k, next_id) {
        let w = choose|k: int| 0 <= k < operations.len() && #[trigger] id_out_of_order(operations, k, next_id);
        lemma_least_bad_id_exists(operations, next_id, w);
        let c = choose|k: int|
            {
                &&& 0 <= k < operations.len()
                &&& id_out_of_order(operations, k, next_id)
                &&& forall|j: int| 0 <= j < k ==> !id_out_of_order(operations, j, next_id)
            };
        if c <= i {
            assert(!id_out_of_order(operations, c, next_id));
        }
    }
}

/// Some identifier out of order means there is a first one.
proof fn lemma_least_bad_id_exists<T>(operations: Seq<InkOperation<T>>, next_id: u64, k: int)
    requires
        0 <= k < operations.len(),
        id_out_of_order(operations, k, next_id),
    ensures
        exists|c: int|
            {
                &&& 0 <= c < operations.len()
                &&& id_out_of_order(operations, c, next_id)
                &&& forall|j: int| 0 <= j < c ==> !id_out_of_order(operations, j, next_id)
            },
    decreases k,
{
    if forall|j: int| 0 <= j < k ==> !#[trigger] id_out_of_order(operations, j, next_id) {
        assert({
            &&& 0 <= k < operations.len()
            &&& id_out_of_order(operations, k, next_id)
            &&& forall|j: int| 0 <= j < k ==> !id_out_of_order(operations, j, next_id)
        });
    } else {
        let j = choose|j: int| 0 <= j < k && #[trigger] id_out_of_order(operations, j, next_id);
        lemma_least_bad_id_exists(operations, next_id, j);
    }
}

/// Identifiers each in order with the one before are strictly increasing
/// and allocated.
proof fn lemma_in_order_ids_increase<T>(operations: Seq<InkOperation<T>>, next_id: u64)
    requires
        forall|j: int| 0 <= j < operations.len() ==> !#[trigger] id_out_of_order(operations, j, next_id),
    ensures
        ids_increasing(operations),
        ids_allocated(operations, next_id),
{
    assert forall|i: int| 0 <= i < operations.len() implies 0 < #[trigger] operations[i].id.value()
        <= next_id by {
        assert(!id_out_of_order(operations, i, next_id));
    }
    assert forall|i: int, j: int| 0 <= i < j < operations.len() implies operations[i].id.value()
        < operations[j].id.value() by {
        lemma_increasing_pair(operations, next_id, i, j);
    }
}

/// Two identifiers in order along the history increase.
proof fn lemma_increasing_pair<T>(operations: Seq<InkOperation<T>>, next_id: u64, i: int, j: int)
    requires
        forall|k: int| 0 <= k < operations.len() ==> !#[trigger] id_out_of_order(operations, k, next_id),
        0 <= i < j < operations.len(),
    ensures
        operations[i].id.value() < operations[j].id.value(),
    decreases j - i,
{
    assert(!id_out_of_order(operations, j, next_id));
    if j - 1 > i {
        lemma_increasing_pair(operations, next_id, i, j - 1);
    }
}

/// An identifier handed out after any sequence of appends and undos is above
/// every identifier in the history: identifiers are never reused.
pub proof fn lemma_new_id_is_fresh<T>(history: Seq<InkOperation<T>>, next_id: u64)
    requires
        ids_allocated(history, next_id),
    ensures
        forall|i: int| 0 <= i < history.len() ==> #[trigger] history[i].id.value() < next_id + 1,
{
    assert forall|i: int| 0 <= i < history.len() implies #[trigger] history[i].id.value() < next_id
        + 1 by {
        assert(0 < history[i].id.value() <= next_id);
    }
}

/// The history and last identifier after appending an operation under the fresh
/// identifier `id`.
pub open spec fn spec_append<T>(
    history: Seq<InkOperation<T>>,
    next_id: u64,
    id: OperationId,
    kind: OperationKind,
    content: T,
) -> (Seq<InkOperation<T>>, u64) {
    (history.push(InkOperation { id, kind, content }), (next_id + 1) as u64)
}

/// The history after an undo, and the operation it removed: the latest one, or
/// nothing on an empty history.
pub open spec fn spec_undo<T>(history: Seq<InkOperation<T>>) -> (Seq<InkOperation<T>>, Option<InkOperation<T>>) {
    if history.len() == 0 {
        (history, None)
    } else {
        (history.drop_last(), Some(history.last()))
    }
}

/// Undo reverts an append, a stroke, an erase or a clear alike: it removes exactly
/// the operation that the append added, under the identifier the append returned,
/// and gives the history back; the identifier stays used. Undo on an empty history
/// removes nothing and changes nothing.
pub proof fn lemma_undo_reverts_append<T>(
    history: Seq<InkOperation<T>>,
    next_id: u64,
    id: OperationId,
    kind: OperationKind,
    content: T,
)
    ensures
        ({
            let (appended, appended_next) = spec_append(history, next_id, id, kind, content);
            &&& spec_undo(appended) == (history, Some(InkOperation { id, kind, content }))
            &&& appended_next == next_id + 1 || next_id == u64::MAX
        }),
        spec_undo(Seq::<InkOperation<T>>::empty()) == (Seq::<InkOperation<T>>::empty(), None::<InkOperation<T>>),
{
    assert(history.push(InkOperation { id, kind, content }).drop_last() =~= history);
}

} // verus!
