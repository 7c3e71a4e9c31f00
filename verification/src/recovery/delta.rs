//! Binary deltas between two serialized states: the changed middle between the
//! longest common prefix and the longest common suffix.

use vstd::prelude::*;
use vstd::slice::{slice_subrange, slice_to_vec};
use super::record::{RecoveryError, MAX_UNCOMPRESSED_BYTES};

verus! {

/// The delta that turns one state byte string into another: keep `prefix_len`
/// bytes, drop the `removed_len` bytes after them, insert `replacement`.
#[derive(Debug, Clone, PartialEq, Eq)]
pub struct BinaryDelta {
    pub prefix_len: u64,
    pub removed_len: u64,
    pub replacement: Vec<u8>,
}

/// The length of the longest common prefix of `a` and `b`, counting from index `i` on.
pub open spec fn common_prefix_len_from(a: Seq<u8>, b: Seq<u8>, i: nat) -> nat
    decreases a.len() - i,
{
    if i < a.len() && i < b.len() && a[i as int] == b[i as int] {
        common_prefix_len_from(a, b, i + 1)
    } else {
        i
    }
}

/// The length of the longest common prefix of `a` and `b`.
pub open spec fn common_prefix_len(a: Seq<u8>, b: Seq<u8>) -> nat {
    common_prefix_len_from(a, b, 0)
}

/// The `i`-th byte of `a` counted from its end, starting at zero.
pub open spec fn byte_from_end(a: Seq<u8>, i: int) -> u8 {
    a[a.len() - 1 - i]
}

/// The length of the longest common suffix of `a` and `b` that leaves their first
/// `p` bytes alone, counting from the `j`-th byte from the end on.
pub open spec fn common_suffix_len_from(a: Seq<u8>, b: Seq<u8>, p: nat, j: nat) -> nat
    decreases a.len() - j,
{
    if p + j < a.len() && p + j < b.len() && byte_from_end(a, j as int) == byte_from_end(
        b,
        j as int,
    ) {
        common_suffix_len_from(a, b, p, j + 1)
    } else {
        j
    }
}

/// The length of the longest common suffix of `a` and `b` after their common prefix.
pub open spec fn common_suffix_len(a: Seq<u8>, b: Seq<u8>) -> nat {
    common_suffix_len_from(a, b, common_prefix_len(a, b), 0)
}

/// The minimal delta from `old` to `new`: keep the longest common prefix, then the
/// longest common suffix of the rest, and replace what lies between.
pub open spec fn spec_minimal_delta(old: Seq<u8>, new: Seq<u8>) -> (int, int, Seq<u8>) {
    let p = common_prefix_len(old, new);
    let s = common_suffix_len(old, new);
    (p as int, old.len() - p - s, new.subrange(p as int, new.len() - s))
}

/// What the common prefix length says of the two sequences.
proof fn lemma_common_prefix(a: Seq<u8>, b: Seq<u8>, i: nat)
    requires
        i <= a.len(),
        i <= b.len(),
    ensures
        i <= common_prefix_len_from(a, b, i) <= a.len(),
        common_prefix_len_from(a, b, i) <= b.len(),
        forall|k: int|
            i <= k < common_prefix_len_from(a, b, i) ==> a[k] == b[k],
    decreases a.len() - i,
{
    if i < a.len() && i < b.len() && a[i as int] == b[i as int] {
        lemma_common_prefix(a, b, i + 1);
    }
}

/// What the common suffix length says of the two sequences.
proof fn lemma_common_suffix(a: Seq<u8>, b: Seq<u8>, p: nat, j: nat)
    requires
        p + j <= a.len(),
        p + j <= b.len(),
    ensures
        j <= common_suffix_len_from(a, b, p, j),
        p + common_suffix_len_from(a, b, p, j) <= a.len(),
        p + common_suffix_len_from(a, b, p, j) <= b.len(),
        forall|k: int|
            j <= k < common_suffix_len_from(a, b, p, j) ==> #[trigger] byte_from_end(a, k)
                == byte_from_end(b, k),
    decreases a.len() - j,
{
    if p + j < a.len() && p + j < b.len() && byte_from_end(a, j as int) == byte_from_end(
        b,
        j as int,
    ) {
        lemma_common_suffix(a, b, p, j + 1);
    }
}

/// The result of applying a delta to `old`, with the checks that `apply` makes.
pub open spec fn spec_apply_delta(
    prefix_len: u64,
    removed_len: u64,
    replacement: Seq<u8>,
    old: Seq<u8>,
) -> Result<Seq<u8>, RecoveryError> {
    if prefix_len > usize::MAX {
        Err(RecoveryError::DeltaPrefixOutOfRange)
    } else if removed_len > usize::MAX {
        Err(RecoveryError::DeltaRemovedOutOfRange)
    } else if prefix_len + removed_len > old.len() {
        Err(RecoveryError::DeltaOutOfBounds)
    } else if prefix_len + replacement.len() + (old.len() - (prefix_len + removed_len))
        > MAX_UNCOMPRESSED_BYTES {
        Err(RecoveryError::DeltaTooLarge)
    } else {
        Ok(
            old.subrange(0, prefix_len as int) + replacement + old.subrange(
                prefix_len + removed_len,
                old.len() as int,
            ),
        )
    }
}

impl BinaryDelta {
    /// Computes the delta from `old` to `new`: their longest common prefix, then the
    /// longest common suffix of what is left, and the changed middle of `new`.
    pub fn between(old: &[u8], new: &[u8]) -> (delta: BinaryDelta)
        ensures
            (delta.prefix_len as int, delta.removed_len as int, delta.replacement@)
                == spec_minimal_delta(old@, new@),
    {
        let min_len = if old.len() < new.len() {
            old.len()
        } else {
            new.len()
        };
        let mut prefix_len: usize = 0;
        while prefix_len < min_len && old[prefix_len] == new[prefix_len]
            invariant
                min_len == if old@.len() < new@.len() { old@.len() } else { new@.len() },
                0 <= prefix_len <= min_len,
                common_prefix_len_from(old@, new@, prefix_len as nat) == common_prefix_len(
                    old@,
                    new@,
                ),
            decreases min_len - prefix_len,
        {
            prefix_len = prefix_len + 1;
        }
        let suffix_limit = min_len - prefix_len;
        let mut suffix_len: usize = 0;
        while suffix_len < suffix_limit && old[old.len() - 1 - suffix_len] == new[new.len() - 1
            - suffix_len]
            invariant
                min_len == if old@.len() < new@.len() { old@.len() } else { new@.len() },
                prefix_len <= min_len,
                prefix_len == common_prefix_len(old@, new@),
                suffix_limit == min_len - prefix_len,
                0 <= suffix_len <= suffix_limit,
                common_suffix_len_from(old@, new@, prefix_len as nat, suffix_len as nat)
                    == common_suffix_len(old@, new@),
            decreases suffix_limit - suffix_len,
        {
            assert(byte_from_end(old@, suffix_len as int) == byte_from_end(
                new@,
                suffix_len as int,
            ));
            suffix_len = suffix_len + 1;
        }
        let old_end = old.len() - suffix_len;
        let new_end = new.len() - suffix_len;
        let replacement = slice_to_vec(slice_subrange(new, prefix_len, new_end));
        BinaryDelta {
            prefix_len: prefix_len as u64,
            removed_len: (old_end - prefix_len) as u64,
            replacement,
        }
    }

    /// Applies the delta to `old`, after checking that it stays inside `old` and
    /// that the result is at most `MAX_UNCOMPRESSED_BYTES` long.
    pub fn apply(&self, old: &[u8]) -> (res: Result<Vec<u8>, RecoveryError>)
        ensures
            match res {
                Ok(next) => spec_apply_delta(
                    self.prefix_len,
                    self.removed_len,
                    self.replacement@,
                    old@,
                ) == Ok::<Seq<u8>, RecoveryError>(next@),
                Err(e) => spec_apply_delta(
                    self.prefix_len,
                    self.removed_len,
                    self.replacement@,
                    old@,
                ) == Err::<Seq<u8>, RecoveryError>(e),
            },
    {
        if self.prefix_len > usize::MAX as u64 {
            return Err(RecoveryError::DeltaPrefixOutOfRange);
        }
        if self.removed_len > usize::MAX as u64 {
            return Err(RecoveryError::DeltaRemovedOutOfRange);
        }
        let prefix_len = self.prefix_len as usize;
        let removed_len = self.removed_len as usize;
        if prefix_len > old.len() || removed_len > old.len() - prefix_len {
            return Err(RecoveryError::DeltaOutOfBounds);
        }
        let suffix_start = prefix_len + removed_len;
        let tail_len = old.len() - suffix_start;
        if self.replacement.len() > MAX_UNCOMPRESSED_BYTES || prefix_len > MAX_UNCOMPRESSED_BYTES
            - self.replacement.len() || tail_len > MAX_UNCOMPRESSED_BYTES - (prefix_len
            + self.replacement.len()) {
            return Err(RecoveryError::DeltaTooLarge);
        }
        let mut next = slice_to_vec(slice_subrange(old, 0, prefix_len));
        let mut middle = self.replacement.clone();
        next.append(&mut middle);
        let mut tail = slice_to_vec(slice_subrange(old, suffix_start, old.len()));
        next.append(&mut tail);
        Ok(next)
    }
}

/// Applying the delta between two states to the first gives the second back, whenever
/// the second is no longer than the recovery format allows.
pub proof fn lemma_delta_round_trip(old: Seq<u8>, new: Seq<u8>)
    requires
        new.len() <= MAX_UNCOMPRESSED_BYTES,
        old.len() <= usize::MAX,
    ensures
        ({
            let (p, r, replacement) = spec_minimal_delta(old, new);
            &&& 0 <= p <= u64::MAX
            &&& 0 <= r <= u64::MAX
            &&& spec_apply_delta(p as u64, r as u64, replacement, old) == Ok::<
                Seq<u8>,
                RecoveryError,
            >(new)
        }),
{
    lemma_common_prefix(old, new, 0);
    let p = common_prefix_len(old, new);
    lemma_common_suffix(old, new, p, 0);
    let s = common_suffix_len(old, new);
    let (pi, r, replacement) = spec_minimal_delta(old, new);
    let result = old.subrange(0, pi) + replacement + old.subrange(pi + r, old.len() as int);
    assert forall|i: int| 0 <= i < new.len() implies result[i] == new[i] by {
        if i < p {
        } else if i < new.len() - s {
        } else {
            let k = new.len() - 1 - i;
            assert(byte_from_end(old, k) == byte_from_end(new, k));
        }
    }
    assert(result =~= new);
}

} // verus!
