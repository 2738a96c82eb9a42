//! The idiom classifier: decides which catalog entry a candidate call
//! matches, consulting sibling statements where an idiom spans more than one
//! statement.
//!
//! Matching is textual: a candidate triggers an idiom exactly when its
//! rendered callee equals the idiom's canonical signature.  The
//! reserve-then-set-length idiom is confirmed only when both of its
//! companions are found: a preceding sibling binding that reserves the same
//! buffer, and a following sibling statement that reads it.  The companion
//! scans stop at the first statement that names both the reservation
//! signature and the buffer; a match is confirmed only if that statement is
//! a binding.

use vstd::prelude::*;

use crate::model::{CallShape, Stmt, UnsafeRegion};
use crate::pattern::{signature_spec, UnsafePattern};
use crate::text::{contains_seq, string_contains, string_eq};

verus! {

/// The statement names both the reservation signature and the buffer.
pub open spec fn mentions_reserve(s: Stmt, receiver: Seq<char>) -> bool {
    contains_seq(s.text@, signature_spec(UnsafePattern::SetVecCapacity)) && contains_seq(
        s.text@,
        receiver,
    )
}

/// `i` is the first earlier sibling that names the reservation signature and
/// the buffer.
pub open spec fn is_first_reserve(before: Seq<Stmt>, receiver: Seq<char>, i: int) -> bool {
    &&& 0 <= i < before.len()
    &&& mentions_reserve(before[i], receiver)
    &&& forall|k: int| 0 <= k < i ==> !mentions_reserve(#[trigger] before[k], receiver)
}

/// The index of the reservation companion, where one exists.
pub open spec fn reserve_idx(before: Seq<Stmt>, receiver: Seq<char>) -> int {
    choose|i: int| is_first_reserve(before, receiver, i)
}

/// A reservation companion exists and is a binding.
pub open spec fn reserve_confirmed(region: UnsafeRegion, receiver: Seq<char>) -> bool {
    exists|i: int| is_first_reserve(region.before@, receiver, i) && region.before@[i].is_let
}

/// Some following sibling statement reads the buffer.
pub open spec fn has_read_companion(region: UnsafeRegion, receiver: Seq<char>) -> bool {
    exists|i: int|
        0 <= i < region.after@.len() && contains_seq(#[trigger] region.after@[i].text@, receiver)
}

/// At most one index is the first reservation companion.
pub proof fn lemma_first_reserve_unique(before: Seq<Stmt>, receiver: Seq<char>, i: int, j: int)
    requires
        is_first_reserve(before, receiver, i),
        is_first_reserve(before, receiver, j),
    ensures
        i == j,
{
    if i < j {
        assert(!mentions_reserve(before[i], receiver));
    } else if j < i {
        assert(!mentions_reserve(before[j], receiver));
    }
}

/// Scans the earlier siblings, nearest first, for the reservation
/// companion: the first statement that names both the reservation signature
/// and the buffer.
pub fn find_reserve_companion(region: &UnsafeRegion, receiver: &String) -> (r: Option<usize>)
    ensures
        r matches Some(i) ==> is_first_reserve(region.before@, receiver@, i as int),
        r is None ==> forall|k: int|
            0 <= k < region.before@.len() ==> !mentions_reserve(
                #[trigger] region.before@[k],
                receiver@,
            ),
{
    let n = region.before.len();
    let mut i: usize = 0;
    while i < n
        invariant
            n == region.before@.len(),
            i <= n,
            forall|k: int| 0 <= k < i ==> !mentions_reserve(#[trigger] region.before@[k], receiver@),
        decreases n - i,
    {
        let s = &region.before[i];
        if string_contains(&s.text, "Vec::with_capacity") && string_contains(
            &s.text,
            receiver.as_str(),
        ) {
            return Some(i);
        }
        i = i + 1;
    }
    None
}

/// Scans the later siblings, nearest first, for a statement that reads the
/// buffer.
pub fn find_read_companion(region: &UnsafeRegion, receiver: &String) -> (r: bool)
    ensures
        r == has_read_companion(*region, receiver@),
{
    let n = region.after.len();
    let mut i: usize = 0;
    while i < n
        invariant
            n == region.after@.len(),
            i <= n,
            forall|k: int|
                0 <= k < i ==> !contains_seq(#[trigger] region.after@[k].text@, receiver@),
        decreases n - i,
    {
        let s = &region.after[i];
        if string_contains(&s.text, receiver.as_str()) {
            return true;
        }
        i = i + 1;
    }
    false
}

/// Which catalog entry, if any, the candidate call matches in its region.
pub open spec fn classify_spec(call: CallShape, region: UnsafeRegion) -> Option<UnsafePattern> {
    if call.callee@ == signature_spec(UnsafePattern::UnitializedVec) {
        if call.is_method && reserve_confirmed(region, call.receiver@) && has_read_companion(
            region,
            call.receiver@,
        ) {
            Some(UnsafePattern::UnitializedVec)
        } else {
            None
        }
    } else if call.callee@ == signature_spec(UnsafePattern::CopyWithin) {
        Some(UnsafePattern::CopyWithin)
    } else if call.callee@ == signature_spec(UnsafePattern::GetUncheck) {
        Some(UnsafePattern::GetUncheck)
    } else if call.callee@ == signature_spec(UnsafePattern::GetUncheckMut) {
        Some(UnsafePattern::GetUncheckMut)
    } else if call.callee@ == signature_spec(UnsafePattern::CopyNonOverlap) {
        Some(UnsafePattern::CopyNonOverlap)
    } else if call.callee@ == signature_spec(UnsafePattern::CStringFromVec) {
        Some(UnsafePattern::CStringFromVec)
    } else if call.callee@ == signature_spec(UnsafePattern::CStringLength) {
        Some(UnsafePattern::CStringLength)
    } else {
        None
    }
}

/// Classifies one candidate call of the region against the catalog.
///
/// A match is attributed exactly when the callee's text equals a canonical
/// signature; the reserve-then-set-length idiom asks in addition for its two
/// companion statements, and yields nothing when either is absent.
pub fn check_convert_type(call: &CallShape, region: &UnsafeRegion) -> (r: Option<UnsafePattern>)
    ensures
        r == classify_spec(*call, *region),
{
    if string_eq(&call.callee, "set_len") {
        if !call.is_method {
            return None;
        }
        let reserve: bool = match find_reserve_companion(region, &call.receiver) {
            Some(i) => {
                let found = region.before[i].is_let;
                proof {
                    if !found && reserve_confirmed(*region, call.receiver@) {
                        let j = choose|j: int|
                            is_first_reserve(region.before@, call.receiver@, j)
                                && region.before@[j].is_let;
                        lemma_first_reserve_unique(region.before@, call.receiver@, i as int, j);
                    }
                }
                found
            },
            None => {
                proof {
                    if reserve_confirmed(*region, call.receiver@) {
                        let j = choose|j: int|
                            is_first_reserve(region.before@, call.receiver@, j)
                                && region.before@[j].is_let;
                        assert(mentions_reserve(region.before@[j], call.receiver@));
                    }
                }
                false
            },
        };
        assert(reserve == reserve_confirmed(*region, call.receiver@));
        if reserve && find_read_companion(region, &call.receiver) {
            return Some(UnsafePattern::UnitializedVec);
        }
        return None;
    }
    if string_eq(&call.callee, "ptr::copy") {
        return Some(UnsafePattern::CopyWithin);
    }
    if string_eq(&call.callee, "get_unchecked") {
        return Some(UnsafePattern::GetUncheck);
    }
    if string_eq(&call.callee, "get_unchecked_mut") {
        return Some(UnsafePattern::GetUncheckMut);
    }
    if string_eq(&call.callee, "ptr::copy_nonoverlapping") {
        return Some(UnsafePattern::CopyNonOverlap);
    }
    if string_eq(&call.callee, "CString::from_vec_unchecked") {
        return Some(UnsafePattern::CStringFromVec);
    }
    if string_eq(&call.callee, "strlen") {
        return Some(UnsafePattern::CStringLength);
    }
    None
}

} // verus!
