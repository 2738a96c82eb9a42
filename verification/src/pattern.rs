//! The closed catalog of recognized unsafe idioms.
//!
//! Each variant carries one immutable canonical signature string; a candidate
//! node inside an unsafe region triggers a match exactly when its rendered
//! text equals that signature.  `SetVecCapacity` is not an idiom of its own:
//! it is the signature of the companion statement that confirms
//! `UnitializedVec`.

use vstd::prelude::*;

verus! {

/// A recognized unsafe-but-replaceable idiom, or the companion signature
/// used to confirm one.
#[derive(Clone, Copy, Debug, PartialEq, Eq, Structural)]
pub enum UnsafePattern {
    /// Companion signature: a capacity-only buffer reservation.
    SetVecCapacity,
    /// A reserved buffer whose logical length is set without initialization.
    UnitializedVec,
    /// A raw range copy within one buffer.
    CopyWithin,
    /// An unchecked index read.
    GetUncheck,
    /// An unchecked index write.
    GetUncheckMut,
    /// A raw non-overlapping copy between two buffers.
    CopyNonOverlap,
    /// Raw bytes turned into a validated string without the check.
    CStringFromVec,
    /// A raw length check on validated-string bytes.
    CStringLength,
}

/// The canonical textual signature of each catalog entry.
pub open spec fn signature_spec(p: UnsafePattern) -> Seq<char> {
    match p {
        UnsafePattern::SetVecCapacity => "Vec::with_capacity"@,
        UnsafePattern::UnitializedVec => "set_len"@,
        UnsafePattern::CopyWithin => "ptr::copy"@,
        UnsafePattern::GetUncheck => "get_unchecked"@,
        UnsafePattern::GetUncheckMut => "get_unchecked_mut"@,
        UnsafePattern::CopyNonOverlap => "ptr::copy_nonoverlapping"@,
        UnsafePattern::CStringFromVec => "CString::from_vec_unchecked"@,
        UnsafePattern::CStringLength => "strlen"@,
    }
}

impl UnsafePattern {
    /// The canonical signature string this catalog entry matches by.
    pub fn signature(&self) -> (r: &'static str)
        ensures
            r@ == signature_spec(*self),
    {
        match self {
            UnsafePattern::SetVecCapacity => "Vec::with_capacity",
            UnsafePattern::UnitializedVec => "set_len",
            UnsafePattern::CopyWithin => "ptr::copy",
            UnsafePattern::GetUncheck => "get_unchecked",
            UnsafePattern::GetUncheckMut => "get_unchecked_mut",
            UnsafePattern::CopyNonOverlap => "ptr::copy_nonoverlapping",
            UnsafePattern::CStringFromVec => "CString::from_vec_unchecked",
            UnsafePattern::CStringLength => "strlen",
        }
    }
}

} // verus!
