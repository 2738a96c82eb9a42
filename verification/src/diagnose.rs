//! Typed outcomes for a rejected candidate: which stage of the
//! classify–extract–generate–plan pipeline found its precondition absent.
//!
//! The pipeline itself discards such candidates silently; this stage names
//! the first absent precondition, so a caller — or a test — can assert on
//! why a statement produced no rewrite rather than on the absence of output
//! alone.

use vstd::prelude::*;

use crate::classify::{check_convert_type, classify_spec, has_read_companion, reserve_confirmed,
    find_read_companion, find_reserve_companion, is_first_reserve, lemma_first_reserve_unique};
use crate::generate::{bytes_len_format_spec, copy_from_slice_format_spec, copywithin_format_spec,
    cstring_new_format_spec, generate_bytes_len_format, generate_copy_from_slice_format,
    generate_copywithin_format, generate_cstring_new_format, generate_get_mut,
    generate_safevec_format, get_mut_format_spec, safevec_format_spec};
use crate::model::{CallShape, CallSite, UnsafeRegion};
use crate::pattern::{signature_spec, UnsafePattern};
use crate::plan::{propose_one, propose_spec, Proposal};
use crate::text::string_eq;

verus! {

/// The first absent precondition that stopped a candidate statement.
#[derive(Clone, Copy, Debug, PartialEq, Eq, Structural)]
pub enum Rejection {
    /// The statement offers no call-shaped candidate.
    NoCandidateCall,
    /// The callee's text equals no canonical signature of the catalog.
    UnrecognizedCall,
    /// The length-setting trigger has no reservation binding before the
    /// region.
    MissingReserveCompanion,
    /// The length-setting trigger has no following statement that reads the
    /// buffer.
    MissingReadCompanion,
    /// The call does not occupy the syntactic position its idiom rewrites.
    MisplacedCall,
    /// The call lacks the sub-structure the idiom's ingredients need.
    Unextractable,
    /// The statement is not alone and no previous sibling anchors the
    /// hoisted replacement.
    NoHoistAnchor,
}

/// The call occupies the syntactic position the idiom's planner rewrites.
pub open spec fn site_fits(idiom: UnsafePattern, call: CallShape) -> bool {
    match idiom {
        UnsafePattern::UnitializedVec => call.site is ExprPosition,
        UnsafePattern::CopyWithin => call.site is ExprPosition,
        UnsafePattern::CopyNonOverlap => call.site is ExprPosition,
        UnsafePattern::GetUncheck => call.site is LetInit,
        UnsafePattern::GetUncheckMut => call.site is LetInit,
        UnsafePattern::CStringFromVec => call.site is LetInit,
        UnsafePattern::CStringLength => call.site is LetInit,
        UnsafePattern::SetVecCapacity => false,
    }
}

/// The replacement the idiom's generator renders for the call, if any.
pub open spec fn gen_spec(idiom: UnsafePattern, call: CallShape) -> Option<Seq<char>> {
    match idiom {
        UnsafePattern::UnitializedVec => safevec_format_spec(call),
        UnsafePattern::CopyWithin => copywithin_format_spec(call),
        UnsafePattern::CopyNonOverlap => copy_from_slice_format_spec(call),
        UnsafePattern::GetUncheck | UnsafePattern::GetUncheckMut => match call.site {
            CallSite::LetInit(ls) => get_mut_format_spec(call, ls),
            _ => None,
        },
        UnsafePattern::CStringFromVec => match call.site {
            CallSite::LetInit(ls) => cstring_new_format_spec(ls.pat@, call, true),
            _ => None,
        },
        UnsafePattern::CStringLength => match call.site {
            CallSite::LetInit(ls) => bytes_len_format_spec(ls.pat@, call, true),
            _ => None,
        },
        UnsafePattern::SetVecCapacity => None,
    }
}

/// The named rejection is the first absent precondition of the statement.
pub open spec fn rejection_matches(region: UnsafeRegion, k: int, e: Rejection) -> bool {
    let s = region.stmts@[k];
    match e {
        Rejection::NoCandidateCall => s.call is None,
        Rejection::UnrecognizedCall => s.call matches Some(c) && classify_spec(c, region) is None
            && !(c.callee@ == signature_spec(UnsafePattern::UnitializedVec) && c.is_method),
        Rejection::MissingReserveCompanion => s.call matches Some(c) && c.callee@
            == signature_spec(UnsafePattern::UnitializedVec) && c.is_method && !reserve_confirmed(
            region,
            c.receiver@,
        ),
        Rejection::MissingReadCompanion => s.call matches Some(c) && c.callee@ == signature_spec(
            UnsafePattern::UnitializedVec,
        ) && c.is_method && reserve_confirmed(region, c.receiver@) && !has_read_companion(
            region,
            c.receiver@,
        ),
        Rejection::MisplacedCall => s.call matches Some(c) && (classify_spec(c, region) matches
            Some(idiom) && !site_fits(idiom, c)),
        Rejection::Unextractable => s.call matches Some(c) && (classify_spec(c, region) matches
            Some(idiom) && site_fits(idiom, c) && gen_spec(idiom, c) is None),
        Rejection::NoHoistAnchor => s.call matches Some(c) && (classify_spec(c, region) matches
            Some(idiom) && site_fits(idiom, c) && gen_spec(idiom, c) is Some
            && region.stmts@.len() != 1 && region.before@.len() == 0),
    }
}

/// Runs the candidate at `k` through the pipeline and names the first stage
/// whose precondition is absent, or hands back the planned proposal.
pub fn assess_statement(region: &UnsafeRegion, k: usize) -> (r: Result<Proposal, Rejection>)
    requires
        region.wf(),
        k < region.stmts@.len(),
    ensures
        r is Ok <==> propose_spec(*region, k as int) is Some,
        r matches Ok(p) ==> propose_spec(*region, k as int) == Some(
            crate::plan::proposal_view(p),
        ),
        r matches Err(e) ==> rejection_matches(*region, k as int, e),
{
    let call = match &region.stmts[k].call {
        Some(c) => c,
        None => {
            return Err(Rejection::NoCandidateCall);
        },
    };
    let idiom = match check_convert_type(call, region) {
        Some(i) => i,
        None => {
            if string_eq(&call.callee, "set_len") && call.is_method {
                let reserve: bool = match find_reserve_companion(region, &call.receiver) {
                    Some(i) => {
                        let found = region.before[i].is_let;
                        proof {
                            if !found && reserve_confirmed(*region, call.receiver@) {
                                let j = choose|j: int|
                                    is_first_reserve(region.before@, call.receiver@, j)
                                        && region.before@[j].is_let;
                                lemma_first_reserve_unique(
                                    region.before@,
                                    call.receiver@,
                                    i as int,
                                    j,
                                );
                            }
                        }
                        found
                    },
                    None => {
                        proof {
                            if reserve_confirmed(*region, call.receiver@) {
                                let j = choose|j: int|
                                    is_first_reserve(region.before@, call.receiver@, j)
                                        && region.before@[j].is_let;
                                assert(crate::classify::mentions_reserve(
                                    region.before@[j],
                                    call.receiver@,
                                ));
                            }
                        }
                        false
                    },
                };
                if !reserve {
                    return Err(Rejection::MissingReserveCompanion);
                }
                if !find_read_companion(region, &call.receiver) {
                    return Err(Rejection::MissingReadCompanion);
                }
                // both companions present: the classifier cannot have
                // rejected the trigger
                assert(false);
            }
            return Err(Rejection::UnrecognizedCall);
        },
    };
    let fits = match idiom {
        UnsafePattern::UnitializedVec => matches!(&call.site, CallSite::ExprPosition),
        UnsafePattern::CopyWithin => matches!(&call.site, CallSite::ExprPosition),
        UnsafePattern::CopyNonOverlap => matches!(&call.site, CallSite::ExprPosition),
        UnsafePattern::GetUncheck => matches!(&call.site, CallSite::LetInit(_)),
        UnsafePattern::GetUncheckMut => matches!(&call.site, CallSite::LetInit(_)),
        UnsafePattern::CStringFromVec => matches!(&call.site, CallSite::LetInit(_)),
        UnsafePattern::CStringLength => matches!(&call.site, CallSite::LetInit(_)),
        UnsafePattern::SetVecCapacity => false,
    };
    if !fits {
        return Err(Rejection::MisplacedCall);
    }
    let gen_some: bool = match idiom {
        UnsafePattern::UnitializedVec => generate_safevec_format(call).is_some(),
        UnsafePattern::CopyWithin => generate_copywithin_format(call).is_some(),
        UnsafePattern::CopyNonOverlap => generate_copy_from_slice_format(call).is_some(),
        UnsafePattern::GetUncheck | UnsafePattern::GetUncheckMut => match &call.site {
            CallSite::LetInit(ls) => generate_get_mut(call, ls).is_some(),
            _ => false,
        },
        UnsafePattern::CStringFromVec => match &call.site {
            CallSite::LetInit(ls) => generate_cstring_new_format(ls.pat.clone(), call, true)
                .is_some(),
            _ => false,
        },
        UnsafePattern::CStringLength => match &call.site {
            CallSite::LetInit(ls) => generate_bytes_len_format(ls.pat.clone(), call, true)
                .is_some(),
            _ => false,
        },
        UnsafePattern::SetVecCapacity => false,
    };
    if !gen_some {
        return Err(Rejection::Unextractable);
    }
    if region.stmts.len() != 1 && region.before.len() == 0 {
        assert(propose_spec(*region, k as int) is None) by {
            if idiom == UnsafePattern::UnitializedVec {
                let j = choose|j: int|
                    is_first_reserve(region.before@, call.receiver@, j) && region.before@[j].is_let;
                assert(region.before@.len() > 0);
            }
        }
        return Err(Rejection::NoHoistAnchor);
    }
    match propose_one(region, k) {
        Some(p) => Ok(p),
        None => {
            // unreachable: every stage's precondition held
            assert(false);
            Err(Rejection::NoCandidateCall)
        },
    }
}

} // verus!
