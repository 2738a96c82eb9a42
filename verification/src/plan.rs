//! The edit planner: turns each confirmed match of a region into exactly one
//! edit plan.
//!
//! The planner decides the edit's shape from the statement's position: when
//! the offending statement is the region's only one, the whole region is
//! replaced (or, for the reserve-then-set-length idiom, deleted while the
//! reservation binding is rewritten in place); otherwise only the offending
//! statement is removed from the region and the replacement is hoisted onto
//! its own line immediately above the region, reindented to the region's
//! indentation, anchored at the end of the line of the region's previous
//! sibling.  When a structural precondition cannot be resolved — no binding
//! to rewrite, no previous sibling to anchor at — the planner yields nothing.

use vstd::prelude::*;

use crate::classify::{check_convert_type, classify_spec, find_reserve_companion, is_first_reserve,
    lemma_first_reserve_unique, reserve_idx};
use crate::edit::{plan_view, EditOp, EditPlan, GhostOp};
use crate::generate::{bytes_len_format_spec, copy_from_slice_format_spec, copywithin_format_spec,
    generate_bytes_len_format, generate_copy_from_slice_format, generate_copywithin_format,
    generate_get_mut, generate_safevec_format, get_mut_format_spec, safevec_format_spec,
    generate_cstring_new_format, cstring_new_format_spec};
use crate::model::{CallShape, CallSite, UnsafeRegion};
use crate::pattern::UnsafePattern;

verus! {

/// One confirmed match turned outward: the idiom, the statement it was
/// found in, the generated replacement text, and the planned edit.
pub struct Proposal {
    /// The matched catalog entry.
    pub idiom: UnsafePattern,
    /// The index of the offending statement in the region.
    pub stmt_idx: usize,
    /// The generated replacement statement.
    pub replacement: String,
    /// The planned text edit.
    pub plan: EditPlan,
}

/// The mathematical shadow of a proposal.
pub ghost struct GhostProposal {
    /// The matched catalog entry.
    pub idiom: UnsafePattern,
    /// The index of the offending statement in the region.
    pub stmt_idx: int,
    /// The generated replacement statement.
    pub replacement: Seq<char>,
    /// The planned operations.
    pub ops: Seq<GhostOp>,
}

/// The shadow of an executable proposal.
pub open spec fn proposal_view(p: Proposal) -> GhostProposal {
    GhostProposal {
        idiom: p.idiom,
        stmt_idx: p.stmt_idx as int,
        replacement: p.replacement@,
        ops: plan_view(p.plan),
    }
}

/// The shadow of an optional proposal.
pub open spec fn opt_proposal_view(r: Option<Proposal>) -> Option<GhostProposal> {
    match r {
        Some(p) => Some(proposal_view(p)),
        None => None,
    }
}

/// A deletion of `[start, end)`.
pub open spec fn ghost_delete(start: int, end: int) -> GhostOp {
    GhostOp { start: start, end: end, text: Seq::empty() }
}

/// A replacement of `[start, end)` by `text`.
pub open spec fn ghost_replace(start: int, end: int, text: Seq<char>) -> GhostOp {
    GhostOp { start: start, end: end, text: text }
}

/// An insertion of `text` at `pos`.
pub open spec fn ghost_insert(pos: int, text: Seq<char>) -> GhostOp {
    GhostOp { start: pos, end: pos, text: text }
}

/// The region holds exactly one statement.
pub open spec fn single_stmt(region: UnsafeRegion) -> bool {
    region.stmts@.len() == 1
}

/// The planned edit for a confirmed reserve-then-set-length match: the
/// reservation binding is replaced in place by the generated zero-filled
/// binding, and the length-setting statement — or, when it stands alone, the
/// region's whole line — is deleted.
pub open spec fn plan_auto_vec_spec(region: UnsafeRegion, k: int, call: CallShape) -> Option<
    GhostProposal,
> {
    if call.site is ExprPosition {
        match safevec_format_spec(call) {
            Some(gen) => {
                let s = region.stmts@[k];
                let c = region.before@[reserve_idx(region.before@, call.receiver@)];
                let del = if single_stmt(region) {
                    ghost_delete(region.lead_start as int, region.line_end as int)
                } else {
                    ghost_delete(s.start as int, s.trail_end as int)
                };
                Some(
                    GhostProposal {
                        idiom: UnsafePattern::UnitializedVec,
                        stmt_idx: k,
                        replacement: gen,
                        ops: seq![ghost_replace(c.start as int, c.end as int, gen), del],
                    },
                )
            },
            None => None,
        }
    } else {
        None
    }
}

/// The hoisted shape shared by the idioms whose replacement moves above the
/// region: the replacement, reindented, is inserted at the end of the line
/// of the region's previous sibling, and `[del_start, del_end)` is deleted
/// from inside the region; without a previous sibling nothing is planned.
pub open spec fn hoist_ops_spec(
    region: UnsafeRegion,
    gen: Seq<char>,
    del_start: int,
    del_end: int,
) -> Option<Seq<GhostOp>> {
    if region.before@.len() > 0 {
        Some(
            seq![
                ghost_insert(region.before@[0].line_end as int, region.indent@ + gen),
                ghost_delete(del_start, del_end),
            ],
        )
    } else {
        None
    }
}

/// The planned edit for a confirmed in-buffer range copy: the region is
/// replaced when the statement stands alone, else the statement is deleted
/// and the replacement hoisted above the region.
pub open spec fn plan_copy_within_spec(region: UnsafeRegion, k: int, call: CallShape) -> Option<
    GhostProposal,
> {
    if call.site is ExprPosition {
        match copywithin_format_spec(call) {
            Some(gen) => {
                let s = region.stmts@[k];
                if single_stmt(region) {
                    Some(
                        GhostProposal {
                            idiom: UnsafePattern::CopyWithin,
                            stmt_idx: k,
                            replacement: gen,
                            ops: seq![
                                ghost_replace(region.start as int, region.end as int, gen),
                            ],
                        },
                    )
                } else {
                    match hoist_ops_spec(region, gen, s.start as int, s.trail_end as int) {
                        Some(ops) => Some(
                            GhostProposal {
                                idiom: UnsafePattern::CopyWithin,
                                stmt_idx: k,
                                replacement: gen,
                                ops: ops,
                            },
                        ),
                        None => None,
                    }
                }
            },
            None => None,
        }
    } else {
        None
    }
}

/// The planned edit for a confirmed between-buffers copy; deleting the
/// statement takes its whole line content.
pub open spec fn plan_copy_from_slice_spec(region: UnsafeRegion, k: int, call: CallShape) -> Option<
    GhostProposal,
> {
    if call.site is ExprPosition {
        match copy_from_slice_format_spec(call) {
            Some(gen) => {
                let s = region.stmts@[k];
                if single_stmt(region) {
                    Some(
                        GhostProposal {
                            idiom: UnsafePattern::CopyNonOverlap,
                            stmt_idx: k,
                            replacement: gen,
                            ops: seq![
                                ghost_replace(region.start as int, region.end as int, gen),
                            ],
                        },
                    )
                } else {
                    match hoist_ops_spec(region, gen, s.lead_start as int, s.trail_end as int) {
                        Some(ops) => Some(
                            GhostProposal {
                                idiom: UnsafePattern::CopyNonOverlap,
                                stmt_idx: k,
                                replacement: gen,
                                ops: ops,
                            },
                        ),
                        None => None,
                    }
                }
            },
            None => None,
        }
    } else {
        None
    }
}

/// The planned edit for a confirmed unchecked index access consumed by a
/// binding; deleting the binding takes its whole line content.
pub open spec fn plan_get_mut_spec(
    region: UnsafeRegion,
    k: int,
    call: CallShape,
    idiom: UnsafePattern,
) -> Option<GhostProposal> {
    match call.site {
        CallSite::LetInit(let_shape) => match get_mut_format_spec(call, let_shape) {
            Some(gen) => {
                let s = region.stmts@[k];
                if single_stmt(region) {
                    Some(
                        GhostProposal {
                            idiom: idiom,
                            stmt_idx: k,
                            replacement: gen,
                            ops: seq![
                                ghost_replace(region.start as int, region.end as int, gen),
                            ],
                        },
                    )
                } else {
                    match hoist_ops_spec(region, gen, s.lead_start as int, s.trail_end as int) {
                        Some(ops) => Some(
                            GhostProposal {
                                idiom: idiom,
                                stmt_idx: k,
                                replacement: gen,
                                ops: ops,
                            },
                        ),
                        None => None,
                    }
                }
            },
            None => None,
        },
        _ => None,
    }
}

/// The planned edit for a validated-string rewrite in binding position; the
/// comparison position yields a preview but no edit.
pub open spec fn plan_cstring_spec(
    region: UnsafeRegion,
    k: int,
    call: CallShape,
    idiom: UnsafePattern,
) -> Option<GhostProposal> {
    match call.site {
        CallSite::LetInit(let_shape) => {
            let gen_opt = if idiom is CStringFromVec {
                cstring_new_format_spec(let_shape.pat@, call, true)
            } else {
                bytes_len_format_spec(let_shape.pat@, call, true)
            };
            match gen_opt {
                Some(gen) => {
                    let s = region.stmts@[k];
                    if single_stmt(region) {
                        Some(
                            GhostProposal {
                                idiom: idiom,
                                stmt_idx: k,
                                replacement: gen,
                                ops: seq![
                                    ghost_replace(region.start as int, region.end as int, gen),
                                ],
                            },
                        )
                    } else {
                        match hoist_ops_spec(region, gen, s.lead_start as int, s.trail_end as int) {
                            Some(ops) => Some(
                                GhostProposal {
                                    idiom: idiom,
                                    stmt_idx: k,
                                    replacement: gen,
                                    ops: ops,
                                },
                            ),
                            None => None,
                        }
                    }
                },
                None => None,
            }
        },
        _ => None,
    }
}

/// The proposal, if any, that the region's `k`-th statement yields: its call
/// shape is classified against the catalog, the matched idiom's ingredients
/// are extracted, the replacement is generated, and the edit is planned.
/// Every absent precondition yields `None`.
pub open spec fn propose_spec(region: UnsafeRegion, k: int) -> Option<GhostProposal> {
    match region.stmts@[k].call {
        None => None,
        Some(call) => match classify_spec(call, region) {
            None => None,
            Some(idiom) => match idiom {
                UnsafePattern::UnitializedVec => plan_auto_vec_spec(region, k, call),
                UnsafePattern::CopyWithin => plan_copy_within_spec(region, k, call),
                UnsafePattern::GetUncheck => plan_get_mut_spec(region, k, call, idiom),
                UnsafePattern::GetUncheckMut => plan_get_mut_spec(region, k, call, idiom),
                UnsafePattern::CopyNonOverlap => plan_copy_from_slice_spec(region, k, call),
                UnsafePattern::CStringFromVec => plan_cstring_spec(region, k, call, idiom),
                UnsafePattern::CStringLength => plan_cstring_spec(region, k, call, idiom),
                UnsafePattern::SetVecCapacity => None,
            },
        },
    }
}

/// The proposals of the region's first `n` statements, in document order.
pub open spec fn proposals_upto(region: UnsafeRegion, n: int) -> Seq<GhostProposal>
    decreases n,
{
    if n <= 0 {
        Seq::empty()
    } else {
        match propose_spec(region, n - 1) {
            Some(p) => proposals_upto(region, n - 1).push(p),
            None => proposals_upto(region, n - 1),
        }
    }
}

/// All proposals of the region, in document order.
pub open spec fn proposals_spec(region: UnsafeRegion) -> Seq<GhostProposal> {
    proposals_upto(region, region.stmts@.len() as int)
}

/// The shadow of an executable proposal list.
pub open spec fn proposals_view(v: Vec<Proposal>) -> Seq<GhostProposal> {
    Seq::new(v@.len(), |i: int| proposal_view(v@[i]))
}

/// Builds the two-operation hoist plan: insert above the region, delete
/// inside it.
fn hoist_plan(region: &UnsafeRegion, gen: &String, del_start: usize, del_end: usize) -> (r: Option<
    EditPlan,
>)
    ensures
        r is Some <==> hoist_ops_spec(*region, gen@, del_start as int, del_end as int) is Some,
        r matches Some(plan) ==> hoist_ops_spec(*region, gen@, del_start as int, del_end as int)
            == Some(plan_view(plan)),
{
    if region.before.len() == 0 {
        return None;
    }
    let mut indented = String::new();
    indented.append(region.indent.as_str());
    indented.append(gen.as_str());
    let pos = region.before[0].line_end;
    let ops = vec![
        EditOp { start: pos, end: pos, text: indented },
        EditOp { start: del_start, end: del_end, text: String::new() },
    ];
    let plan = EditPlan { ops };
    proof {
        assert(plan_view(plan) =~= hoist_ops_spec(
            *region,
            gen@,
            del_start as int,
            del_end as int,
        )->Some_0);
    }
    Some(plan)
}

/// Builds the one-operation plan that replaces the whole region.
fn replace_region_plan(region: &UnsafeRegion, gen: &String) -> (r: EditPlan)
    ensures
        plan_view(r) == seq![
            ghost_replace(region.start as int, region.end as int, gen@),
        ],
{
    let ops = vec![EditOp { start: region.start, end: region.end, text: gen.clone() }];
    let plan = EditPlan { ops };
    proof {
        assert(plan_view(plan) =~= seq![
            ghost_replace(region.start as int, region.end as int, gen@),
        ]);
    }
    plan
}

/// Plans the reserve-then-set-length rewrite: the reservation binding is
/// replaced in place and the length-setting statement deleted — the region's
/// whole line when the statement stands alone.
pub fn convert_to_auto_vec_initialization(region: &UnsafeRegion, k: usize, call: &CallShape) -> (r:
    Option<Proposal>)
    requires
        region.wf(),
        k < region.stmts@.len(),
        region.stmts@[k as int].call == Some(*call),
        classify_spec(*call, *region) == Some(UnsafePattern::UnitializedVec),
    ensures
        opt_proposal_view(r) == plan_auto_vec_spec(*region, k as int, *call),
{
    match &call.site {
        CallSite::ExprPosition => {},
        _ => {
            return None;
        },
    }
    let gen = match generate_safevec_format(call) {
        Some(g) => g,
        None => {
            return None;
        },
    };
    let ci = match find_reserve_companion(region, &call.receiver) {
        Some(i) => i,
        None => {
            proof {
                let j = choose|j: int|
                    is_first_reserve(region.before@, call.receiver@, j) && region.before@[j].is_let;
                assert(crate::classify::mentions_reserve(region.before@[j], call.receiver@));
            }
            return None;
        },
    };
    proof {
        lemma_first_reserve_unique(
            region.before@,
            call.receiver@,
            ci as int,
            reserve_idx(region.before@, call.receiver@),
        );
    }
    let c = &region.before[ci];
    let s = &region.stmts[k];
    let (del_start, del_end): (usize, usize) = if region.stmts.len() == 1 {
        (region.lead_start, region.line_end)
    } else {
        (s.start, s.trail_end)
    };
    let ops = vec![
        EditOp { start: c.start, end: c.end, text: gen.clone() },
        EditOp { start: del_start, end: del_end, text: String::new() },
    ];
    let plan = EditPlan { ops };
    let result = Proposal {
        idiom: UnsafePattern::UnitializedVec,
        stmt_idx: k,
        replacement: gen,
        plan: plan,
    };
    proof {
        let spec_p = plan_auto_vec_spec(*region, k as int, *call)->Some_0;
        assert(proposal_view(result).ops =~= spec_p.ops);
    }
    Some(result)
}

/// Plans the in-buffer range copy rewrite.
pub fn convert_to_copy_within(region: &UnsafeRegion, k: usize, call: &CallShape) -> (r: Option<
    Proposal,
>)
    requires
        region.wf(),
        k < region.stmts@.len(),
        region.stmts@[k as int].call == Some(*call),
        classify_spec(*call, *region) == Some(UnsafePattern::CopyWithin),
    ensures
        opt_proposal_view(r) == plan_copy_within_spec(*region, k as int, *call),
{
    match &call.site {
        CallSite::ExprPosition => {},
        _ => {
            return None;
        },
    }
    let gen = match generate_copywithin_format(call) {
        Some(g) => g,
        None => {
            return None;
        },
    };
    let s = &region.stmts[k];
    if region.stmts.len() == 1 {
        let plan = replace_region_plan(region, &gen);
        let result = Proposal {
            idiom: UnsafePattern::CopyWithin,
            stmt_idx: k,
            replacement: gen,
            plan: plan,
        };
        proof {
            let spec_p = plan_copy_within_spec(*region, k as int, *call)->Some_0;
            assert(proposal_view(result).ops =~= spec_p.ops);
        }
        Some(result)
    } else {
        let plan = match hoist_plan(region, &gen, s.start, s.trail_end) {
            Some(p) => p,
            None => {
                return None;
            },
        };
        let result = Proposal {
            idiom: UnsafePattern::CopyWithin,
            stmt_idx: k,
            replacement: gen,
            plan: plan,
        };
        Some(result)
    }
}

/// Plans the between-buffers copy rewrite.
pub fn convert_to_copy_from_slice(region: &UnsafeRegion, k: usize, call: &CallShape) -> (r: Option<
    Proposal,
>)
    requires
        region.wf(),
        k < region.stmts@.len(),
        region.stmts@[k as int].call == Some(*call),
        classify_spec(*call, *region) == Some(UnsafePattern::CopyNonOverlap),
    ensures
        opt_proposal_view(r) == plan_copy_from_slice_spec(*region, k as int, *call),
{
    match &call.site {
        CallSite::ExprPosition => {},
        _ => {
            return None;
        },
    }
    let gen = match generate_copy_from_slice_format(call) {
        Some(g) => g,
        None => {
            return None;
        },
    };
    let s = &region.stmts[k];
    if region.stmts.len() == 1 {
        let plan = replace_region_plan(region, &gen);
        let result = Proposal {
            idiom: UnsafePattern::CopyNonOverlap,
            stmt_idx: k,
            replacement: gen,
            plan: plan,
        };
        proof {
            let spec_p = plan_copy_from_slice_spec(*region, k as int, *call)->Some_0;
            assert(proposal_view(result).ops =~= spec_p.ops);
        }
        Some(result)
    } else {
        let plan = match hoist_plan(region, &gen, s.lead_start, s.trail_end) {
            Some(p) => p,
            None => {
                return None;
            },
        };
        let result = Proposal {
            idiom: UnsafePattern::CopyNonOverlap,
            stmt_idx: k,
            replacement: gen,
            plan: plan,
        };
        Some(result)
    }
}

/// Plans the checked index rewrite for either unchecked access idiom.
pub fn convert_to_get_mut(
    region: &UnsafeRegion,
    k: usize,
    call: &CallShape,
    idiom: UnsafePattern,
) -> (r: Option<Proposal>)
    requires
        region.wf(),
        k < region.stmts@.len(),
        region.stmts@[k as int].call == Some(*call),
        classify_spec(*call, *region) == Some(idiom),
        idiom == UnsafePattern::GetUncheck || idiom == UnsafePattern::GetUncheckMut,
    ensures
        opt_proposal_view(r) == plan_get_mut_spec(*region, k as int, *call, idiom),
{
    let let_shape = match &call.site {
        CallSite::LetInit(ls) => ls,
        _ => {
            return None;
        },
    };
    let gen = match generate_get_mut(call, let_shape) {
        Some(g) => g,
        None => {
            return None;
        },
    };
    let s = &region.stmts[k];
    if region.stmts.len() == 1 {
        let plan = replace_region_plan(region, &gen);
        let result = Proposal { idiom: idiom, stmt_idx: k, replacement: gen, plan: plan };
        proof {
            let spec_p = plan_get_mut_spec(*region, k as int, *call, idiom)->Some_0;
            assert(proposal_view(result).ops =~= spec_p.ops);
        }
        Some(result)
    } else {
        let plan = match hoist_plan(region, &gen, s.lead_start, s.trail_end) {
            Some(p) => p,
            None => {
                return None;
            },
        };
        let result = Proposal { idiom: idiom, stmt_idx: k, replacement: gen, plan: plan };
        Some(result)
    }
}

/// Plans the validated-string rewrite for a binding-position match of either
/// raw-bytes idiom.
pub fn convert_to_cstring(
    region: &UnsafeRegion,
    k: usize,
    call: &CallShape,
    idiom: UnsafePattern,
) -> (r: Option<Proposal>)
    requires
        region.wf(),
        k < region.stmts@.len(),
        region.stmts@[k as int].call == Some(*call),
        classify_spec(*call, *region) == Some(idiom),
        idiom == UnsafePattern::CStringFromVec || idiom == UnsafePattern::CStringLength,
    ensures
        opt_proposal_view(r) == plan_cstring_spec(*region, k as int, *call, idiom),
{
    let let_shape = match &call.site {
        CallSite::LetInit(ls) => ls,
        _ => {
            return None;
        },
    };
    let gen_opt = if matches!(idiom, UnsafePattern::CStringFromVec) {
        generate_cstring_new_format(let_shape.pat.clone(), call, true)
    } else {
        generate_bytes_len_format(let_shape.pat.clone(), call, true)
    };
    let gen = match gen_opt {
        Some(g) => g,
        None => {
            return None;
        },
    };
    let s = &region.stmts[k];
    if region.stmts.len() == 1 {
        let plan = replace_region_plan(region, &gen);
        let result = Proposal { idiom: idiom, stmt_idx: k, replacement: gen, plan: plan };
        proof {
            let spec_p = plan_cstring_spec(*region, k as int, *call, idiom)->Some_0;
            assert(proposal_view(result).ops =~= spec_p.ops);
        }
        Some(result)
    } else {
        let plan = match hoist_plan(region, &gen, s.lead_start, s.trail_end) {
            Some(p) => p,
            None => {
                return None;
            },
        };
        let result = Proposal { idiom: idiom, stmt_idx: k, replacement: gen, plan: plan };
        Some(result)
    }
}

/// Classifies the region's `k`-th statement and plans its rewrite.
pub fn propose_one(region: &UnsafeRegion, k: usize) -> (r: Option<Proposal>)
    requires
        region.wf(),
        k < region.stmts@.len(),
    ensures
        opt_proposal_view(r) == propose_spec(*region, k as int),
{
    let call = match &region.stmts[k].call {
        Some(c) => c,
        None => {
            return None;
        },
    };
    let idiom = match check_convert_type(call, region) {
        Some(i) => i,
        None => {
            return None;
        },
    };
    match idiom {
        UnsafePattern::UnitializedVec => convert_to_auto_vec_initialization(region, k, call),
        UnsafePattern::CopyWithin => convert_to_copy_within(region, k, call),
        UnsafePattern::GetUncheck => convert_to_get_mut(region, k, call, idiom),
        UnsafePattern::GetUncheckMut => convert_to_get_mut(region, k, call, idiom),
        UnsafePattern::CopyNonOverlap => convert_to_copy_from_slice(region, k, call),
        UnsafePattern::CStringFromVec => convert_to_cstring(region, k, call, idiom),
        UnsafePattern::CStringLength => convert_to_cstring(region, k, call, idiom),
        UnsafePattern::SetVecCapacity => None,
    }
}

/// Scans the region's statements in document order and yields one proposal
/// per confirmed match; an unconfirmed candidate contributes nothing and the
/// scan continues.
pub fn convert_unsafe_to_safe(region: &UnsafeRegion) -> (r: Vec<Proposal>)
    requires
        region.wf(),
    ensures
        proposals_view(r) == proposals_spec(*region),
{
    let mut out: Vec<Proposal> = Vec::new();
    let n = region.stmts.len();
    let mut k: usize = 0;
    proof {
        assert(proposals_view(out) =~= proposals_upto(*region, 0));
    }
    while k < n
        invariant
            region.wf(),
            n == region.stmts@.len(),
            k <= n,
            proposals_view(out) == proposals_upto(*region, k as int),
        decreases n - k,
    {
        let ghost old_out = out;
        match propose_one(region, k) {
            Some(p) => {
                out.push(p);
                proof {
                    assert(proposals_view(out) =~= proposals_view(old_out).push(proposal_view(p)));
                }
            },
            None => {},
        }
        k = k + 1;
    }
    out
}

} // verus!
