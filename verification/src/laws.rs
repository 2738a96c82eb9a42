//! The engine's cross-cutting guarantees, stated and proved over the specs
//! that the classifier, generators and planner carry.

use vstd::prelude::*;

use crate::classify::{classify_spec, has_read_companion, reserve_confirmed};
use crate::text::{contains_seq, occurs_at};
use crate::edit::ops_ordered;
use crate::plan::ghost_replace;
use crate::model::{lemma_before_bound, UnsafeRegion};
use crate::pattern::{signature_spec, UnsafePattern};
use crate::plan::{propose_spec, proposals_spec, proposals_upto};

verus! {

/// `s` begins with `prefix`.
pub open spec fn starts_with(s: Seq<char>, prefix: Seq<char>) -> bool {
    prefix.len() <= s.len() && s.subrange(0, prefix.len() as int) == prefix
}

/// `s` ends with `suffix`.
pub open spec fn ends_with(s: Seq<char>, suffix: Seq<char>) -> bool {
    suffix.len() <= s.len() && s.subrange(s.len() - suffix.len(), s.len() as int) == suffix
}

/// A proposal names the statement it came from, and that statement's call
/// was confirmed by the classifier for exactly the proposal's idiom.
pub proof fn lemma_propose_classified(region: UnsafeRegion, k: int)
    requires
        0 <= k < region.stmts@.len(),
        propose_spec(region, k) is Some,
    ensures
        propose_spec(region, k) matches Some(p) && p.stmt_idx == k && (region.stmts@[k].call
            matches Some(c) && classify_spec(c, region) == Some(p.idiom)),
{
}

/// Every proposal of a region is the planned rewrite of one of the region's
/// statements.
pub proof fn lemma_proposal_membership(region: UnsafeRegion, n: int, j: int)
    requires
        0 <= n <= region.stmts@.len(),
        0 <= j < proposals_upto(region, n).len(),
    ensures
        exists|k: int|
            0 <= k < n && #[trigger] propose_spec(region, k) == Some(
                proposals_upto(region, n)[j],
            ),
    decreases n,
{
    if n > 0 {
        if j < proposals_upto(region, n - 1).len() {
            lemma_proposal_membership(region, n - 1, j);
        } else {
            assert(propose_spec(region, n - 1) == Some(proposals_upto(region, n)[j]));
        }
    }
}

/// Law: an edit is proposed only for a confirmed match.  Every proposal of
/// a region comes from a statement whose call the classifier confirmed for
/// the proposal's idiom.
pub proof fn lemma_proposal_confirmed(region: UnsafeRegion, j: int)
    requires
        0 <= j < proposals_spec(region).len(),
    ensures
        exists|k: int|
            0 <= k < region.stmts@.len() && (#[trigger] region.stmts@[k].call matches Some(c)
                && classify_spec(c, region) == Some(proposals_spec(region)[j].idiom)),
{
    lemma_proposal_membership(region, region.stmts@.len() as int, j);
    let k = choose|k: int|
        0 <= k < region.stmts@.len() && #[trigger] propose_spec(region, k) == Some(
            proposals_spec(region)[j],
        );
    lemma_propose_classified(region, k);
}

/// Law (negative scenario): a region none of whose statements carries a
/// classified call — in particular, one whose reservation binding has no
/// matching length-setting statement — yields zero proposals.
pub proof fn lemma_no_match_no_proposal(region: UnsafeRegion)
    requires
        forall|k: int|
            0 <= k < region.stmts@.len() ==> ((#[trigger] region.stmts@[k]).call matches Some(c)
                ==> classify_spec(c, region) is None),
    ensures
        proposals_spec(region).len() == 0,
{
    lemma_no_match_upto(region, region.stmts@.len() as int);
}

/// Helper induction for `lemma_no_match_no_proposal`.
proof fn lemma_no_match_upto(region: UnsafeRegion, n: int)
    requires
        n <= region.stmts@.len(),
        forall|k: int|
            0 <= k < region.stmts@.len() ==> ((#[trigger] region.stmts@[k]).call matches Some(c)
                ==> classify_spec(c, region) is None),
    ensures
        proposals_upto(region, n).len() == 0,
    decreases n,
{
    if n > 0 {
        lemma_no_match_upto(region, n - 1);
    }
}

/// Law: the reserve-then-set-length rewrite is proposed only when the
/// length-setting trigger and both of its companions — the reservation
/// binding before the region and a read of the same buffer after it — are
/// all present.
pub proof fn lemma_unitialized_vec_needs_companions(region: UnsafeRegion, j: int)
    requires
        0 <= j < proposals_spec(region).len(),
        proposals_spec(region)[j].idiom == UnsafePattern::UnitializedVec,
    ensures
        exists|k: int|
            0 <= k < region.stmts@.len() && (#[trigger] region.stmts@[k].call matches Some(c)
                && c.callee@ == signature_spec(UnsafePattern::UnitializedVec) && c.is_method
                && reserve_confirmed(region, c.receiver@) && has_read_companion(
                region,
                c.receiver@,
            )),
{
    lemma_proposal_membership(region, region.stmts@.len() as int, j);
    let k = choose|k: int|
        0 <= k < region.stmts@.len() && #[trigger] propose_spec(region, k) == Some(
            proposals_spec(region)[j],
        );
    lemma_propose_classified(region, k);
    let c = region.stmts@[k].call->Some_0;
    assert(classify_spec(c, region) == Some(UnsafePattern::UnitializedVec));
    assert(c.callee@ == signature_spec(UnsafePattern::UnitializedVec) && c.is_method
        && reserve_confirmed(region, c.receiver@) && has_read_companion(region, c.receiver@)) by {
        if c.callee@ != signature_spec(UnsafePattern::UnitializedVec) {
            assert(classify_spec(c, region) != Some(UnsafePattern::UnitializedVec));
        }
    }
}

/// Law (single-statement region collapse): when the offending statement is
/// the region's only one and the idiom has no external companion, the
/// proposed edit is one replacement whose range is exactly the region's
/// range.
pub proof fn lemma_single_statement_collapse(region: UnsafeRegion, k: int)
    requires
        region.wf(),
        0 <= k < region.stmts@.len(),
        region.stmts@.len() == 1,
        propose_spec(region, k) is Some,
        propose_spec(region, k)->Some_0.idiom != UnsafePattern::UnitializedVec,
    ensures
        propose_spec(region, k) matches Some(p) && p.ops == seq![
            ghost_replace(region.start as int, region.end as int, p.replacement),
        ],
{
}

/// Law (multi-statement region): when the region holds more than one
/// statement, the proposed edit deletes only the offending statement — a
/// range within that statement's own line that covers the statement — and
/// writes the replacement strictly before the region's starting boundary.
pub proof fn lemma_multi_statement_hoist(region: UnsafeRegion, k: int)
    requires
        region.wf(),
        0 <= k < region.stmts@.len(),
        region.stmts@.len() > 1,
        propose_spec(region, k) is Some,
    ensures
        propose_spec(region, k) matches Some(p) && {
            &&& p.ops.len() == 2
            &&& p.ops[0].end <= region.lead_start
            &&& region.stmts@[k].lead_start <= p.ops[1].start <= region.stmts@[k].start
            &&& region.stmts@[k].end <= p.ops[1].end <= region.stmts@[k].line_end
            &&& p.ops[1].text == Seq::<char>::empty()
        },
{
    let p = propose_spec(region, k)->Some_0;
    lemma_propose_classified(region, k);
    let c = region.stmts@[k].call->Some_0;
    if p.idiom == UnsafePattern::UnitializedVec {
        let i = crate::classify::reserve_idx(region.before@, c.receiver@);
        assert(reserve_confirmed(region, c.receiver@));
        let w = choose|w: int|
            crate::classify::is_first_reserve(region.before@, c.receiver@, w)
                && region.before@[w].is_let;
        assert(crate::classify::is_first_reserve(region.before@, c.receiver@, i));
        lemma_before_bound(region, i);
        assert(region.before@[i].wf());
    } else {
        assert(region.before@.len() > 0);
        assert(region.before@[0].wf());
    }
    assert(region.stmts@[k].wf());
}

/// Law: every proposed plan's operations are ordered, never overlap, and
/// stay within the region's last line, so the plan fits any document that
/// contains the region.
pub proof fn lemma_proposal_ops_ordered(region: UnsafeRegion, k: int, doc_len: int)
    requires
        region.wf(),
        0 <= k < region.stmts@.len(),
        propose_spec(region, k) is Some,
        region.line_end <= doc_len,
    ensures
        propose_spec(region, k) matches Some(p) && ops_ordered(p.ops, doc_len),
{
    let p = propose_spec(region, k)->Some_0;
    if region.stmts@.len() == 1 && p.idiom != UnsafePattern::UnitializedVec {
        lemma_single_statement_collapse(region, k);
    } else if region.stmts@.len() > 1 {
        lemma_multi_statement_hoist(region, k);
        assert(region.stmts@[k].wf());
        assert(p.ops[0].start <= p.ops[0].end) by {
            lemma_hoist_first_op(region, k);
        }
        assert(region.start < region.stmts@[k].lead_start);
        assert(region.stmts@[k].line_end <= region.end);
    } else {
        // the region's only statement carries the reserve-then-set-length
        // rewrite: the reservation binding is rewritten and the region's
        // line deleted
        lemma_propose_classified(region, k);
        let c = region.stmts@[k].call->Some_0;
        let i = crate::classify::reserve_idx(region.before@, c.receiver@);
        let w = choose|w: int|
            crate::classify::is_first_reserve(region.before@, c.receiver@, w)
                && region.before@[w].is_let;
        assert(crate::classify::is_first_reserve(region.before@, c.receiver@, i));
        lemma_before_bound(region, i);
        assert(region.before@[i].wf());
    }
}

/// A prefix of the left part is a prefix of the whole concatenation.
proof fn lemma_starts_with_concat(a: Seq<char>, b: Seq<char>, p: Seq<char>)
    requires
        starts_with(a, p),
    ensures
        starts_with(a + b, p),
{
    assert((a + b).subrange(0, p.len() as int) =~= a.subrange(0, p.len() as int));
}

/// A suffix of the right part is a suffix of the whole concatenation.
proof fn lemma_ends_with_concat(a: Seq<char>, b: Seq<char>, s: Seq<char>)
    requires
        ends_with(b, s),
    ensures
        ends_with(a + b, s),
{
    assert((a + b).subrange((a + b).len() - s.len(), (a + b).len() as int) =~= b.subrange(
        b.len() - s.len(),
        b.len() as int,
    ));
}

/// Law (statement-kind preservation): each replacement has the syntactic
/// shape of the statement it replaces.  The idioms that rewrite a binding
/// emit a binding — their replacement begins with the binding keyword — and
/// every replacement ends in the statement terminator, followed by a line
/// break exactly for the idioms whose replacement stands on a line of its
/// own.
pub proof fn lemma_replacement_shape(region: UnsafeRegion, k: int)
    requires
        region.wf(),
        0 <= k < region.stmts@.len(),
        propose_spec(region, k) is Some,
    ensures
        propose_spec(region, k) matches Some(p) && {
            &&& (p.idiom == UnsafePattern::UnitializedVec || p.idiom == UnsafePattern::GetUncheck
                || p.idiom == UnsafePattern::GetUncheckMut || p.idiom
                == UnsafePattern::CStringFromVec || p.idiom == UnsafePattern::CStringLength)
                ==> starts_with(p.replacement, "let "@) && ends_with(p.replacement, ";"@)
            &&& (p.idiom == UnsafePattern::CopyWithin || p.idiom == UnsafePattern::CopyNonOverlap)
                ==> ends_with(p.replacement, ";\n"@)
        },
{
    let p = propose_spec(region, k)->Some_0;
    lemma_propose_classified(region, k);
    let c = region.stmts@[k].call->Some_0;
    reveal_strlit("let ");
    reveal_strlit("let mut ");
    reveal_strlit("];");
    reveal_strlit(");");
    reveal_strlit(");\n");
    reveal_strlit(";");
    reveal_strlit(";\n");
    reveal_strlit(".as_bytes().len();");
    if p.idiom == UnsafePattern::UnitializedVec {
        let gen = crate::generate::safevec_text(c.receiver@, c.args@[0].text@);
        assert(starts_with("let mut "@, "let "@)) by {
            assert("let mut "@.subrange(0, 4) =~= "let "@);
        }
        lemma_starts_with_concat("let mut "@, c.receiver@, "let "@);
        lemma_starts_with_concat("let mut "@ + c.receiver@, " = vec![0; "@, "let "@);
        lemma_starts_with_concat(
            "let mut "@ + c.receiver@ + " = vec![0; "@,
            c.args@[0].text@,
            "let "@,
        );
        lemma_starts_with_concat(
            "let mut "@ + c.receiver@ + " = vec![0; "@ + c.args@[0].text@,
            "];"@,
            "let "@,
        );
        assert(ends_with("];"@, ";"@)) by {
            assert("];"@.subrange(1, 2) =~= ";"@);
        }
        lemma_ends_with_concat(
            "let mut "@ + c.receiver@ + " = vec![0; "@ + c.args@[0].text@,
            "];"@,
            ";"@,
        );
    } else if p.idiom == UnsafePattern::GetUncheck || p.idiom == UnsafePattern::GetUncheckMut {
        let ls = c.site->LetInit_0;
        let mid = if crate::text::contains_seq(ls.init@, "mut"@) {
            ".get_mut("@
        } else {
            ".get("@
        };
        assert(starts_with("let "@, "let "@)) by {
            assert("let "@.subrange(0, 4) =~= "let "@);
        }
        lemma_starts_with_concat("let "@, ls.pat@, "let "@);
        lemma_starts_with_concat("let "@ + ls.pat@, " = "@, "let "@);
        lemma_starts_with_concat("let "@ + ls.pat@ + " = "@, c.receiver@, "let "@);
        lemma_starts_with_concat("let "@ + ls.pat@ + " = "@ + c.receiver@, mid, "let "@);
        lemma_starts_with_concat(
            "let "@ + ls.pat@ + " = "@ + c.receiver@ + mid,
            c.args@[0].text@,
            "let "@,
        );
        lemma_starts_with_concat(
            "let "@ + ls.pat@ + " = "@ + c.receiver@ + mid + c.args@[0].text@,
            ");"@,
            "let "@,
        );
        assert(ends_with(");"@, ";"@)) by {
            assert(");"@.subrange(1, 2) =~= ";"@);
        }
        lemma_ends_with_concat(
            "let "@ + ls.pat@ + " = "@ + c.receiver@ + mid + c.args@[0].text@,
            ");"@,
            ";"@,
        );
    } else if p.idiom == UnsafePattern::CStringFromVec {
        let ls = c.site->LetInit_0;
        assert(starts_with("let "@, "let "@)) by {
            assert("let "@.subrange(0, 4) =~= "let "@);
        }
        lemma_starts_with_concat("let "@, ls.pat@, "let "@);
        lemma_starts_with_concat("let "@ + ls.pat@, " = CString::new("@, "let "@);
        lemma_starts_with_concat(
            "let "@ + ls.pat@ + " = CString::new("@,
            c.args@[0].text@,
            "let "@,
        );
        lemma_starts_with_concat(
            "let "@ + ls.pat@ + " = CString::new("@ + c.args@[0].text@,
            ");"@,
            "let "@,
        );
        assert(ends_with(");"@, ";"@)) by {
            assert(");"@.subrange(1, 2) =~= ";"@);
        }
        lemma_ends_with_concat(
            "let "@ + ls.pat@ + " = CString::new("@ + c.args@[0].text@,
            ");"@,
            ";"@,
        );
    } else if p.idiom == UnsafePattern::CStringLength {
        let ls = c.site->LetInit_0;
        let recv = crate::generate::strip_as_ptr(c.args@[0].text@);
        assert(starts_with("let "@, "let "@)) by {
            assert("let "@.subrange(0, 4) =~= "let "@);
        }
        lemma_starts_with_concat("let "@, ls.pat@, "let "@);
        lemma_starts_with_concat("let "@ + ls.pat@, " = "@, "let "@);
        lemma_starts_with_concat("let "@ + ls.pat@ + " = "@, recv, "let "@);
        lemma_starts_with_concat(
            "let "@ + ls.pat@ + " = "@ + recv,
            ".as_bytes().len();"@,
            "let "@,
        );
        assert(ends_with(".as_bytes().len();"@, ";"@)) by {
            assert(".as_bytes().len();"@.subrange(17, 18) =~= ";"@);
        }
        lemma_ends_with_concat("let "@ + ls.pat@ + " = "@ + recv, ".as_bytes().len();"@, ";"@);
    } else if p.idiom == UnsafePattern::CopyWithin {
        let info = crate::generate::ptr_cpy_info_spec(c)->Some_0;
        assert(ends_with(");\n"@, ";\n"@)) by {
            assert(");\n"@.subrange(1, 3) =~= ";\n"@);
        }
        lemma_ends_with_concat(
            info.src_expr.base@ + ".copy_within("@ + info.src_expr.index@ + ".."@
                + info.dst_expr.index@ + ", "@ + c.args@[2].text@,
            ");\n"@,
            ";\n"@,
        );
    } else if p.idiom == UnsafePattern::CopyNonOverlap {
        let info = crate::generate::cpy_nonoverlap_info_spec(c)->Some_0;
        assert(ends_with(");\n"@, ";\n"@)) by {
            assert(");\n"@.subrange(1, 3) =~= ";\n"@);
        }
        lemma_ends_with_concat(
            info.dst_expr.text@ + ".copy_from_slice(&"@ + info.src_expr.text@,
            ");\n"@,
            ";\n"@,
        );
    }
}

/// The first operation of a hoisted plan is an insertion or an in-place
/// replacement: its range is never inverted.
proof fn lemma_hoist_first_op(region: UnsafeRegion, k: int)
    requires
        region.wf(),
        0 <= k < region.stmts@.len(),
        region.stmts@.len() > 1,
        propose_spec(region, k) is Some,
    ensures
        propose_spec(region, k) matches Some(p) && 0 <= p.ops[0].start <= p.ops[0].end,
{
    let p = propose_spec(region, k)->Some_0;
    lemma_propose_classified(region, k);
    let c = region.stmts@[k].call->Some_0;
    if p.idiom == UnsafePattern::UnitializedVec {
        let i = crate::classify::reserve_idx(region.before@, c.receiver@);
        let w = choose|w: int|
            crate::classify::is_first_reserve(region.before@, c.receiver@, w)
                && region.before@[w].is_let;
        assert(crate::classify::is_first_reserve(region.before@, c.receiver@, i));
        assert(region.before@[i].wf());
    }
}


/// An occurrence in a concatenation lies in the left part, lies in the right
/// part, or straddles the seam — and then the needle carries both the left
/// part's last character and the right part's first.
proof fn lemma_split_occurrence(a: Seq<char>, b: Seq<char>, n: Seq<char>, i: int)
    requires
        occurs_at(a + b, n, i),
        n.len() > 0,
    ensures
        i + n.len() <= a.len() ==> occurs_at(a, n, i),
        i >= a.len() ==> occurs_at(b, n, i - a.len()),
        i < a.len() && i + n.len() > a.len() ==> n[a.len() - i - 1] == a[a.len() - 1] && n[a.len()
            - i] == b[0],
{
    if i + n.len() <= a.len() {
        assert(a.subrange(i, i + n.len()) =~= (a + b).subrange(i, i + n.len()));
    } else if i >= a.len() {
        assert(b.subrange(i - a.len(), i - a.len() + n.len()) =~= (a + b).subrange(
            i,
            i + n.len(),
        ));
    } else {
        assert(n[a.len() - i - 1] == (a + b).subrange(i, i + n.len())[a.len() - i - 1]);
        assert(n[a.len() - i] == (a + b).subrange(i, i + n.len())[a.len() - i]);
    }
}

/// The zero-filled binding the reserve-then-set-length rewrite emits can
/// carry a signature-like needle only where the receiver or the count
/// expression already carries it: the binding's own frame is free of any
/// needle without blanks or closing brackets that the frame's parts do not
/// contain.
proof fn lemma_safevec_text_carries_no_new_needle(recv: Seq<char>, count: Seq<char>, n: Seq<char>)
    requires
        n.len() > 0,
        forall|j: int| 0 <= j < n.len() ==> n[j] != ' ',
        forall|j: int| 0 <= j < n.len() ==> n[j] != ']',
        !contains_seq("let mut "@, n),
        !contains_seq(" = vec![0; "@, n),
        !contains_seq("];"@, n),
        contains_seq(crate::generate::safevec_text(recv, count), n),
    ensures
        contains_seq(recv, n) || contains_seq(count, n),
{
    reveal_strlit("let mut ");
    reveal_strlit(" = vec![0; ");
    reveal_strlit("];");
    let head = "let mut "@;
    let mid = " = vec![0; "@;
    let tail = "];"@;
    let with_recv = head + recv;
    let with_mid = with_recv + mid;
    let with_count = with_mid + count;
    let i = choose|i: int| occurs_at(with_count + tail, n, i);
    lemma_split_occurrence(with_count, tail, n, i);
    if i < with_count.len() && i + n.len() > with_count.len() {
        assert(n[with_count.len() - i] == tail[0]);
        assert(false);
    } else if i >= with_count.len() {
        assert(false);
    } else {
        lemma_split_occurrence(with_mid, count, n, i);
        if i < with_mid.len() && i + n.len() > with_mid.len() {
            assert(n[with_mid.len() - i - 1] == with_mid[with_mid.len() - 1]);
            assert(with_mid[with_mid.len() - 1] == mid[mid.len() - 1]);
            assert(false);
        } else if i >= with_mid.len() {
            assert(occurs_at(count, n, i - with_mid.len()));
        } else {
            lemma_split_occurrence(with_recv, mid, n, i);
            if i < with_recv.len() && i + n.len() > with_recv.len() {
                assert(n[with_recv.len() - i] == mid[0]);
                assert(false);
            } else if i >= with_recv.len() {
                assert(false);
            } else {
                lemma_split_occurrence(head, recv, n, i);
                if i < head.len() && i + n.len() > head.len() {
                    assert(n[head.len() - i - 1] == head[head.len() - 1]);
                    assert(false);
                } else if i >= head.len() {
                    assert(occurs_at(recv, n, i - head.len()));
                } else {
                    assert(false);
                }
            }
        }
    }
}

/// Neither catalog signature of the reserve-then-set-length idiom occurs in
/// the rewrite's fixed frame, nor carries a blank or a closing bracket.
proof fn lemma_signatures_avoid_safevec_frame(sig: Seq<char>)
    requires
        sig == signature_spec(UnsafePattern::UnitializedVec) || sig == signature_spec(
            UnsafePattern::SetVecCapacity,
        ),
    ensures
        sig.len() > 0,
        forall|j: int| 0 <= j < sig.len() ==> sig[j] != ' ',
        forall|j: int| 0 <= j < sig.len() ==> sig[j] != ']',
        !contains_seq("let mut "@, sig),
        !contains_seq(" = vec![0; "@, sig),
        !contains_seq("];"@, sig),
{
    reveal_strlit("set_len");
    reveal_strlit("Vec::with_capacity");
    reveal_strlit("let mut ");
    reveal_strlit(" = vec![0; ");
    reveal_strlit("];");
    if sig == signature_spec(UnsafePattern::UnitializedVec) {
        assert forall|j: int| 0 <= j < sig.len() implies sig[j] != ' ' && sig[j] != ']' by {
            assert(sig[0] != ' ' && sig[0] != ']');
            assert(sig[1] != ' ' && sig[1] != ']');
            assert(sig[2] != ' ' && sig[2] != ']');
            assert(sig[3] != ' ' && sig[3] != ']');
            assert(sig[4] != ' ' && sig[4] != ']');
            assert(sig[5] != ' ' && sig[5] != ']');
            assert(sig[6] != ' ' && sig[6] != ']');
        }
    } else {
        assert forall|j: int| 0 <= j < sig.len() implies sig[j] != ' ' && sig[j] != ']' by {
            assert(sig[0] != ' ' && sig[0] != ']');
            assert(sig[1] != ' ' && sig[1] != ']');
            assert(sig[2] != ' ' && sig[2] != ']');
            assert(sig[3] != ' ' && sig[3] != ']');
            assert(sig[4] != ' ' && sig[4] != ']');
            assert(sig[5] != ' ' && sig[5] != ']');
            assert(sig[6] != ' ' && sig[6] != ']');
            assert(sig[7] != ' ' && sig[7] != ']');
            assert(sig[8] != ' ' && sig[8] != ']');
            assert(sig[9] != ' ' && sig[9] != ']');
            assert(sig[10] != ' ' && sig[10] != ']');
            assert(sig[11] != ' ' && sig[11] != ']');
            assert(sig[12] != ' ' && sig[12] != ']');
            assert(sig[13] != ' ' && sig[13] != ']');
            assert(sig[14] != ' ' && sig[14] != ']');
            assert(sig[15] != ' ' && sig[15] != ']');
            assert(sig[16] != ' ' && sig[16] != ']');
            assert(sig[17] != ' ' && sig[17] != ']');
        }
    }
    assert(!contains_seq("let mut "@, sig)) by {
        if contains_seq("let mut "@, sig) {
            let j = choose|j: int| occurs_at("let mut "@, sig, j);
            assert(sig[0] == "let mut "@.subrange(j, j + sig.len())[0]);
            assert(sig[0] == "let mut "@[j]);
            assert("let mut "@[0] != sig[0] && "let mut "@[1] != sig[0] && "let mut "@[2] != sig[0]
                && "let mut "@[3] != sig[0] && "let mut "@[4] != sig[0] && "let mut "@[5] != sig[0]
                && "let mut "@[6] != sig[0] && "let mut "@[7] != sig[0]);
        }
    }
    assert(!contains_seq(" = vec![0; "@, sig)) by {
        if contains_seq(" = vec![0; "@, sig) {
            let j = choose|j: int| occurs_at(" = vec![0; "@, sig, j);
            assert(sig[0] == " = vec![0; "@.subrange(j, j + sig.len())[0]);
            assert(sig[0] == " = vec![0; "@[j]);
            assert(" = vec![0; "@[0] != sig[0] && " = vec![0; "@[1] != sig[0] && " = vec![0; "@[2]
                != sig[0] && " = vec![0; "@[3] != sig[0] && " = vec![0; "@[4] != sig[0]
                && " = vec![0; "@[5] != sig[0] && " = vec![0; "@[6] != sig[0] && " = vec![0; "@[7]
                != sig[0] && " = vec![0; "@[8] != sig[0] && " = vec![0; "@[9] != sig[0]
                && " = vec![0; "@[10] != sig[0]);
        }
    }
    assert(!contains_seq("];"@, sig)) by {
        if contains_seq("];"@, sig) {
            let j = choose|j: int| occurs_at("];"@, sig, j);
            assert(sig[0] == "];"@.subrange(j, j + sig.len())[0]);
            assert(sig[0] == "];"@[j]);
            assert("];"@[0] != sig[0] && "];"@[1] != sig[0]);
        }
    }
}

/// Law (idempotence of the rewritten binding): the zero-filled binding that
/// replaces a reservation carries neither the length-setting signature nor
/// the reservation signature, as long as the buffer and count expressions do
/// not themselves carry them.  Classification re-run over the rewritten
/// binding can therefore neither match the idiom again nor confirm another
/// length-setting trigger against it.
pub proof fn lemma_rewritten_binding_sheds_signatures(recv: Seq<char>, count: Seq<char>)
    requires
        !contains_seq(recv, signature_spec(UnsafePattern::UnitializedVec)),
        !contains_seq(count, signature_spec(UnsafePattern::UnitializedVec)),
        !contains_seq(recv, signature_spec(UnsafePattern::SetVecCapacity)),
        !contains_seq(count, signature_spec(UnsafePattern::SetVecCapacity)),
    ensures
        !contains_seq(
            crate::generate::safevec_text(recv, count),
            signature_spec(UnsafePattern::UnitializedVec),
        ),
        !contains_seq(
            crate::generate::safevec_text(recv, count),
            signature_spec(UnsafePattern::SetVecCapacity),
        ),
{
    lemma_signatures_avoid_safevec_frame(signature_spec(UnsafePattern::UnitializedVec));
    lemma_signatures_avoid_safevec_frame(signature_spec(UnsafePattern::SetVecCapacity));
    if contains_seq(
        crate::generate::safevec_text(recv, count),
        signature_spec(UnsafePattern::UnitializedVec),
    ) {
        lemma_safevec_text_carries_no_new_needle(
            recv,
            count,
            signature_spec(UnsafePattern::UnitializedVec),
        );
    }
    if contains_seq(
        crate::generate::safevec_text(recv, count),
        signature_spec(UnsafePattern::SetVecCapacity),
    ) {
        lemma_safevec_text_carries_no_new_needle(
            recv,
            count,
            signature_spec(UnsafePattern::SetVecCapacity),
        );
    }
}

} // verus!
