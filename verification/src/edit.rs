//! Edit plans: ordered whole-text substitutions, and their application to a
//! document.
//!
//! A plan is a list of operations in ascending document order, each replacing
//! one character range by a text; a deletion carries an empty text and an
//! insertion an empty range.  Applying a plan splices the document once,
//! left to right.

use vstd::prelude::*;

verus! {

/// One text substitution: the characters of `[start, end)` are replaced by
/// `text`.
pub struct EditOp {
    /// First replaced character offset.
    pub start: usize,
    /// One past the last replaced character offset.
    pub end: usize,
    /// The replacing text.
    pub text: String,
}

/// The substitutions a confirmed match asks for, in ascending document
/// order.
pub struct EditPlan {
    /// The plan's operations.
    pub ops: Vec<EditOp>,
}

/// The mathematical shadow of one operation.
pub ghost struct GhostOp {
    /// First replaced character offset.
    pub start: int,
    /// One past the last replaced character offset.
    pub end: int,
    /// The replacing text.
    pub text: Seq<char>,
}

/// The shadow of an executable operation.
pub open spec fn op_view(op: EditOp) -> GhostOp {
    GhostOp { start: op.start as int, end: op.end as int, text: op.text@ }
}

/// The shadow of a whole plan.
pub open spec fn plan_view(plan: EditPlan) -> Seq<GhostOp> {
    Seq::new(plan.ops@.len(), |i: int| op_view(plan.ops@[i]))
}

/// The operations are each well-formed, lie inside a document of `doc_len`
/// characters, and follow one another without overlap.
pub open spec fn ops_ordered(ops: Seq<GhostOp>, doc_len: int) -> bool {
    &&& forall|i: int|
        0 <= i < ops.len() ==> 0 <= (#[trigger] ops[i]).start && ops[i].start <= ops[i].end
            && ops[i].end <= doc_len
    &&& forall|i: int| 1 <= i < ops.len() ==> ops[i - 1].end <= (#[trigger] ops[i]).start
}

/// The document from `from` on, with the operations applied in order.
pub open spec fn splice(doc: Seq<char>, ops: Seq<GhostOp>, from: int) -> Seq<char>
    decreases ops.len(),
{
    if ops.len() == 0 {
        doc.subrange(from, doc.len() as int)
    } else {
        doc.subrange(from, ops[0].start) + ops[0].text + splice(doc, ops.skip(1), ops[0].end)
    }
}

/// The whole document with the plan applied.
pub open spec fn apply_plan_spec(doc: Seq<char>, ops: Seq<GhostOp>) -> Seq<char> {
    splice(doc, ops, 0)
}

/// Decides whether the plan's operations are ordered and lie inside a
/// document of `doc_len` characters.
pub fn plan_fits(plan: &EditPlan, doc_len: usize) -> (r: bool)
    ensures
        r == ops_ordered(plan_view(*plan), doc_len as int),
{
    let n = plan.ops.len();
    let mut i: usize = 0;
    let mut prev_end: usize = 0;
    while i < n
        invariant
            n == plan.ops@.len(),
            i <= n,
            forall|k: int|
                0 <= k < i ==> (#[trigger] plan.ops@[k]).start <= plan.ops@[k].end
                    && plan.ops@[k].end <= doc_len,
            forall|k: int| 1 <= k < i ==> plan.ops@[k - 1].end <= (#[trigger] plan.ops@[k]).start,
            i > 0 ==> prev_end == plan.ops@[i - 1].end,
        decreases n - i,
    {
        let op = &plan.ops[i];
        if op.start > op.end || op.end > doc_len {
            assert(!ops_ordered(plan_view(*plan), doc_len as int)) by {
                assert(plan_view(*plan)[i as int] == op_view(plan.ops@[i as int]));
            }
            return false;
        }
        if i > 0 && op.start < prev_end {
            assert(!ops_ordered(plan_view(*plan), doc_len as int)) by {
                assert(plan_view(*plan)[i as int] == op_view(plan.ops@[i as int]));
                assert(plan_view(*plan)[i - 1] == op_view(plan.ops@[i - 1]));
            }
            return false;
        }
        prev_end = op.end;
        i = i + 1;
    }
    assert(ops_ordered(plan_view(*plan), doc_len as int)) by {
        assert(forall|k: int|
            0 <= k < n ==> (#[trigger] plan_view(*plan)[k]) == op_view(plan.ops@[k]));
    }
    true
}

/// Applies the plan to the document, splicing each replaced range exactly
/// once, left to right.
pub fn apply_edit_plan(doc: &str, plan: &EditPlan) -> (r: String)
    requires
        ops_ordered(plan_view(*plan), doc@.len() as int),
    ensures
        r@ == apply_plan_spec(doc@, plan_view(*plan)),
{
    let ghost view = plan_view(*plan);
    let doc_len = doc.unicode_len();
    let mut out = String::new();
    let mut pos: usize = 0;
    let n = plan.ops.len();
    let mut i: usize = 0;
    proof {
        assert(view.skip(0) =~= view);
        assert(out@ + splice(doc@, view, 0) =~= splice(doc@, view, 0));
    }
    while i < n
        invariant
            n == plan.ops@.len(),
            n == view.len(),
            view == plan_view(*plan),
            ops_ordered(view, doc@.len() as int),
            i <= n,
            doc_len == doc@.len(),
            i == 0 ==> pos == 0,
            i > 0 ==> pos == view[i - 1].end,
            pos <= doc_len,
            out@ + splice(doc@, view.skip(i as int), pos as int) == apply_plan_spec(doc@, view),
        decreases n - i,
    {
        let op = &plan.ops[i];
        proof {
            assert(view[i as int] == op_view(plan.ops@[i as int]));
            if i > 0 {
                assert(view[i as int - 1].end <= view[i as int].start);
            }
        }
        out.append(doc.substring_char(pos, op.start));
        out.append(op.text.as_str());
        proof {
            assert(view.skip(i as int)[0] == view[i as int]);
            assert(view.skip(i as int).skip(1) =~= view.skip(i as int + 1));
            assert(splice(doc@, view.skip(i as int), pos as int) == doc@.subrange(
                pos as int,
                view[i as int].start,
            ) + view[i as int].text + splice(doc@, view.skip(i as int + 1), view[i as int].end));
        }
        pos = op.end;
        i = i + 1;
    }
    proof {
        assert(view.skip(n as int) =~= Seq::<GhostOp>::empty());
        assert(splice(doc@, view.skip(n as int), pos as int) == doc@.subrange(
            pos as int,
            doc@.len() as int,
        ));
    }
    out.append(doc.substring_char(pos, doc_len));
    out
}

/// Applies the plan when it fits the document, and reports a plan that does
/// not fit instead of touching anything.
pub fn apply_edit_plan_checked(doc: &str, plan: &EditPlan) -> (r: Option<String>)
    ensures
        r is Some <==> ops_ordered(plan_view(*plan), doc@.len() as int),
        r matches Some(s) ==> s@ == apply_plan_spec(doc@, plan_view(*plan)),
{
    let doc_len = doc.unicode_len();
    if plan_fits(plan, doc_len) {
        Some(apply_edit_plan(doc, plan))
    } else {
        None
    }
}

} // verus!
