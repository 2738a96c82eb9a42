//! The data model of an unsafe region and its surroundings.
//!
//! The engine never walks a syntax tree itself: the caller renders the few
//! facts the catalog needs — statement texts, call shapes, and character
//! offsets into the document — into these plain structures.  Offsets count
//! characters of the document; each statement carries, besides its own range,
//! the extent of its line (leading and trailing horizontal whitespace, and
//! the position just past the newline that ends it, when one does).

use vstd::prelude::*;

verus! {

/// An indexing sub-expression `base[index]`, rendered as text.
#[derive(Clone)]
pub struct IndexExpr {
    /// The indexed collection expression.
    pub base: String,
    /// The index or range expression inside the brackets.
    pub index: String,
    /// The whole indexing expression.
    pub text: String,
}

/// The binding parts of a `let` statement.
#[derive(Clone)]
pub struct LetShape {
    /// The binding pattern's text.
    pub pat: String,
    /// The initializer expression's text.
    pub init: String,
}

/// Where a recognized call sits within its statement.
#[derive(Clone)]
pub enum CallSite {
    /// The statement's top-level expression is the call itself.
    ExprPosition,
    /// The call is the initializer of a `let` binding.
    LetInit(LetShape),
    /// The call is the right operand of a binary expression whose left
    /// operand has the carried text.
    BinOperand(String),
}

/// One positional argument of a recognized call.
#[derive(Clone)]
pub struct Arg {
    /// The argument's full text.
    pub text: String,
    /// The indexing sub-expression reached by stripping the argument's
    /// cast, reference or accessor wrappers, where one exists.
    pub index_part: Option<IndexExpr>,
}

/// A call-shaped expression: the candidate a statement offers the catalog.
#[derive(Clone)]
pub struct CallShape {
    /// The full text of the call expression.
    pub text: String,
    /// The rendered text of the called name: a method name such as
    /// `set_len`, or a path such as `ptr::copy`.
    pub callee: String,
    /// Whether the call is a method call with a receiver.
    pub is_method: bool,
    /// The receiver's text; empty for a free call.
    pub receiver: String,
    /// The positional arguments.
    pub args: Vec<Arg>,
    /// The syntactic position the call occupies in its statement.
    pub site: CallSite,
}

/// A statement, inside the region or among its siblings.
#[derive(Clone)]
pub struct Stmt {
    /// The statement's full text.
    pub text: String,
    /// Whether the statement is a `let` binding.
    pub is_let: bool,
    /// Start of the leading horizontal whitespace on the statement's line.
    pub lead_start: usize,
    /// Start of the statement itself.
    pub start: usize,
    /// End of the statement (one past its last character).
    pub end: usize,
    /// End including trailing horizontal whitespace.
    pub trail_end: usize,
    /// One past the newline that ends the line, or `trail_end` when the
    /// line ends without one.
    pub line_end: usize,
    /// The call shape the statement offers for classification, if any.
    pub call: Option<CallShape>,
}

/// An unsafe region: the block node, its statements, and the sibling
/// statements around its enclosing statement.
#[derive(Clone)]
pub struct UnsafeRegion {
    /// Start of the leading horizontal whitespace on the region's line.
    pub lead_start: usize,
    /// Start of the region (its introducing keyword).
    pub start: usize,
    /// End of the region (one past its closing brace).
    pub end: usize,
    /// End including trailing horizontal whitespace.
    pub trail_end: usize,
    /// One past the newline that ends the region's last line, or
    /// `trail_end` when none follows.
    pub line_end: usize,
    /// The leading horizontal whitespace of the region's line, as text.
    pub indent: String,
    /// The statements inside the region, in document order.
    pub stmts: Vec<Stmt>,
    /// Sibling statements before the region's enclosing statement,
    /// nearest first.
    pub before: Vec<Stmt>,
    /// Sibling statements after the region's enclosing statement,
    /// nearest first.
    pub after: Vec<Stmt>,
}

impl Stmt {
    /// The statement's offsets are ordered and its line extends it.
    pub open spec fn wf(self) -> bool {
        self.lead_start <= self.start && self.start <= self.end && self.end <= self.trail_end
            && self.trail_end <= self.line_end && self.line_end <= self.trail_end + 1
    }
}

impl UnsafeRegion {
    /// Every offset of the model is ordered as document positions are:
    /// the region is ordered, its statements are ordered, lie inside it and
    /// do not overlap, and the sibling lists recede from the region in
    /// their respective directions.
    pub open spec fn wf(self) -> bool {
        &&& self.lead_start <= self.start
        &&& self.start < self.end
        &&& self.end <= self.trail_end
        &&& self.trail_end <= self.line_end
        &&& self.line_end <= self.trail_end + 1
        &&& forall|k: int|
            0 <= k < self.stmts.len() ==> (#[trigger] self.stmts[k]).wf()
                && self.start < self.stmts[k].lead_start && self.stmts[k].line_end <= self.end
        &&& forall|k: int|
            1 <= k < self.stmts.len() ==> (#[trigger] self.stmts[k]).lead_start
                >= self.stmts[k - 1].line_end
        &&& forall|k: int| 0 <= k < self.before.len() ==> (#[trigger] self.before[k]).wf()
        &&& (self.before.len() > 0 ==> self.before[0].line_end <= self.lead_start)
        &&& forall|k: int|
            1 <= k < self.before.len() ==> (#[trigger] self.before[k]).line_end
                <= self.before[k - 1].lead_start
        &&& forall|k: int| 0 <= k < self.after.len() ==> (#[trigger] self.after[k]).wf()
        &&& (self.after.len() > 0 ==> self.line_end <= self.after[0].lead_start)
        &&& forall|k: int|
            1 <= k < self.after.len() ==> (#[trigger] self.after[k]).lead_start
                >= self.after[k - 1].line_end
    }
}

/// Every earlier sibling ends no later than the region's line begins.
pub proof fn lemma_before_bound(region: UnsafeRegion, i: int)
    requires
        region.wf(),
        0 <= i < region.before.len(),
    ensures
        region.before[i].line_end <= region.lead_start,
    decreases i,
{
    if i > 0 {
        lemma_before_bound(region, i - 1);
        assert(region.before[i].line_end <= region.before[i - 1].lead_start);
        assert(region.before[i - 1].lead_start <= region.before[i - 1].line_end) by {
            assert(region.before[i - 1].wf());
        }
    }
}

} // verus!
