//! The preview renderer: a read-only before/after block for each confirmed
//! match.
//!
//! The preview reuses the classifier, extractors and generators of the
//! editing path, so it can never diverge from the edit that would be
//! applied; it touches no source text and propagates "no match" as "no
//! preview".

use vstd::prelude::*;

use crate::classify::{check_convert_type, classify_spec, find_reserve_companion, is_first_reserve,
    lemma_first_reserve_unique, reserve_confirmed, reserve_idx};
use crate::generate::{bytes_len_format_spec, copy_from_slice_format_spec, copywithin_format_spec,
    cstring_new_format_spec, generate_bytes_len_format, generate_copy_from_slice_format,
    generate_copywithin_format, generate_cstring_new_format, generate_get_mut, generate_safevec_format,
    get_mut_format_spec, safevec_format_spec};
use crate::model::{CallShape, CallSite, Stmt, UnsafeRegion};
use crate::pattern::UnsafePattern;

verus! {

/// The one-line description above every rewrite preview.
pub open spec fn description_text() -> Seq<char> {
    "Code Suggestion: translating unsafe to safe code"@
}

/// The heading of the preview's original part.
pub open spec fn original_header() -> Seq<char> {
    "Original Code: \n\n"@
}

/// The heading of the preview's modified part.
pub open spec fn modify_header() -> Seq<char> {
    "Modified Code: \n\n"@
}

/// A line of the original, rendered with the removal marker.
pub open spec fn removal_mark(t: Seq<char>) -> Seq<char> {
    "**```---```** **~~```"@ + t + "```~~**"@
}

/// A line of the replacement, rendered with the addition marker.
pub open spec fn addition_mark(t: Seq<char>) -> Seq<char> {
    "**```+++```** **```"@ + t + "```**"@
}

/// A statement shown inside its unsafe wrapper.
pub open spec fn unsafe_wrap_stmt(t: Seq<char>) -> Seq<char> {
    "unsafe { "@ + t + " };"@
}

/// An expression shown inside its unsafe wrapper.
pub open spec fn unsafe_wrap_expr(t: Seq<char>) -> Seq<char> {
    "unsafe { "@ + t + " }"@
}

/// The description above every rewrite preview.
pub fn generate_description() -> (r: String)
    ensures
        r@ == description_text(),
{
    let mut buf = String::new();
    buf.append("Code Suggestion: translating unsafe to safe code");
    buf
}

/// The heading of the preview's original part.
pub fn generate_original() -> (r: String)
    ensures
        r@ == original_header(),
{
    let mut buf = String::new();
    buf.append("Original Code: \n\n");
    buf
}

/// The heading of the preview's modified part.
pub fn generate_modify() -> (r: String)
    ensures
        r@ == modify_header(),
{
    let mut buf = String::new();
    buf.append("Modified Code: \n\n");
    buf
}

/// What `markup` assembles from an optional body, a title, and an optional
/// path.
pub open spec fn markup_spec(
    docs: Option<Seq<char>>,
    desc: Seq<char>,
    mod_path: Option<Seq<char>>,
) -> Seq<char> {
    let head = match mod_path {
        Some(mp) => if mp.len() > 0 {
            "```rust\n"@ + mp + "\n```\n\n"@
        } else {
            Seq::empty()
        },
        None => Seq::empty(),
    };
    let tail = match docs {
        Some(d) => "\n___\n\n"@ + d,
        None => Seq::empty(),
    };
    head + "```rust\n"@ + desc + "\n```"@ + tail
}

/// Assembles a renderable block from an optional body, a title, and an
/// optional path.
pub fn markup(docs: Option<String>, desc: String, mod_path: Option<String>) -> (r: String)
    ensures
        r@ == markup_spec(
            match docs {
                Some(d) => Some(d@),
                None => None,
            },
            desc@,
            match mod_path {
                Some(mp) => Some(mp@),
                None => None,
            },
        ),
{
    let mut buf = String::new();
    match &mod_path {
        Some(mp) => {
            if !mp.as_str().is_empty() {
                buf.append("```rust\n");
                buf.append(mp.as_str());
                buf.append("\n```\n\n");
            } else {
                proof {
                    assert(mp@.len() == 0);
                }
            }
        },
        None => {},
    }
    buf.append("```rust\n");
    buf.append(desc.as_str());
    buf.append("\n```");
    match &docs {
        Some(d) => {
            buf.append("\n___\n\n");
            buf.append(d.as_str());
        },
        None => {},
    }
    buf
}

/// Hands a preview block through to the display unchanged.
pub fn process_unsafe_display_text(markup_text: &String) -> (r: String)
    ensures
        r@ == markup_text@,
{
    markup_text.clone()
}

/// A keyword's hover material: its description and the documentation module
/// it points at.
pub struct KeywordHint {
    /// The rendered description.
    pub description: String,
    /// The standard documentation module for the keyword.
    pub keyword_mod: String,
}

impl KeywordHint {
    /// Builds a hint from its two parts.
    pub fn new(description: String, keyword_mod: String) -> (r: Self)
        ensures
            r.description@ == description@,
            r.keyword_mod@ == keyword_mod@,
    {
        KeywordHint { description, keyword_mod }
    }
}

/// What the reserve-then-set-length preview shows: the reservation binding
/// and the unsafe-wrapped call with removal markers, the generated binding
/// with the addition marker.
pub open spec fn format_unitialized_spec(call: CallShape, region: UnsafeRegion) -> Option<
    Seq<char>,
> {
    if reserve_confirmed(region, call.receiver@) {
        match safevec_format_spec(call) {
            Some(gen) => Some(
                original_header() + removal_mark(
                    region.before@[reserve_idx(region.before@, call.receiver@)].text@,
                ) + "\n\n"@ + "\n\n"@ + removal_mark(unsafe_wrap_stmt(call.text@)) + "\n\n"@
                    + modify_header() + addition_mark(gen),
            ),
            None => None,
        }
    } else {
        None
    }
}

/// Renders the reserve-then-set-length preview body.
pub fn format_suggestion_unitialized_vec(call: &CallShape, region: &UnsafeRegion) -> (r: Option<
    String,
>)
    ensures
        r is Some <==> format_unitialized_spec(*call, *region) is Some,
        r matches Some(s) ==> format_unitialized_spec(*call, *region) == Some(s@),
{
    let ci = match find_reserve_companion(region, &call.receiver) {
        Some(i) => i,
        None => {
            proof {
                if reserve_confirmed(*region, call.receiver@) {
                    let j = choose|j: int|
                        is_first_reserve(region.before@, call.receiver@, j)
                            && region.before@[j].is_let;
                    assert(crate::classify::mentions_reserve(region.before@[j], call.receiver@));
                }
            }
            return None;
        },
    };
    if !region.before[ci].is_let {
        proof {
            if reserve_confirmed(*region, call.receiver@) {
                let j = choose|j: int|
                    is_first_reserve(region.before@, call.receiver@, j) && region.before@[j].is_let;
                lemma_first_reserve_unique(region.before@, call.receiver@, ci as int, j);
            }
        }
        return None;
    }
    proof {
        lemma_first_reserve_unique(
            region.before@,
            call.receiver@,
            ci as int,
            reserve_idx(region.before@, call.receiver@),
        );
    }
    let gen = match generate_safevec_format(call) {
        Some(g) => g,
        None => {
            return None;
        },
    };
    let mut buf = generate_original();
    buf.append("**```---```** **~~```");
    buf.append(region.before[ci].text.as_str());
    buf.append("```~~**");
    buf.append("\n\n");
    buf.append("\n\n");
    buf.append("**```---```** **~~```");
    buf.append("unsafe { ");
    buf.append(call.text.as_str());
    buf.append(" };");
    buf.append("```~~**");
    buf.append("\n\n");
    let modify = generate_modify();
    buf.append(modify.as_str());
    buf.append("**```+++```** **```");
    buf.append(gen.as_str());
    buf.append("```**");
    Some(buf)
}

/// What the in-buffer range copy preview shows.
pub open spec fn format_ptr_copy_spec(call: CallShape) -> Option<Seq<char>> {
    match copywithin_format_spec(call) {
        Some(gen) => Some(
            original_header() + removal_mark(unsafe_wrap_stmt(call.text@)) + "\n\n"@
                + modify_header() + addition_mark(gen),
        ),
        None => None,
    }
}

/// Renders the in-buffer range copy preview body.
pub fn format_suggestion_ptr_copy(call: &CallShape) -> (r: Option<String>)
    ensures
        r is Some <==> format_ptr_copy_spec(*call) is Some,
        r matches Some(s) ==> format_ptr_copy_spec(*call) == Some(s@),
{
    let gen = match generate_copywithin_format(call) {
        Some(g) => g,
        None => {
            return None;
        },
    };
    let mut buf = generate_original();
    buf.append("**```---```** **~~```");
    buf.append("unsafe { ");
    buf.append(call.text.as_str());
    buf.append(" };");
    buf.append("```~~**");
    buf.append("\n\n");
    let modify = generate_modify();
    buf.append(modify.as_str());
    buf.append("**```+++```** **```");
    buf.append(gen.as_str());
    buf.append("```**");
    Some(buf)
}

/// What the between-buffers copy preview shows.
pub open spec fn format_nonoverlap_spec(call: CallShape) -> Option<Seq<char>> {
    match copy_from_slice_format_spec(call) {
        Some(gen) => Some(
            removal_mark(unsafe_wrap_stmt(call.text@)) + "\n\n"@ + addition_mark(gen),
        ),
        None => None,
    }
}

/// Renders the between-buffers copy preview body.
pub fn format_suggestion_ptr_copy_nonoverlapping(call: &CallShape) -> (r: Option<String>)
    ensures
        r is Some <==> format_nonoverlap_spec(*call) is Some,
        r matches Some(s) ==> format_nonoverlap_spec(*call) == Some(s@),
{
    let gen = match generate_copy_from_slice_format(call) {
        Some(g) => g,
        None => {
            return None;
        },
    };
    let mut buf = String::new();
    buf.append("**```---```** **~~```");
    buf.append("unsafe { ");
    buf.append(call.text.as_str());
    buf.append(" };");
    buf.append("```~~**");
    buf.append("\n\n");
    buf.append("**```+++```** **```");
    buf.append(gen.as_str());
    buf.append("```**");
    Some(buf)
}

/// What the unchecked index preview shows: the consuming binding with the
/// removal marker, the checked binding with the addition marker.
pub open spec fn format_get_uncheck_spec(call: CallShape, stmt: Stmt) -> Option<Seq<char>> {
    match call.site {
        CallSite::LetInit(let_shape) => match get_mut_format_spec(call, let_shape) {
            Some(gen) => Some(removal_mark(stmt.text@) + "\n\n"@ + addition_mark(gen)),
            None => None,
        },
        _ => None,
    }
}

/// Renders the unchecked index preview body.
pub fn format_suggestion_get_uncheck_mut(call: &CallShape, stmt: &Stmt) -> (r: Option<String>)
    ensures
        r is Some <==> format_get_uncheck_spec(*call, *stmt) is Some,
        r matches Some(s) ==> format_get_uncheck_spec(*call, *stmt) == Some(s@),
{
    let let_shape = match &call.site {
        CallSite::LetInit(ls) => ls,
        _ => {
            return None;
        },
    };
    let gen = match generate_get_mut(call, let_shape) {
        Some(g) => g,
        None => {
            return None;
        },
    };
    let mut buf = String::new();
    buf.append("**```---```** **~~```");
    buf.append(stmt.text.as_str());
    buf.append("```~~**");
    buf.append("\n\n");
    buf.append("**```+++```** **```");
    buf.append(gen.as_str());
    buf.append("```**");
    Some(buf)
}

/// What the validated-string constructor preview shows, in either of the
/// shapes the call may occupy.
pub open spec fn format_cstring_new_spec(call: CallShape, stmt: Stmt) -> Option<Seq<char>> {
    match call.site {
        CallSite::LetInit(let_shape) => match cstring_new_format_spec(let_shape.pat@, call, true) {
            Some(gen) => Some(
                removal_mark(unsafe_wrap_expr(stmt.text@)) + "\n\n"@ + addition_mark(gen),
            ),
            None => None,
        },
        CallSite::BinOperand(lhs) => match cstring_new_format_spec(lhs@, call, false) {
            Some(gen) => Some(
                removal_mark(unsafe_wrap_expr(stmt.text@)) + "\n\n"@ + addition_mark(gen),
            ),
            None => None,
        },
        CallSite::ExprPosition => None,
    }
}

/// Renders the validated-string constructor preview body.
pub fn format_suggestion_cstring_from_vec_unchecked(call: &CallShape, stmt: &Stmt) -> (r: Option<
    String,
>)
    ensures
        r is Some <==> format_cstring_new_spec(*call, *stmt) is Some,
        r matches Some(s) ==> format_cstring_new_spec(*call, *stmt) == Some(s@),
{
    let gen_opt = match &call.site {
        CallSite::LetInit(ls) => generate_cstring_new_format(ls.pat.clone(), call, true),
        CallSite::BinOperand(lhs) => generate_cstring_new_format(lhs.clone(), call, false),
        CallSite::ExprPosition => {
            return None;
        },
    };
    let gen = match gen_opt {
        Some(g) => g,
        None => {
            return None;
        },
    };
    let mut buf = String::new();
    buf.append("**```---```** **~~```");
    buf.append("unsafe { ");
    buf.append(stmt.text.as_str());
    buf.append(" }");
    buf.append("```~~**");
    buf.append("\n\n");
    buf.append("**```+++```** **```");
    buf.append(gen.as_str());
    buf.append("```**");
    Some(buf)
}

/// What the raw length check preview shows, in either of the shapes the
/// call may occupy.
pub open spec fn format_bytes_len_spec(call: CallShape, stmt: Stmt) -> Option<Seq<char>> {
    match call.site {
        CallSite::LetInit(let_shape) => match bytes_len_format_spec(let_shape.pat@, call, true) {
            Some(gen) => Some(
                removal_mark(unsafe_wrap_expr(stmt.text@)) + "\n\n"@ + addition_mark(gen),
            ),
            None => None,
        },
        CallSite::BinOperand(lhs) => match bytes_len_format_spec(lhs@, call, false) {
            Some(gen) => Some(
                removal_mark(unsafe_wrap_expr(stmt.text@)) + "\n\n"@ + addition_mark(gen),
            ),
            None => None,
        },
        CallSite::ExprPosition => None,
    }
}

/// Renders the raw length check preview body.
pub fn format_suggestion_cstring_bytes_len(call: &CallShape, stmt: &Stmt) -> (r: Option<String>)
    ensures
        r is Some <==> format_bytes_len_spec(*call, *stmt) is Some,
        r matches Some(s) ==> format_bytes_len_spec(*call, *stmt) == Some(s@),
{
    let gen_opt = match &call.site {
        CallSite::LetInit(ls) => generate_bytes_len_format(ls.pat.clone(), call, true),
        CallSite::BinOperand(lhs) => generate_bytes_len_format(lhs.clone(), call, false),
        CallSite::ExprPosition => {
            return None;
        },
    };
    let gen = match gen_opt {
        Some(g) => g,
        None => {
            return None;
        },
    };
    let mut buf = String::new();
    buf.append("**```---```** **~~```");
    buf.append("unsafe { ");
    buf.append(stmt.text.as_str());
    buf.append(" }");
    buf.append("```~~**");
    buf.append("\n\n");
    buf.append("**```+++```** **```");
    buf.append(gen.as_str());
    buf.append("```**");
    Some(buf)
}

/// The preview body the region's `k`-th statement yields, if any.
pub open spec fn preview_for(stmt: Stmt, region: UnsafeRegion) -> Option<Seq<char>> {
    match stmt.call {
        None => None,
        Some(call) => match classify_spec(call, region) {
            None => None,
            Some(idiom) => match idiom {
                UnsafePattern::UnitializedVec => format_unitialized_spec(call, region),
                UnsafePattern::CopyWithin => format_ptr_copy_spec(call),
                UnsafePattern::GetUncheck => format_get_uncheck_spec(call, stmt),
                UnsafePattern::GetUncheckMut => format_get_uncheck_spec(call, stmt),
                UnsafePattern::CopyNonOverlap => format_nonoverlap_spec(call),
                UnsafePattern::CStringFromVec => format_cstring_new_spec(call, stmt),
                UnsafePattern::CStringLength => format_bytes_len_spec(call, stmt),
                UnsafePattern::SetVecCapacity => None,
            },
        },
    }
}

/// The whole preview block: a body framed by the description, or nothing
/// where no body arises.
pub open spec fn wrapped_preview(body: Seq<char>) -> Seq<char> {
    markup_spec(Some(body), description_text(), None)
}

/// The first preview the region's statements yield, scanning from `k` on.
pub open spec fn preview_from(region: UnsafeRegion, k: int) -> Option<Seq<char>>
    decreases region.stmts@.len() - k,
{
    if 0 <= k < region.stmts@.len() {
        match preview_for(region.stmts@[k], region) {
            Some(body) => Some(wrapped_preview(body)),
            None => preview_from(region, k + 1),
        }
    } else {
        None
    }
}

/// Scans the region's statements in document order and renders the first
/// confirmed match's before/after preview; a region without a confirmed
/// match yields no preview.
pub fn display_unsafe_suggestion(region: &UnsafeRegion) -> (r: Option<String>)
    ensures
        r is Some <==> preview_from(*region, 0) is Some,
        r matches Some(s) ==> preview_from(*region, 0) == Some(s@),
{
    let n = region.stmts.len();
    let mut k: usize = 0;
    while k < n
        invariant
            n == region.stmts@.len(),
            k <= n,
            preview_from(*region, 0) == preview_from(*region, k as int),
        decreases n - k,
    {
        let stmt = &region.stmts[k];
        let body_opt: Option<String> = match &stmt.call {
            None => None,
            Some(call) => match check_convert_type(call, region) {
                None => None,
                Some(idiom) => match idiom {
                    UnsafePattern::UnitializedVec => format_suggestion_unitialized_vec(
                        call,
                        region,
                    ),
                    UnsafePattern::CopyWithin => format_suggestion_ptr_copy(call),
                    UnsafePattern::GetUncheck => format_suggestion_get_uncheck_mut(call, stmt),
                    UnsafePattern::GetUncheckMut => format_suggestion_get_uncheck_mut(call, stmt),
                    UnsafePattern::CopyNonOverlap => format_suggestion_ptr_copy_nonoverlapping(
                        call,
                    ),
                    UnsafePattern::CStringFromVec => format_suggestion_cstring_from_vec_unchecked(
                        call,
                        stmt,
                    ),
                    UnsafePattern::CStringLength => format_suggestion_cstring_bytes_len(
                        call,
                        stmt,
                    ),
                    UnsafePattern::SetVecCapacity => None,
                },
            },
        };
        match body_opt {
            Some(body) => {
                let us_description = generate_description();
                let block = markup(Some(body), us_description, None);
                let shown = process_unsafe_display_text(&block);
                return Some(shown);
            },
            None => {},
        }
        k = k + 1;
    }
    None
}

} // verus!
