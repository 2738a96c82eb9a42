//! Ingredient extraction and replacement-text generation, one pair per
//! catalog idiom.
//!
//! Generators are pure text renderers: deterministic in the ingredients they
//! are handed and stated exactly, character for character, against spec-level
//! text builders.  Extractors pull those ingredients out of a call shape and
//! signal "unextractable" by `None` when the expected sub-structure is
//! absent; nothing here raises.

use vstd::prelude::*;

use crate::model::{CallShape, IndexExpr, LetShape};
use crate::text::contains_seq;
use crate::text::string_contains;

verus! {

/// The zero-filled buffer binding that replaces a reserve-then-set-length
/// pair.
pub open spec fn safevec_text(receiver: Seq<char>, count: Seq<char>) -> Seq<char> {
    "let mut "@ + receiver + " = vec![0; "@ + count + "];"@
}

/// The checked in-buffer range copy statement.
pub open spec fn copywithin_text(
    base: Seq<char>,
    start: Seq<char>,
    end: Seq<char>,
    count: Seq<char>,
) -> Seq<char> {
    base + ".copy_within("@ + start + ".."@ + end + ", "@ + count + ");\n"@
}

/// The checked between-buffers copy statement.
pub open spec fn copy_from_slice_text(src: Seq<char>, dst: Seq<char>) -> Seq<char> {
    dst + ".copy_from_slice(&"@ + src + ");\n"@
}

/// The checked index binding: `get_mut` under a mutability marker, `get`
/// otherwise.
pub open spec fn get_mut_text(
    pat: Seq<char>,
    receiver: Seq<char>,
    index: Seq<char>,
    mutable: bool,
) -> Seq<char> {
    if mutable {
        "let "@ + pat + " = "@ + receiver + ".get_mut("@ + index + ");"@
    } else {
        "let "@ + pat + " = "@ + receiver + ".get("@ + index + ");"@
    }
}

/// The validated string constructor, in binding or comparison shape.
pub open spec fn cstring_new_text(subject: Seq<char>, arg: Seq<char>, is_binding: bool) -> Seq<
    char,
> {
    if is_binding {
        "let "@ + subject + " = CString::new("@ + arg + ");"@
    } else {
        subject + " == CString::new("@ + arg + ")"@
    }
}

/// The suffix a raw-pointer view adds to the length accessor's argument.
pub open spec fn as_ptr_suffix() -> Seq<char> {
    ".as_ptr()"@
}

/// The argument of the raw length check, with a trailing raw-pointer view
/// stripped so the checked form can read the bytes directly.
pub open spec fn strip_as_ptr(arg: Seq<char>) -> Seq<char> {
    if arg.len() >= 9 && arg.subrange(arg.len() - 9, arg.len() as int) == as_ptr_suffix() {
        arg.subrange(0, arg.len() - 9)
    } else {
        arg
    }
}

/// The checked byte-length read, in binding or comparison shape.
pub open spec fn bytes_len_text(subject: Seq<char>, arg: Seq<char>, is_binding: bool) -> Seq<
    char,
> {
    if is_binding {
        "let "@ + subject + " = "@ + strip_as_ptr(arg) + ".as_bytes().len();"@
    } else {
        subject + " == "@ + strip_as_ptr(arg) + ".as_bytes().len()"@
    }
}

/// What `generate_safevec_format` returns: the zero-filled binding, when the
/// call is a method call of exactly one argument.
pub open spec fn safevec_format_spec(call: CallShape) -> Option<Seq<char>> {
    if call.is_method && call.args@.len() == 1 {
        Some(safevec_text(call.receiver@, call.args@[0].text@))
    } else {
        None
    }
}

/// Renders the replacement for a reserve-then-set-length pair from the
/// length-setting method call: its receiver names the buffer, its single
/// argument the element count.
pub fn generate_safevec_format(call: &CallShape) -> (r: Option<String>)
    ensures
        r is Some <==> safevec_format_spec(*call) is Some,
        r matches Some(s) ==> safevec_format_spec(*call) == Some(s@),
{
    if !call.is_method || call.args.len() != 1 {
        return None;
    }
    let mut buf = String::new();
    buf.append("let mut ");
    buf.append(call.receiver.as_str());
    buf.append(" = vec![0; ");
    buf.append(call.args[0].text.as_str());
    buf.append("];");
    Some(buf)
}

/// Renders the checked in-buffer range copy from its rendered ingredients.
pub fn generate_copywithin_string(
    base_expr: String,
    start_pos: String,
    end_pos: String,
    count_expr: String,
) -> (r: String)
    ensures
        r@ == copywithin_text(base_expr@, start_pos@, end_pos@, count_expr@),
{
    let mut buf = base_expr;
    buf.append(".copy_within(");
    buf.append(start_pos.as_str());
    buf.append("..");
    buf.append(end_pos.as_str());
    buf.append(", ");
    buf.append(count_expr.as_str());
    buf.append(");\n");
    buf
}

/// The two indexing arguments of a raw copy call.
pub struct PtrCpyInfo {
    /// The source indexing expression (first argument).
    pub src_expr: IndexExpr,
    /// The destination indexing expression (second argument).
    pub dst_expr: IndexExpr,
}

/// The rendered ingredients of the checked in-buffer range copy.
pub struct CpyWithinInfo {
    /// The shared buffer expression.
    pub base_expr: String,
    /// The start of the source range.
    pub start_pos: String,
    /// The end of the destination range.
    pub end_pos: String,
    /// The element count, echoed from the call's third argument.
    pub count_expr: String,
}

/// What `collect_ptr_cpy_info` finds: the indexing expressions of the first
/// two arguments, when both are present.
pub open spec fn ptr_cpy_info_spec(call: CallShape) -> Option<PtrCpyInfo> {
    if call.args@.len() >= 2 {
        match (call.args@[0].index_part, call.args@[1].index_part) {
            (Some(src), Some(dst)) => Some(PtrCpyInfo { src_expr: src, dst_expr: dst }),
            _ => None,
        }
    } else {
        None
    }
}

/// Copies one indexing expression out of the model.
fn clone_index_expr(ix: &IndexExpr) -> (r: IndexExpr)
    ensures
        r == *ix,
{
    IndexExpr { base: ix.base.clone(), index: ix.index.clone(), text: ix.text.clone() }
}

/// Pulls the indexing expressions out of the first two arguments of a raw
/// copy call; `None` when either argument has no indexing sub-expression.
pub fn collect_ptr_cpy_info(call: &CallShape) -> (r: Option<PtrCpyInfo>)
    ensures
        r == ptr_cpy_info_spec(*call),
{
    if call.args.len() < 2 {
        return None;
    }
    let src = match &call.args[0].index_part {
        Some(ix) => clone_index_expr(ix),
        None => {
            return None;
        },
    };
    let dst = match &call.args[1].index_part {
        Some(ix) => clone_index_expr(ix),
        None => {
            return None;
        },
    };
    Some(PtrCpyInfo { src_expr: src, dst_expr: dst })
}

/// What `collect_cpy_within_info` extracts: the shared base, both bounds and
/// the echoed count, when the call has three arguments and the two indexing
/// expressions share one base.
pub open spec fn cpy_within_info_spec(
    call: CallShape,
    src_expr: IndexExpr,
    dst_expr: IndexExpr,
) -> Option<CpyWithinInfo> {
    if call.args@.len() == 3 && src_expr.base@ == dst_expr.base@ {
        Some(
            CpyWithinInfo {
                base_expr: src_expr.base,
                start_pos: src_expr.index,
                end_pos: dst_expr.index,
                count_expr: call.args@[2].text,
            },
        )
    } else {
        None
    }
}

/// Extracts the range-copy ingredients: the count is the call's third
/// argument, the bounds are the two indexing expressions' indices, and both
/// indexing expressions must read one buffer.
pub fn collect_cpy_within_info(
    call: &CallShape,
    src_expr: &IndexExpr,
    dst_expr: &IndexExpr,
) -> (r: Option<CpyWithinInfo>)
    ensures
        r is Some <==> cpy_within_info_spec(*call, *src_expr, *dst_expr) is Some,
        r matches Some(info) ==> cpy_within_info_spec(*call, *src_expr, *dst_expr) matches Some(
            spec_info,
        ) && info.base_expr@ == spec_info.base_expr@ && info.start_pos@ == spec_info.start_pos@
            && info.end_pos@ == spec_info.end_pos@ && info.count_expr@ == spec_info.count_expr@,
{
    if call.args.len() != 3 {
        return None;
    }
    if !crate::text::str_eq(src_expr.base.as_str(), dst_expr.base.as_str()) {
        return None;
    }
    Some(
        CpyWithinInfo {
            base_expr: src_expr.base.clone(),
            start_pos: src_expr.index.clone(),
            end_pos: dst_expr.index.clone(),
            count_expr: call.args[2].text.clone(),
        },
    )
}

/// What `generate_copywithin_format` returns for a raw in-buffer copy call.
pub open spec fn copywithin_format_spec(call: CallShape) -> Option<Seq<char>> {
    match ptr_cpy_info_spec(call) {
        Some(info) => {
            if call.args@.len() == 3 && info.src_expr.base@ == info.dst_expr.base@ {
                Some(
                    copywithin_text(
                        info.src_expr.base@,
                        info.src_expr.index@,
                        info.dst_expr.index@,
                        call.args@[2].text@,
                    ),
                )
            } else {
                None
            }
        },
        None => None,
    }
}

/// Renders the checked range copy for a raw in-buffer copy call, or `None`
/// when the call does not have the expected three-argument two-index shape.
pub fn generate_copywithin_format(call: &CallShape) -> (r: Option<String>)
    ensures
        r is Some <==> copywithin_format_spec(*call) is Some,
        r matches Some(s) ==> copywithin_format_spec(*call) == Some(s@),
{
    let info = match collect_ptr_cpy_info(call) {
        Some(info) => info,
        None => {
            return None;
        },
    };
    let w = match collect_cpy_within_info(call, &info.src_expr, &info.dst_expr) {
        Some(w) => w,
        None => {
            return None;
        },
    };
    Some(generate_copywithin_string(w.base_expr, w.start_pos, w.end_pos, w.count_expr))
}

/// The two indexing arguments of a raw non-overlapping copy call.
pub struct CpyNonOverlapInfo {
    /// The source indexing expression (first argument).
    pub src_expr: IndexExpr,
    /// The destination indexing expression (second argument).
    pub dst_expr: IndexExpr,
}

/// What `collect_cpy_nonoverlap_info` finds: the indexing expressions of the
/// first two arguments; the buffers may differ.
pub open spec fn cpy_nonoverlap_info_spec(call: CallShape) -> Option<CpyNonOverlapInfo> {
    if call.args@.len() >= 2 {
        match (call.args@[0].index_part, call.args@[1].index_part) {
            (Some(src), Some(dst)) => Some(CpyNonOverlapInfo { src_expr: src, dst_expr: dst }),
            _ => None,
        }
    } else {
        None
    }
}

/// Pulls the two indexing expressions out of a raw non-overlapping copy
/// call's arguments.
pub fn collect_cpy_nonoverlap_info(call: &CallShape) -> (r: Option<CpyNonOverlapInfo>)
    ensures
        r == cpy_nonoverlap_info_spec(*call),
{
    if call.args.len() < 2 {
        return None;
    }
    let src = match &call.args[0].index_part {
        Some(ix) => clone_index_expr(ix),
        None => {
            return None;
        },
    };
    let dst = match &call.args[1].index_part {
        Some(ix) => clone_index_expr(ix),
        None => {
            return None;
        },
    };
    Some(CpyNonOverlapInfo { src_expr: src, dst_expr: dst })
}

/// Renders the checked between-buffers copy from the two indexing
/// expressions: the destination receives, the source is borrowed.
pub fn generate_copy_from_slice_string(src_expr: IndexExpr, dst_expr: IndexExpr) -> (r: String)
    ensures
        r@ == copy_from_slice_text(src_expr.text@, dst_expr.text@),
{
    let mut buf = dst_expr.text;
    buf.append(".copy_from_slice(&");
    buf.append(src_expr.text.as_str());
    buf.append(");\n");
    buf
}

/// What `generate_copy_from_slice_format` returns for a raw non-overlapping
/// copy call.
pub open spec fn copy_from_slice_format_spec(call: CallShape) -> Option<Seq<char>> {
    match cpy_nonoverlap_info_spec(call) {
        Some(info) => Some(copy_from_slice_text(info.src_expr.text@, info.dst_expr.text@)),
        None => None,
    }
}

/// Renders the checked between-buffers copy for a raw non-overlapping copy
/// call, or `None` when either of the first two arguments lacks an indexing
/// sub-expression.
pub fn generate_copy_from_slice_format(call: &CallShape) -> (r: Option<String>)
    ensures
        r is Some <==> copy_from_slice_format_spec(*call) is Some,
        r matches Some(s) ==> copy_from_slice_format_spec(*call) == Some(s@),
{
    let info = match collect_cpy_nonoverlap_info(call) {
        Some(info) => info,
        None => {
            return None;
        },
    };
    Some(generate_copy_from_slice_string(info.src_expr, info.dst_expr))
}

/// What `generate_get_mut` returns: the checked index binding, when the call
/// is a method call of one argument; the mutable accessor is chosen exactly
/// when the consuming binding's initializer carries a mutability marker.
pub open spec fn get_mut_format_spec(call: CallShape, let_expr: LetShape) -> Option<Seq<char>> {
    if call.is_method && call.args@.len() == 1 {
        Some(
            get_mut_text(
                let_expr.pat@,
                call.receiver@,
                call.args@[0].text@,
                contains_seq(let_expr.init@, "mut"@),
            ),
        )
    } else {
        None
    }
}

/// Renders the checked index binding for an unchecked index call consumed by
/// the given binding.
pub fn generate_get_mut(call: &CallShape, let_expr: &LetShape) -> (r: Option<String>)
    ensures
        r is Some <==> get_mut_format_spec(*call, *let_expr) is Some,
        r matches Some(s) ==> get_mut_format_spec(*call, *let_expr) == Some(s@),
{
    if !call.is_method || call.args.len() != 1 {
        return None;
    }
    let mut buf = String::new();
    buf.append("let ");
    buf.append(let_expr.pat.as_str());
    buf.append(" = ");
    buf.append(call.receiver.as_str());
    if string_contains(&let_expr.init, "mut") {
        buf.append(".get_mut(");
    } else {
        buf.append(".get(");
    }
    buf.append(call.args[0].text.as_str());
    buf.append(");");
    Some(buf)
}

/// What `generate_cstring_new_format` returns: the validated constructor,
/// preserving the binding or comparison shape the unchecked call occupied.
pub open spec fn cstring_new_format_spec(
    subject: Seq<char>,
    call: CallShape,
    is_binding: bool,
) -> Option<Seq<char>> {
    if call.args@.len() == 1 {
        Some(cstring_new_text(subject, call.args@[0].text@, is_binding))
    } else {
        None
    }
}

/// Renders the validated string constructor around the unchecked call's
/// argument; the subject is the binding pattern or the comparison's left
/// operand.
pub fn generate_cstring_new_format(subject: String, call: &CallShape, is_binding: bool) -> (r:
    Option<String>)
    ensures
        r is Some <==> cstring_new_format_spec(subject@, *call, is_binding) is Some,
        r matches Some(s) ==> cstring_new_format_spec(subject@, *call, is_binding) == Some(s@),
{
    if call.args.len() != 1 {
        return None;
    }
    let mut buf = String::new();
    if is_binding {
        buf.append("let ");
        buf.append(subject.as_str());
        buf.append(" = CString::new(");
        buf.append(call.args[0].text.as_str());
        buf.append(");");
    } else {
        buf.append(subject.as_str());
        buf.append(" == CString::new(");
        buf.append(call.args[0].text.as_str());
        buf.append(")");
    }
    Some(buf)
}

/// Strips a trailing raw-pointer view from the length check's argument.
fn strip_as_ptr_exec(arg: &String) -> (r: String)
    ensures
        r@ == strip_as_ptr(arg@),
{
    let len = arg.as_str().unicode_len();
    if len >= 9 {
        let tail = arg.as_str().substring_char(len - 9, len);
        if crate::text::str_eq(tail, ".as_ptr()") {
            let head = arg.as_str().substring_char(0, len - 9);
            let mut buf = String::new();
            buf.append(head);
            return buf;
        }
    }
    arg.clone()
}

/// What `generate_bytes_len_format` returns: the checked byte-length read,
/// preserving the binding or comparison shape the unchecked call occupied.
pub open spec fn bytes_len_format_spec(
    subject: Seq<char>,
    call: CallShape,
    is_binding: bool,
) -> Option<Seq<char>> {
    if call.args@.len() == 1 {
        Some(bytes_len_text(subject, call.args@[0].text@, is_binding))
    } else {
        None
    }
}

/// Renders the checked byte-length read for a raw length check; a trailing
/// raw-pointer view on the argument is stripped so the subject's bytes are
/// read directly.
pub fn generate_bytes_len_format(subject: String, call: &CallShape, is_binding: bool) -> (r:
    Option<String>)
    ensures
        r is Some <==> bytes_len_format_spec(subject@, *call, is_binding) is Some,
        r matches Some(s) ==> bytes_len_format_spec(subject@, *call, is_binding) == Some(s@),
{
    if call.args.len() != 1 {
        return None;
    }
    let recv = strip_as_ptr_exec(&call.args[0].text);
    let mut buf = String::new();
    if is_binding {
        buf.append("let ");
        buf.append(subject.as_str());
        buf.append(" = ");
        buf.append(recv.as_str());
        buf.append(".as_bytes().len();");
    } else {
        buf.append(subject.as_str());
        buf.append(" == ");
        buf.append(recv.as_str());
        buf.append(".as_bytes().len()");
    }
    Some(buf)
}

} // verus!
