//! Unit tests on the engine's model: generators, classifier, planner and
//! preview, each on hand-built values with exact expected texts.

use unsafe_rewrites::edit::{apply_edit_plan_checked, EditOp, EditPlan};
use unsafe_rewrites::generate::{
    collect_cpy_nonoverlap_info, collect_cpy_within_info, collect_ptr_cpy_info,
    generate_bytes_len_format, generate_copy_from_slice_format, generate_copy_from_slice_string,
    generate_copywithin_format, generate_copywithin_string, generate_cstring_new_format,
    generate_get_mut, generate_safevec_format,
};
use unsafe_rewrites::model::{Arg, CallShape, CallSite, IndexExpr, LetShape, Stmt, UnsafeRegion};
use unsafe_rewrites::pattern::UnsafePattern;
use unsafe_rewrites::plan::convert_unsafe_to_safe;
use unsafe_rewrites::preview::{
    display_unsafe_suggestion, format_suggestion_get_uncheck_mut, format_suggestion_ptr_copy,
    format_suggestion_ptr_copy_nonoverlapping, generate_description, generate_modify,
    generate_original, markup, process_unsafe_display_text, KeywordHint,
};
use unsafe_rewrites::classify::check_convert_type;
use unsafe_rewrites::diagnose::{assess_statement, Rejection};

fn arg(text: &str) -> Arg {
    Arg { text: text.to_string(), index_part: None }
}

fn index_arg(text: &str, base: &str, index: &str) -> Arg {
    Arg {
        text: text.to_string(),
        index_part: Some(IndexExpr {
            base: base.to_string(),
            index: index.to_string(),
            text: format!("{}[{}]", base, index),
        }),
    }
}

fn method_call(receiver: &str, callee: &str, args: Vec<Arg>, site: CallSite) -> CallShape {
    let arg_texts: Vec<String> = args.iter().map(|a| a.text.clone()).collect();
    CallShape {
        text: format!("{}.{}({})", receiver, callee, arg_texts.join(", ")),
        callee: callee.to_string(),
        is_method: true,
        receiver: receiver.to_string(),
        args,
        site,
    }
}

fn free_call(callee: &str, args: Vec<Arg>, site: CallSite) -> CallShape {
    let arg_texts: Vec<String> = args.iter().map(|a| a.text.clone()).collect();
    CallShape {
        text: format!("{}({})", callee, arg_texts.join(", ")),
        callee: callee.to_string(),
        is_method: false,
        receiver: String::new(),
        args,
        site,
    }
}

fn plain_stmt(text: &str, is_let: bool, start: usize) -> Stmt {
    let end = start + text.len();
    Stmt {
        text: text.to_string(),
        is_let,
        lead_start: start,
        start,
        end,
        trail_end: end,
        line_end: end + 1,
        call: None,
    }
}

fn region_with(stmts: Vec<Stmt>, before: Vec<Stmt>, after: Vec<Stmt>) -> UnsafeRegion {
    UnsafeRegion {
        lead_start: 96,
        start: 100,
        end: 300,
        trail_end: 300,
        line_end: 301,
        indent: "    ".to_string(),
        stmts,
        before,
        after,
    }
}

fn stmt_with_call(text: &str, is_let: bool, start: usize, call: CallShape) -> Stmt {
    let end = start + text.len();
    Stmt {
        text: text.to_string(),
        is_let,
        lead_start: start - 8,
        start,
        end,
        trail_end: end,
        line_end: end + 1,
        call: Some(call),
    }
}

#[test]
fn safevec_format_renders_zero_filled_binding() {
    let call = method_call("buffer", "set_len", vec![arg("cap")], CallSite::ExprPosition);
    assert_eq!(
        generate_safevec_format(&call).unwrap(),
        "let mut buffer = vec![0; cap];"
    );
}

#[test]
fn safevec_format_needs_exactly_one_argument() {
    let call = method_call("buffer", "set_len", vec![arg("a"), arg("b")], CallSite::ExprPosition);
    assert!(generate_safevec_format(&call).is_none());
    let empty = method_call("buffer", "set_len", vec![], CallSite::ExprPosition);
    assert!(generate_safevec_format(&empty).is_none());
}

#[test]
fn copywithin_string_renders_range_copy() {
    let s = generate_copywithin_string(
        "vec".to_string(),
        "0".to_string(),
        "3".to_string(),
        "3".to_string(),
    );
    assert_eq!(s, "vec.copy_within(0..3, 3);\n");
}

#[test]
fn copywithin_format_extracts_bounds_and_count() {
    let call = free_call(
        "ptr::copy",
        vec![
            index_arg("&vec[0] as *const i32", "vec", "0"),
            index_arg("&mut vec[3] as *mut i32", "vec", "3"),
            arg("3"),
        ],
        CallSite::ExprPosition,
    );
    assert_eq!(
        generate_copywithin_format(&call).unwrap(),
        "vec.copy_within(0..3, 3);\n"
    );
}

#[test]
fn copywithin_format_needs_one_shared_base() {
    let call = free_call(
        "ptr::copy",
        vec![
            index_arg("&a[0] as *const i32", "a", "0"),
            index_arg("&mut b[3] as *mut i32", "b", "3"),
            arg("3"),
        ],
        CallSite::ExprPosition,
    );
    assert!(generate_copywithin_format(&call).is_none());
    assert!(collect_ptr_cpy_info(&call).is_some());
    let info = collect_ptr_cpy_info(&call).unwrap();
    assert!(collect_cpy_within_info(&call, &info.src_expr, &info.dst_expr).is_none());
}

#[test]
fn copy_from_slice_string_renders_borrowed_source() {
    let src = IndexExpr {
        base: "src".to_string(),
        index: "2..4".to_string(),
        text: "src[2..4]".to_string(),
    };
    let dst = IndexExpr {
        base: "dst".to_string(),
        index: "2..4".to_string(),
        text: "dst[2..4]".to_string(),
    };
    assert_eq!(
        generate_copy_from_slice_string(src, dst),
        "dst[2..4].copy_from_slice(&src[2..4]);\n"
    );
}

#[test]
fn copy_from_slice_format_allows_two_buffers() {
    let call = free_call(
        "ptr::copy_nonoverlapping",
        vec![
            index_arg("src[2..4].as_ptr()", "src", "2..4"),
            index_arg("dst[2..4].as_mut_ptr()", "dst", "2..4"),
            arg("src[2..4].len()"),
        ],
        CallSite::ExprPosition,
    );
    assert_eq!(
        generate_copy_from_slice_format(&call).unwrap(),
        "dst[2..4].copy_from_slice(&src[2..4]);\n"
    );
    let missing = free_call(
        "ptr::copy_nonoverlapping",
        vec![arg("p"), arg("q"), arg("1")],
        CallSite::ExprPosition,
    );
    assert!(generate_copy_from_slice_format(&missing).is_none());
    assert!(collect_cpy_nonoverlap_info(&missing).is_none());
}

#[test]
fn get_mut_format_follows_mutability_marker() {
    let ls = LetShape {
        pat: "index".to_string(),
        init: "vec.get_unchecked_mut(5)".to_string(),
    };
    let call = method_call(
        "vec",
        "get_unchecked_mut",
        vec![arg("5")],
        CallSite::LetInit(ls.clone()),
    );
    assert_eq!(
        generate_get_mut(&call, &ls).unwrap(),
        "let index = vec.get_mut(5);"
    );
    let ls_read = LetShape {
        pat: "index".to_string(),
        init: "vec.get_unchecked(5)".to_string(),
    };
    let call_read = method_call(
        "vec",
        "get_unchecked",
        vec![arg("5")],
        CallSite::LetInit(ls_read.clone()),
    );
    assert_eq!(
        generate_get_mut(&call_read, &ls_read).unwrap(),
        "let index = vec.get(5);"
    );
}

#[test]
fn cstring_new_format_keeps_surrounding_shape() {
    let ls = LetShape {
        pat: "s".to_string(),
        init: "CString::from_vec_unchecked(raw)".to_string(),
    };
    let call = free_call(
        "CString::from_vec_unchecked",
        vec![arg("raw")],
        CallSite::LetInit(ls),
    );
    assert_eq!(
        generate_cstring_new_format("s".to_string(), &call, true).unwrap(),
        "let s = CString::new(raw);"
    );
    assert_eq!(
        generate_cstring_new_format("expected".to_string(), &call, false).unwrap(),
        "expected == CString::new(raw)"
    );
}

#[test]
fn bytes_len_format_strips_raw_pointer_view() {
    let call = free_call(
        "strlen",
        vec![arg("s.as_ptr()")],
        CallSite::BinOperand("n".to_string()),
    );
    assert_eq!(
        generate_bytes_len_format("n".to_string(), &call, false).unwrap(),
        "n == s.as_bytes().len()"
    );
    let plain = free_call("strlen", vec![arg("s")], CallSite::ExprPosition);
    assert_eq!(
        generate_bytes_len_format("n".to_string(), &plain, true).unwrap(),
        "let n = s.as_bytes().len();"
    );
}

#[test]
fn classifier_matches_each_signature() {
    let region = region_with(vec![], vec![], vec![]);
    let cases = [
        ("ptr::copy", Some(UnsafePattern::CopyWithin)),
        ("ptr::copy_nonoverlapping", Some(UnsafePattern::CopyNonOverlap)),
        ("get_unchecked", Some(UnsafePattern::GetUncheck)),
        ("get_unchecked_mut", Some(UnsafePattern::GetUncheckMut)),
        ("CString::from_vec_unchecked", Some(UnsafePattern::CStringFromVec)),
        ("strlen", Some(UnsafePattern::CStringLength)),
        ("memcpy", None),
        ("copy", None),
    ];
    for (callee, expected) in cases {
        let call = free_call(callee, vec![], CallSite::ExprPosition);
        assert_eq!(check_convert_type(&call, &region), expected, "callee {}", callee);
    }
}

#[test]
fn classifier_confirms_length_set_only_with_both_companions() {
    let call = method_call("buffer", "set_len", vec![arg("cap")], CallSite::ExprPosition);
    let reserve = plain_stmt("let mut buffer = Vec::with_capacity(cap);", true, 40);
    let read = plain_stmt("input.read_into(&mut buffer);", false, 310);
    let both = region_with(vec![], vec![reserve.clone()], vec![read.clone()]);
    assert_eq!(
        check_convert_type(&call, &both),
        Some(UnsafePattern::UnitializedVec)
    );
    let no_read = region_with(vec![], vec![reserve.clone()], vec![]);
    assert_eq!(check_convert_type(&call, &no_read), None);
    let no_reserve = region_with(vec![], vec![], vec![read.clone()]);
    assert_eq!(check_convert_type(&call, &no_reserve), None);
    let reserve_not_binding = plain_stmt("buffer = Vec::with_capacity(cap);", false, 40);
    let wrong_form = region_with(vec![], vec![reserve_not_binding], vec![read]);
    assert_eq!(check_convert_type(&call, &wrong_form), None);
}

#[test]
fn planner_collapses_single_statement_region() {
    let call = free_call(
        "ptr::copy",
        vec![
            index_arg("&vec[0] as *const i32", "vec", "0"),
            index_arg("&mut vec[3] as *mut i32", "vec", "3"),
            arg("3"),
        ],
        CallSite::ExprPosition,
    );
    let stmt = stmt_with_call(
        "ptr::copy(&vec[0] as *const i32, &mut vec[3] as *mut i32, 3);",
        false,
        112,
        call,
    );
    let before = plain_stmt("let mut vec = vec![1,2,3,4,5,6];", true, 40);
    let region = region_with(vec![stmt], vec![before], vec![]);
    let proposals = convert_unsafe_to_safe(&region);
    assert_eq!(proposals.len(), 1);
    let p = &proposals[0];
    assert_eq!(p.idiom, UnsafePattern::CopyWithin);
    assert_eq!(p.replacement, "vec.copy_within(0..3, 3);\n");
    assert_eq!(p.plan.ops.len(), 1);
    assert_eq!(p.plan.ops[0].start, region.start);
    assert_eq!(p.plan.ops[0].end, region.end);
    assert_eq!(p.plan.ops[0].text, p.replacement);
}

#[test]
fn planner_hoists_above_multi_statement_region() {
    let call = free_call(
        "ptr::copy",
        vec![
            index_arg("&vec[0] as *const i32", "vec", "0"),
            index_arg("&mut vec[3] as *mut i32", "vec", "3"),
            arg("3"),
        ],
        CallSite::ExprPosition,
    );
    let stmt = stmt_with_call(
        "ptr::copy(&vec[0] as *const i32, &mut vec[3] as *mut i32, 3);",
        false,
        112,
        call,
    );
    let other = plain_stmt("println!(\"Hello World!\");", false, 188);
    let before = plain_stmt("let mut vec = vec![1,2,3,4,5,6];", true, 40);
    let anchor = before.line_end;
    let region = region_with(vec![stmt.clone(), other], vec![before], vec![]);
    let proposals = convert_unsafe_to_safe(&region);
    assert_eq!(proposals.len(), 1);
    let p = &proposals[0];
    assert_eq!(p.plan.ops.len(), 2);
    // the replacement is inserted, reindented, before the region
    assert_eq!(p.plan.ops[0].start, anchor);
    assert_eq!(p.plan.ops[0].end, anchor);
    assert_eq!(p.plan.ops[0].text, "    vec.copy_within(0..3, 3);\n");
    assert!(p.plan.ops[0].end <= region.lead_start);
    // only the offending statement is deleted
    assert_eq!(p.plan.ops[1].start, stmt.start);
    assert_eq!(p.plan.ops[1].end, stmt.trail_end);
    assert_eq!(p.plan.ops[1].text, "");
}

#[test]
fn planner_needs_anchor_for_hoist() {
    let call = free_call(
        "ptr::copy",
        vec![
            index_arg("&vec[0] as *const i32", "vec", "0"),
            index_arg("&mut vec[3] as *mut i32", "vec", "3"),
            arg("3"),
        ],
        CallSite::ExprPosition,
    );
    let stmt = stmt_with_call(
        "ptr::copy(&vec[0] as *const i32, &mut vec[3] as *mut i32, 3);",
        false,
        112,
        call,
    );
    let other = plain_stmt("println!(\"Hello World!\");", false, 188);
    let region = region_with(vec![stmt, other], vec![], vec![]);
    assert!(convert_unsafe_to_safe(&region).is_empty());
}

#[test]
fn apply_edit_plan_splices_ranges() {
    let doc = "abcdefghij";
    let plan = EditPlan {
        ops: vec![
            EditOp { start: 2, end: 2, text: "XY".to_string() },
            EditOp { start: 4, end: 7, text: "".to_string() },
        ],
    };
    assert_eq!(apply_edit_plan_checked(doc, &plan).unwrap(), "abXYcdhij");
    let unordered = EditPlan {
        ops: vec![
            EditOp { start: 4, end: 7, text: "".to_string() },
            EditOp { start: 2, end: 2, text: "XY".to_string() },
        ],
    };
    assert!(apply_edit_plan_checked(doc, &unordered).is_none());
    let out_of_bounds = EditPlan {
        ops: vec![EditOp { start: 4, end: 11, text: "".to_string() }],
    };
    assert!(apply_edit_plan_checked(doc, &out_of_bounds).is_none());
}

#[test]
fn markup_frames_description_and_body() {
    assert_eq!(
        markup(Some("body".to_string()), "desc".to_string(), None),
        "```rust\ndesc\n```\n___\n\nbody"
    );
    assert_eq!(markup(None, "desc".to_string(), None), "```rust\ndesc\n```");
    assert_eq!(
        markup(None, "desc".to_string(), Some("a::b".to_string())),
        "```rust\na::b\n```\n\n```rust\ndesc\n```"
    );
    assert_eq!(
        markup(None, "desc".to_string(), Some("".to_string())),
        "```rust\ndesc\n```"
    );
}

#[test]
fn preview_headers_are_fixed() {
    assert_eq!(
        generate_description(),
        "Code Suggestion: translating unsafe to safe code"
    );
    assert_eq!(generate_original(), "Original Code: \n\n");
    assert_eq!(generate_modify(), "Modified Code: \n\n");
    let block = "a block".to_string();
    assert_eq!(process_unsafe_display_text(&block), "a block");
}

#[test]
fn keyword_hint_keeps_its_parts() {
    let hint = KeywordHint::new("unsafe".to_string(), "unsafe_keyword".to_string());
    assert_eq!(hint.description, "unsafe");
    assert_eq!(hint.keyword_mod, "unsafe_keyword");
}

#[test]
fn preview_uses_same_pipeline_as_planner() {
    let call = free_call(
        "ptr::copy",
        vec![
            index_arg("&vec[0] as *const i32", "vec", "0"),
            index_arg("&mut vec[3] as *mut i32", "vec", "3"),
            arg("3"),
        ],
        CallSite::ExprPosition,
    );
    let body = format_suggestion_ptr_copy(&call).unwrap();
    assert_eq!(
        body,
        "Original Code: \n\n**```---```** **~~```unsafe { ptr::copy(&vec[0] as *const i32, &mut vec[3] as *mut i32, 3) };```~~**\n\nModified Code: \n\n**```+++```** **```vec.copy_within(0..3, 3);\n```**"
    );
    let stmt = stmt_with_call(
        "ptr::copy(&vec[0] as *const i32, &mut vec[3] as *mut i32, 3);",
        false,
        112,
        call,
    );
    let region = region_with(vec![stmt], vec![], vec![]);
    let shown = display_unsafe_suggestion(&region).unwrap();
    assert!(shown.starts_with("```rust\nCode Suggestion: translating unsafe to safe code\n```\n___\n\n"));
    assert!(shown.ends_with(&body));
}

#[test]
fn preview_marks_removed_binding() {
    let ls = LetShape {
        pat: "index".to_string(),
        init: "vec.get_unchecked_mut(5)".to_string(),
    };
    let call = method_call(
        "vec",
        "get_unchecked_mut",
        vec![arg("5")],
        CallSite::LetInit(ls),
    );
    let stmt = stmt_with_call("let index = vec.get_unchecked_mut(5);", true, 112, call.clone());
    assert_eq!(
        format_suggestion_get_uncheck_mut(&call, &stmt).unwrap(),
        "**```---```** **~~```let index = vec.get_unchecked_mut(5);```~~**\n\n**```+++```** **```let index = vec.get_mut(5);```**"
    );
}

#[test]
fn preview_marks_nonoverlapping_copy() {
    let call = free_call(
        "ptr::copy_nonoverlapping",
        vec![
            index_arg("src[2..4].as_ptr()", "src", "2..4"),
            index_arg("dst[2..4].as_mut_ptr()", "dst", "2..4"),
            arg("src[2..4].len()"),
        ],
        CallSite::ExprPosition,
    );
    assert_eq!(
        format_suggestion_ptr_copy_nonoverlapping(&call).unwrap(),
        "**```---```** **~~```unsafe { ptr::copy_nonoverlapping(src[2..4].as_ptr(), dst[2..4].as_mut_ptr(), src[2..4].len()) };```~~**\n\n**```+++```** **```dst[2..4].copy_from_slice(&src[2..4]);\n```**"
    );
}

#[test]
fn signatures_name_the_catalog() {
    assert_eq!(UnsafePattern::SetVecCapacity.signature(), "Vec::with_capacity");
    assert_eq!(UnsafePattern::UnitializedVec.signature(), "set_len");
    assert_eq!(UnsafePattern::CopyWithin.signature(), "ptr::copy");
    assert_eq!(UnsafePattern::GetUncheck.signature(), "get_unchecked");
    assert_eq!(UnsafePattern::GetUncheckMut.signature(), "get_unchecked_mut");
    assert_eq!(UnsafePattern::CopyNonOverlap.signature(), "ptr::copy_nonoverlapping");
    assert_eq!(
        UnsafePattern::CStringFromVec.signature(),
        "CString::from_vec_unchecked"
    );
    assert_eq!(UnsafePattern::CStringLength.signature(), "strlen");
}

#[test]
fn assess_names_the_absent_precondition() {
    let reserve = plain_stmt("let mut buffer = Vec::with_capacity(cap);", true, 40);
    let read = plain_stmt("input.read_into(&mut buffer);", false, 310);

    let no_call = region_with(vec![plain_stmt("foo();", false, 112)], vec![], vec![]);
    assert!(matches!(assess_statement(&no_call, 0), Err(Rejection::NoCandidateCall)));

    let unknown = free_call("memcpy", vec![arg("a"), arg("b")], CallSite::ExprPosition);
    let r = region_with(vec![stmt_with_call("memcpy(a, b);", false, 112, unknown)], vec![], vec![]);
    assert!(matches!(assess_statement(&r, 0), Err(Rejection::UnrecognizedCall)));

    let set_len = method_call("buffer", "set_len", vec![arg("cap")], CallSite::ExprPosition);
    let stmt = stmt_with_call("buffer.set_len(cap);", false, 112, set_len);
    let no_reserve = region_with(vec![stmt.clone()], vec![], vec![read.clone()]);
    assert!(matches!(assess_statement(&no_reserve, 0), Err(Rejection::MissingReserveCompanion)));
    let no_read = region_with(vec![stmt.clone()], vec![reserve.clone()], vec![]);
    assert!(matches!(assess_statement(&no_read, 0), Err(Rejection::MissingReadCompanion)));
    let confirmed = region_with(vec![stmt], vec![reserve.clone()], vec![read.clone()]);
    assert!(assess_statement(&confirmed, 0).is_ok());

    let misplaced = method_call(
        "vec",
        "get_unchecked",
        vec![arg("5")],
        CallSite::ExprPosition,
    );
    let r = region_with(
        vec![stmt_with_call("vec.get_unchecked(5);", false, 112, misplaced)],
        vec![],
        vec![],
    );
    assert!(matches!(assess_statement(&r, 0), Err(Rejection::MisplacedCall)));

    let bare_copy = free_call("ptr::copy", vec![arg("p"), arg("q"), arg("3")], CallSite::ExprPosition);
    let r = region_with(
        vec![stmt_with_call("ptr::copy(p, q, 3);", false, 112, bare_copy)],
        vec![],
        vec![],
    );
    assert!(matches!(assess_statement(&r, 0), Err(Rejection::Unextractable)));

    let good_copy = free_call(
        "ptr::copy",
        vec![
            index_arg("&vec[0] as *const i32", "vec", "0"),
            index_arg("&mut vec[3] as *mut i32", "vec", "3"),
            arg("3"),
        ],
        CallSite::ExprPosition,
    );
    let other = plain_stmt("println!(\"Hello World!\");", false, 188);
    let r = region_with(
        vec![
            stmt_with_call(
                "ptr::copy(&vec[0] as *const i32, &mut vec[3] as *mut i32, 3);",
                false,
                112,
                good_copy,
            ),
            other,
        ],
        vec![],
        vec![],
    );
    assert!(matches!(assess_statement(&r, 0), Err(Rejection::NoHoistAnchor)));
}

#[test]
fn empty_region_yields_nothing() {
    let region = region_with(vec![], vec![], vec![]);
    assert!(convert_unsafe_to_safe(&region).is_empty());
    assert!(display_unsafe_suggestion(&region).is_none());
}
