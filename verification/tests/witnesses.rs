use regex_etna::etna::{
    property_blank_class_correct, property_directive_rep_rejected,
    property_named_neq_complements, property_print_roundtrip_parses, PropertyResult,
};

fn assert_pass(r: PropertyResult, label: &str) {
    match r {
        PropertyResult::Pass => {}
        PropertyResult::Discard => panic!("witness {label} unexpectedly discarded"),
        PropertyResult::Fail(m) => panic!("witness {label} failed: {m}"),
    }
}

#[test]
fn witness_blank_class_correct_case_newline() {
    // '\n' is not in {' ', '\t'}.
    assert_pass(property_blank_class_correct('\n'), "newline");
}

#[test]
fn witness_blank_class_correct_case_zero() {
    assert_pass(property_blank_class_correct('\0'), "zero");
}

#[test]
fn witness_blank_class_correct_case_uppercase_a() {
    assert_pass(property_blank_class_correct('A'), "uppercase_a");
}

#[test]
fn witness_blank_class_correct_case_space() {
    assert_pass(property_blank_class_correct(' '), "space");
}

#[test]
fn witness_blank_class_correct_case_tab() {
    assert_pass(property_blank_class_correct('\t'), "tab");
}

#[test]
fn witness_print_roundtrip_parses_case_neg_any() {
    // `\P{any}` is a class with no ranges.
    assert_pass(property_print_roundtrip_parses(r"\P{any}".into()), "neg_any");
}

#[test]
fn witness_print_roundtrip_parses_case_intersect_empty() {
    assert_pass(property_print_roundtrip_parses(r"[a&&b]".into()), "intersect_empty");
}

#[test]
fn witness_print_roundtrip_parses_case_subtract_self() {
    assert_pass(property_print_roundtrip_parses(r"[a-c--a-c]".into()), "subtract_self");
}

#[test]
fn witness_print_roundtrip_parses_case_simple_literal() {
    assert_pass(property_print_roundtrip_parses("abc".into()), "simple_literal");
}

#[test]
fn witness_named_neq_complements_case_space() {
    assert_pass(property_named_neq_complements(' '), "space");
}

#[test]
fn witness_named_neq_complements_case_uppercase_a() {
    assert_pass(property_named_neq_complements('A'), "uppercase_a");
}

#[test]
fn witness_named_neq_complements_case_no_break_space() {
    assert_pass(property_named_neq_complements('\u{00A0}'), "nbsp");
}

#[test]
fn witness_directive_rep_rejected_case_i_one() {
    assert_pass(property_directive_rep_rejected(0, 1), "i_one");
}

#[test]
fn witness_directive_rep_rejected_case_m_one_one() {
    assert_pass(property_directive_rep_rejected(1, 1), "m_one_one");
}

#[test]
fn witness_directive_rep_rejected_case_x_zero() {
    assert_pass(property_directive_rep_rejected(3, 0), "x_zero");
}

#[test]
fn witness_directive_rep_rejected_case_isx_five() {
    assert_pass(property_directive_rep_rejected(7, 5), "isx_five");
}
