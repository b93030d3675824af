use regex_etna::etna::{
    property_blank_class_correct, property_directive_rep_rejected,
    property_named_neq_complements, property_print_roundtrip_parses, PropertyResult,
};
use regex_etna::runner::{
    all_properties, empty_class_pattern, failure_text, json_line, json_str,
    map_byte_to_unicode_char, merge_outcome, property_from_name, run_status_outcome, run_witness,
    selection_from_name, to_err, tool_from_name, unknown_property_message, unknown_tool_message,
    verdict, Metrics, Property, RunStatus, Selection,
    Tool,
};

#[test]
fn property_names_resolve() {
    assert_eq!(property_from_name("BlankClassCorrect"), Some(Property::BlankClassCorrect));
    assert_eq!(property_from_name("PrintRoundtripParses"), Some(Property::PrintRoundtripParses));
    assert_eq!(property_from_name("NamedNeqComplements"), Some(Property::NamedNeqComplements));
    assert_eq!(property_from_name("DirectiveRepRejected"), Some(Property::DirectiveRepRejected));
}

#[test]
fn unknown_property_names_do_not_resolve() {
    assert_eq!(property_from_name("All"), None);
    assert_eq!(property_from_name(""), None);
    assert_eq!(property_from_name("blankclasscorrect"), None);
    assert_eq!(property_from_name("BlankClassCorrectX"), None);
}

#[test]
fn all_runs_every_property_in_order() {
    assert_eq!(
        all_properties(),
        vec![
            Property::BlankClassCorrect,
            Property::PrintRoundtripParses,
            Property::NamedNeqComplements,
            Property::DirectiveRepRejected,
        ]
    );
}

#[test]
fn to_err_keeps_only_failures() {
    assert_eq!(to_err(PropertyResult::Pass), Ok(()));
    assert_eq!(to_err(PropertyResult::Discard), Ok(()));
    assert_eq!(to_err(PropertyResult::Fail("boom".to_string())), Err("boom".to_string()));
}

#[test]
fn verdicts_of_outcomes() {
    assert_eq!(verdict(&PropertyResult::Pass), Some(true));
    assert_eq!(verdict(&PropertyResult::Fail("x".to_string())), Some(false));
    assert_eq!(verdict(&PropertyResult::Discard), None);
}

#[test]
fn every_witness_passes() {
    for p in all_properties() {
        assert_eq!(run_witness(p), Ok(()), "{p:?}");
    }
}

#[test]
fn metrics_add_up() {
    let d = Metrics::default();
    assert_eq!((d.inputs, d.elapsed_us), (0, 0));
    let m = Metrics { inputs: 3, elapsed_us: 40 }.combine(Metrics { inputs: 2, elapsed_us: 2 });
    assert_eq!((m.inputs, m.elapsed_us), (5, 42));
}

#[test]
fn merged_outcome_keeps_first_failure() {
    let mut status: Result<(), String> = Ok(());
    let mut total = Metrics::default();
    let runs = [
        (Ok(()), 1u64),
        (Err("first".to_string()), 2),
        (Err("second".to_string()), 3),
        (Ok(()), 4),
    ];
    for (r, n) in runs {
        let (s, t) = merge_outcome(status, total, r, Metrics { inputs: n, elapsed_us: 10 });
        status = s;
        total = t;
    }
    assert_eq!(status, Err("first".to_string()));
    assert_eq!((total.inputs, total.elapsed_us), (10, 40));
}

#[test]
fn bytes_map_to_characters() {
    assert_eq!(map_byte_to_unicode_char(0), ' ');
    assert_eq!(map_byte_to_unicode_char(1), '\t');
    assert_eq!(map_byte_to_unicode_char(3), '\u{00A0}');
    assert_eq!(map_byte_to_unicode_char(13), '香');
    assert_eq!(map_byte_to_unicode_char(14), '\u{1F600}');
    assert_eq!(map_byte_to_unicode_char(15), '\0');
    assert_eq!(map_byte_to_unicode_char(16), ' ');
    assert_eq!(map_byte_to_unicode_char(255), '\0');
}

#[test]
fn shape_bytes_build_patterns() {
    assert_eq!(empty_class_pattern(0, 0, 1), "[a&&b]");
    assert_eq!(empty_class_pattern(1, 0, 2), "[a-c--a-c]");
    assert_eq!(empty_class_pattern(2, 25, 26), "[za]");
    assert_eq!(empty_class_pattern(3, 7, 9), r"\P{any}");
    assert_eq!(empty_class_pattern(4, 1, 2), "(b|c){2}");
    assert_eq!(empty_class_pattern(5, 255, 255), "[v&&v]");
}

#[test]
fn built_patterns_roundtrip() {
    for shape in 0..5u8 {
        for a in [0u8, 3, 7] {
            let r = property_print_roundtrip_parses(empty_class_pattern(shape, a, 7));
            assert!(matches!(r, PropertyResult::Pass), "shape {shape} letter {a}");
        }
    }
    // `[z-h--z-h]` has a reversed range and does not parse.
    let r = property_print_roundtrip_parses(empty_class_pattern(1, 25, 7));
    assert!(matches!(r, PropertyResult::Discard));
}

#[test]
fn json_strings_escape() {
    assert_eq!(json_str("abc"), "\"abc\"");
    assert_eq!(json_str(""), "\"\"");
    assert_eq!(json_str("a\"b\\c"), "\"a\\\"b\\\\c\"");
    assert_eq!(json_str("\n\r\t"), "\"\\n\\r\\t\"");
    assert_eq!(json_str("\u{1}\u{1f}"), "\"\\u0001\\u001f\"");
    assert_eq!(json_str("é "), "\"é \"");
}

#[test]
fn json_line_of_a_passed_run() {
    let line = json_line(
        "etna",
        "BlankClassCorrect",
        "passed",
        Metrics { inputs: 1, elapsed_us: 17 },
        None,
        None,
    );
    assert_eq!(
        line,
        "{\"status\":\"passed\",\"tests\":1,\"discards\":0,\"time\":\"17us\",\"counterexample\":null,\"error\":null,\"tool\":\"etna\",\"property\":\"BlankClassCorrect\"}"
    );
}

#[test]
fn json_line_of_a_failed_run() {
    let line = json_line(
        "proptest",
        "All",
        "failed",
        Metrics { inputs: 12345, elapsed_us: 0 },
        Some("('\\n')"),
        Some("x"),
    );
    assert_eq!(
        line,
        "{\"status\":\"failed\",\"tests\":12345,\"discards\":0,\"time\":\"0us\",\"counterexample\":\"('\\\\n')\",\"error\":\"x\",\"tool\":\"proptest\",\"property\":\"All\"}"
    );
}

#[test]
fn blank_class_law_on_more_characters() {
    for c in [' ', '\t', '\n', '\r', '\u{0B}', '\u{A0}', '\u{3000}', 'z', '\u{10FFFF}'] {
        assert!(matches!(property_blank_class_correct(c), PropertyResult::Pass), "{c:?}");
    }
}

#[test]
fn named_negation_law_on_more_characters() {
    for c in ['\u{2028}', '\u{2029}', '\u{200A}', '\u{200B}', '\u{3000}', '\u{10FFFF}', '\0'] {
        assert!(matches!(property_named_neq_complements(c), PropertyResult::Pass), "{c:?}");
    }
}

#[test]
fn directive_law_on_every_flag_index() {
    for idx in 0..=255u8 {
        for n in [0u32, 1, 9, 10, 100_000] {
            assert!(
                matches!(property_directive_rep_rejected(idx, n), PropertyResult::Pass),
                "{idx} {n}"
            );
        }
    }
}

#[test]
fn directive_counts_beyond_the_domain_are_discarded() {
    assert!(matches!(property_directive_rep_rejected(0, 100_001), PropertyResult::Discard));
    assert!(matches!(property_directive_rep_rejected(7, u32::MAX), PropertyResult::Discard));
}

#[test]
fn unparsable_patterns_are_discarded() {
    for p in ["(", "[a", "*", r"\1", "a{3,2}"] {
        assert!(
            matches!(property_print_roundtrip_parses(p.to_string()), PropertyResult::Discard),
            "{p:?}"
        );
    }
}

#[test]
fn parsable_patterns_roundtrip() {
    for p in ["", "a|b", "(?i)[^a-c]", r"\p{gc=Z}+", "(?x) a* # c", "[[:^space:]]{2,}?"] {
        assert!(
            matches!(property_print_roundtrip_parses(p.to_string()), PropertyResult::Pass),
            "{p:?}"
        );
    }
}

#[test]
fn selections_resolve() {
    assert_eq!(selection_from_name("All"), Some(Selection::All));
    assert_eq!(
        selection_from_name("NamedNeqComplements"),
        Some(Selection::One(Property::NamedNeqComplements))
    );
    assert_eq!(selection_from_name("all"), None);
    assert_eq!(selection_from_name("Nope"), None);
}

#[test]
fn tool_names_resolve() {
    assert_eq!(tool_from_name("etna"), Some(Tool::Etna));
    assert_eq!(tool_from_name("proptest"), Some(Tool::Proptest));
    assert_eq!(tool_from_name("quickcheck"), Some(Tool::Quickcheck));
    assert_eq!(tool_from_name("crabcheck"), Some(Tool::Crabcheck));
    assert_eq!(tool_from_name("hegel"), Some(Tool::Hegel));
    assert_eq!(tool_from_name("Etna"), None);
    assert_eq!(tool_from_name(""), None);
}

#[test]
fn run_statuses_give_outcomes() {
    assert_eq!(run_status_outcome(&RunStatus::Finished), Ok(()));
    assert_eq!(run_status_outcome(&RunStatus::TimedOut), Err("timed out".to_string()));
    assert_eq!(
        run_status_outcome(&RunStatus::Aborted { error: "bad seed".to_string() }),
        Err("aborted: bad seed".to_string())
    );
    assert_eq!(
        run_status_outcome(&RunStatus::GaveUp { passed: 12, discarded: 1988 }),
        Err("gave up: passed=12, discarded=1988".to_string())
    );
}

#[test]
fn failed_arguments_are_joined_by_spaces() {
    let args = |v: &[&str]| RunStatus::Failed { arguments: v.iter().map(|s| s.to_string()).collect() };
    assert_eq!(run_status_outcome(&args(&[])), Err("()".to_string()));
    assert_eq!(run_status_outcome(&args(&["7"])), Err("(7)".to_string()));
    assert_eq!(run_status_outcome(&args(&["1", "22", "'x'"])), Err("(1 22 'x')".to_string()));
}

#[test]
fn failure_text_drops_the_tool_prefix() {
    assert_eq!(failure_text("Property test failed: (5)"), "(5)");
    assert_eq!(failure_text("Property test failed: "), "");
    assert_eq!(failure_text("boom"), "boom");
    assert_eq!(failure_text("Property test failed:"), "Property test failed:");
    assert_eq!(failure_text("x Property test failed: y"), "x Property test failed: y");
    assert_eq!(failure_text(""), "");
}

#[test]
fn unknown_name_messages() {
    assert_eq!(unknown_property_message("etna", "Foo"), "Unknown property for etna: Foo");
    assert_eq!(unknown_tool_message("pytest"), "Unknown tool: pytest");
}
