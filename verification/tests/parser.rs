use regex_etna::etna::{class_contains_char, parsed_class};
use regex_etna::hir::{ErrorKind, Hir, Look};
use regex_etna::parse::parse;
use regex_etna::print::print;

fn printed(pattern: &str) -> String {
    match parse(pattern) {
        Ok(h) => print(&h),
        Err(e) => panic!("{pattern:?} did not parse: {e:?}"),
    }
}

fn error_kind(pattern: &str) -> ErrorKind {
    match parse(pattern) {
        Ok(h) => panic!("{pattern:?} parsed to {h:?}"),
        Err(e) => e.kind(),
    }
}

#[test]
fn parse_single_literal() {
    match parse("a") {
        Ok(Hir::Literal(c)) => assert_eq!(c, 'a'),
        other => panic!("unexpected {other:?}"),
    }
}

#[test]
fn parse_empty_pattern_is_empty() {
    assert!(matches!(parse(""), Ok(Hir::Empty)));
    assert_eq!(printed(""), "(?:)");
}

#[test]
fn print_concatenation_is_grouped() {
    assert_eq!(printed("abc"), "(?:abc)");
}

#[test]
fn print_alternation_is_grouped() {
    assert_eq!(printed("a|b"), "(?:a|b)");
    assert_eq!(printed("a|"), "(?:a|(?:))");
}

#[test]
fn print_capture_group() {
    assert_eq!(printed("(a)"), "(a)");
    assert_eq!(printed("(?:a)"), "a");
}

#[test]
fn capture_indices_count_up() {
    match parse("(a)(b)") {
        Ok(Hir::Concat(v)) => {
            assert_eq!(v.len(), 2);
            assert!(matches!(v[0], Hir::Capture { index: 0, .. }));
            assert!(matches!(v[1], Hir::Capture { index: 1, .. }));
        }
        other => panic!("unexpected {other:?}"),
    }
}

#[test]
fn print_repetition_operators() {
    assert_eq!(printed("a*"), "a*");
    assert_eq!(printed("a+"), "a+");
    assert_eq!(printed("a?"), "a?");
    assert_eq!(printed("a{2}"), "a{2}");
    assert_eq!(printed("a{2,}"), "a{2,}");
    assert_eq!(printed("a{2,3}"), "a{2,3}");
    assert_eq!(printed("a{0,1}"), "a?");
    assert_eq!(printed("a{1,}"), "a+");
}

#[test]
fn print_lazy_repetition() {
    assert_eq!(printed("a*?"), "a*?");
    assert_eq!(printed("a{2,3}?"), "a{2,3}?");
    // Under `U`, the lazy and greedy forms swap.
    assert_eq!(printed("(?U)a*"), "a*?");
    assert_eq!(printed("(?U)a*?"), "a*");
}

#[test]
fn print_nested_repetition_is_grouped() {
    assert_eq!(printed("a**"), "(?:a*)*");
}

#[test]
fn print_large_count() {
    assert_eq!(printed("a{4294967295}"), "a{4294967295}");
}

#[test]
fn print_escaped_meta_characters() {
    assert_eq!(printed(r"\."), r"\.");
    assert_eq!(printed(r"a\*b"), r"(?:a\*b)");
    assert_eq!(printed(r"\#"), r"\#");
}

#[test]
fn parse_named_escapes() {
    match parse(r"\n") {
        Ok(Hir::Literal(c)) => assert_eq!(c, '\n'),
        other => panic!("unexpected {other:?}"),
    }
    match parse(r"\t") {
        Ok(Hir::Literal(c)) => assert_eq!(c, '\t'),
        other => panic!("unexpected {other:?}"),
    }
}

#[test]
fn print_bracketed_classes() {
    assert_eq!(printed("[a-c]"), "[a-c]");
    assert_eq!(printed("[cba]"), "[a-c]");
    assert_eq!(printed("[a-cx]"), "[a-cx]");
    assert_eq!(printed("[x-za-c]"), "[a-cx-z]");
    assert_eq!(printed("[]a]"), r"[\]a]");
}

#[test]
fn print_negated_class() {
    assert_eq!(printed("[^a]"), "[\u{0}-`b-\u{10FFFF}]");
}

#[test]
fn print_dot() {
    assert_eq!(printed("."), "[\u{0}-\t\u{B}-\u{10FFFF}]");
    assert_eq!(printed("(?s)."), "[\u{0}-\u{10FFFF}]");
}

#[test]
fn print_class_operators() {
    assert_eq!(printed("[a-z&&c-e]"), "[c-e]");
    assert_eq!(printed("[a-e--c]"), "[a-bd-e]");
    assert_eq!(printed("[a-c~~b-d]"), "[ad]");
}

#[test]
fn print_empty_classes() {
    assert_eq!(printed("[a&&b]"), "[a&&b]");
    assert_eq!(printed("[a-c--a-c]"), "[a&&b]");
    assert_eq!(printed(r"\P{any}"), "[a&&b]");
}

#[test]
fn print_posix_classes() {
    assert_eq!(printed("[[:blank:]]"), "[\t ]");
    assert_eq!(printed("[[:digit:]]"), "[0-9]");
    assert_eq!(printed("[[:xdigit:]]"), "[0-9A-Fa-f]");
}

#[test]
fn print_unicode_properties() {
    assert_eq!(printed(r"\p{Zl}"), "[\u{2028}]");
    assert_eq!(printed(r"\p{gc=Zp}"), "[\u{2029}]");
    assert_eq!(printed(r"\p{ascii}"), "[\u{0}-\u{7F}]");
    assert_eq!(printed(r"\pZ"), printed(r"\p{Separator}"));
    assert_eq!(printed(r"\p{General_Category=Line Separator}"), "[\u{2028}]");
}

#[test]
fn negated_property_complements() {
    assert_eq!(printed(r"\P{Zl}"), "[\u{0}-\u{2027}\u{2029}-\u{10FFFF}]");
    assert_eq!(printed(r"\p{gc!=Zl}"), printed(r"\P{Zl}"));
    assert_eq!(printed(r"\P{gc!=Zl}"), printed(r"\p{Zl}"));
}

#[test]
fn case_insensitive_letters_fold() {
    assert_eq!(printed("(?i)a"), "[Aa]");
    assert_eq!(printed("(?i)[a-c]"), "[A-Ca-c]");
    assert_eq!(printed("(?i)1"), "1");
    assert_eq!(printed("(?i:a)b"), "(?:[Aa]b)");
}

#[test]
fn anchors_follow_multi_line() {
    assert!(matches!(parse("^"), Ok(Hir::Look(Look::Start))));
    assert!(matches!(parse("(?m)$"), Ok(Hir::Look(Look::EndLF))));
    assert_eq!(printed("(?m)^"), "(?m:^)");
    assert_eq!(printed("^$"), "(?:^$)");
}

#[test]
fn ignore_whitespace_skips_spaces_and_comments() {
    assert_eq!(printed("(?x) a b # comment\n c"), "(?:abc)");
    assert_eq!(printed("(?x)a{ 2 , 3 }"), "a{2,3}");
    assert_eq!(printed("(?x)[ a - c ]"), "[a-c]");
}

#[test]
fn flags_are_scoped_to_their_group() {
    assert_eq!(printed("((?i)a)a"), "(?:([Aa])a)");
    assert_eq!(printed("(?i)(?-i)a"), "a");
}

#[test]
fn error_class_range_invalid() {
    assert_eq!(error_kind("[z-a]"), ErrorKind::ClassRangeInvalid);
}

#[test]
fn error_class_range_literal() {
    assert_eq!(error_kind(r"[a-\pZ]"), ErrorKind::ClassRangeLiteral);
}

#[test]
fn error_class_unclosed() {
    assert_eq!(error_kind("[a"), ErrorKind::ClassUnclosed);
    assert_eq!(error_kind("[]"), ErrorKind::ClassUnclosed);
}

#[test]
fn error_decimal_empty() {
    assert_eq!(error_kind("a{,3}"), ErrorKind::DecimalEmpty);
}

#[test]
fn error_decimal_invalid() {
    assert_eq!(error_kind("a{4294967296}"), ErrorKind::DecimalInvalid);
}

#[test]
fn error_escape_unexpected_eof() {
    assert_eq!(error_kind("a\\"), ErrorKind::EscapeUnexpectedEof);
    assert_eq!(error_kind(r"\p{Zl"), ErrorKind::EscapeUnexpectedEof);
}

#[test]
fn error_escape_unrecognized() {
    assert_eq!(error_kind(r"\q"), ErrorKind::EscapeUnrecognized);
}

#[test]
fn error_flag_dangling_negation() {
    assert_eq!(error_kind("(?i-)"), ErrorKind::FlagDanglingNegation);
}

#[test]
fn error_flag_empty() {
    assert_eq!(error_kind("(?)"), ErrorKind::FlagEmpty);
}

#[test]
fn error_flag_repeated_negation() {
    assert_eq!(error_kind("(?-i-m)"), ErrorKind::FlagRepeatedNegation);
}

#[test]
fn error_flag_unexpected_eof() {
    assert_eq!(error_kind("(?i"), ErrorKind::FlagUnexpectedEof);
}

#[test]
fn error_flag_unrecognized() {
    assert_eq!(error_kind("(?z)"), ErrorKind::FlagUnrecognized);
}

#[test]
fn error_group_unclosed() {
    assert_eq!(error_kind("(a"), ErrorKind::GroupUnclosed);
}

#[test]
fn error_group_unopened() {
    assert_eq!(error_kind("a)"), ErrorKind::GroupUnopened);
}

#[test]
fn error_repetition_count_invalid() {
    assert_eq!(error_kind("a{3,2}"), ErrorKind::RepetitionCountInvalid);
}

#[test]
fn error_repetition_count_unclosed() {
    assert_eq!(error_kind("a{3"), ErrorKind::RepetitionCountUnclosed);
    assert_eq!(error_kind("a{3,4"), ErrorKind::RepetitionCountUnclosed);
}

#[test]
fn error_repetition_missing() {
    assert_eq!(error_kind("*"), ErrorKind::RepetitionMissing);
    assert_eq!(error_kind("a|+"), ErrorKind::RepetitionMissing);
    assert_eq!(error_kind("(?i){1}"), ErrorKind::RepetitionMissing);
    assert_eq!(error_kind("a(?i)*"), ErrorKind::RepetitionMissing);
    assert_eq!(error_kind("{1}"), ErrorKind::RepetitionMissing);
    assert_eq!(error_kind("(?x)?"), ErrorKind::RepetitionMissing);
}

#[test]
fn error_unicode_property_not_found() {
    assert_eq!(error_kind(r"\p{Foo}"), ErrorKind::UnicodePropertyNotFound);
    assert_eq!(error_kind(r"\p{foo=Greek}"), ErrorKind::UnicodePropertyNotFound);
}

#[test]
fn error_unicode_property_value_not_found() {
    assert_eq!(error_kind(r"\p{gc=Foo}"), ErrorKind::UnicodePropertyValueNotFound);
}

#[test]
fn error_unsupported() {
    assert_eq!(error_kind(r"\1"), ErrorKind::Unsupported);
    assert_eq!(error_kind("(?-u)a"), ErrorKind::Unsupported);
    assert_eq!(error_kind("(?i-u:a)"), ErrorKind::Unsupported);
}

#[test]
fn named_groups_are_captures() {
    assert_eq!(printed("(?P<n>a)"), "(a)");
    assert_eq!(printed("(?<name_1>a)(b)"), "(?:(a)(b))");
    match parse("(?<x>a)(?P<y>b)") {
        Ok(Hir::Concat(v)) => {
            assert!(matches!(v[0], Hir::Capture { index: 0, .. }));
            assert!(matches!(v[1], Hir::Capture { index: 1, .. }));
        }
        other => panic!("parsed to {other:?}"),
    }
    assert!(parse("(?P<a.b[0]>z)").is_ok());
    assert!(parse("(?<\u{3b1}\u{3b2}>z)").is_ok());
}

#[test]
fn group_name_errors() {
    assert_eq!(error_kind("(?P<>a)"), ErrorKind::GroupNameEmpty);
    assert_eq!(error_kind("(?<1a>a)"), ErrorKind::GroupNameInvalid);
    assert_eq!(error_kind("(?<a-b>a)"), ErrorKind::GroupNameInvalid);
    assert_eq!(error_kind("(?<ab"), ErrorKind::GroupNameUnexpectedEof);
    assert_eq!(error_kind("(?P<"), ErrorKind::GroupNameUnexpectedEof);
    assert_eq!(error_kind("(?<a>x)(?<a>y)"), ErrorKind::GroupNameDuplicate);
    match parse("(?<a>x)(?P<a>y)") {
        Err(e) => assert_eq!((e.kind(), e.offset), (ErrorKind::GroupNameDuplicate, 11)),
        Ok(h) => panic!("parsed to {h:?}"),
    }
}

#[test]
fn look_around_is_refused() {
    assert_eq!(error_kind("(?=a)"), ErrorKind::UnsupportedLookAround);
    assert_eq!(error_kind("(?!a)"), ErrorKind::UnsupportedLookAround);
    assert_eq!(error_kind("(?<=a)"), ErrorKind::UnsupportedLookAround);
    assert_eq!(error_kind("(?<!a)"), ErrorKind::UnsupportedLookAround);
}

#[test]
fn special_word_boundaries() {
    assert!(matches!(parse(r"\b{start}"), Ok(Hir::Look(Look::WordStartUnicode))));
    assert!(matches!(parse(r"\b{end}"), Ok(Hir::Look(Look::WordEndUnicode))));
    assert!(matches!(parse(r"\b{start-half}"), Ok(Hir::Look(Look::WordStartHalfUnicode))));
    assert!(matches!(parse(r"\b{end-half}"), Ok(Hir::Look(Look::WordEndHalfUnicode))));
    assert!(matches!(parse("(?x)\\b{ start - half }"), Ok(Hir::Look(Look::WordStartHalfUnicode))));
    assert_eq!(printed(r"\b{start}"), r"\<");
    assert_eq!(printed(r"\b{end-half}"), r"\b{end-half}");
    assert_eq!(printed(r"\b{start-half}a"), r"(?:\b{start-half}a)");
    assert_eq!(printed(r"\b{2}"), r"(?:\b){2}");
    assert_eq!(printed(r"\b{2,3}"), r"(?:\b){2,3}");
}

#[test]
fn special_word_boundary_errors() {
    assert_eq!(error_kind(r"\b{"), ErrorKind::SpecialWordOrRepetitionUnexpectedEof);
    assert_eq!(error_kind(r"\b{start"), ErrorKind::SpecialWordBoundaryUnclosed);
    assert_eq!(error_kind(r"\b{start;}"), ErrorKind::SpecialWordBoundaryUnclosed);
    assert_eq!(error_kind(r"\b{foo}"), ErrorKind::SpecialWordBoundaryUnrecognized);
    assert_eq!(error_kind(r"\b{}"), ErrorKind::DecimalEmpty);
    match parse(r"x\b{foo}") {
        Err(e) => assert_eq!((e.kind(), e.offset), (ErrorKind::SpecialWordBoundaryUnrecognized, 4)),
        Ok(h) => panic!("parsed to {h:?}"),
    }
}

#[test]
fn escaped_punctuation_is_literal() {
    assert!(matches!(parse(r"\!"), Ok(Hir::Literal('!'))));
    assert!(matches!(parse(r"\:"), Ok(Hir::Literal(':'))));
    assert!(matches!(parse(r"\/"), Ok(Hir::Literal('/'))));
    assert!(matches!(parse("\\\""), Ok(Hir::Literal('"'))));
    assert!(matches!(parse(r"\ "), Ok(Hir::Literal(' '))));
    assert_eq!(printed(r"\!\:"), "(?:!:)");
    assert_eq!(error_kind("\\\u{e9}"), ErrorKind::EscapeUnrecognized);
}

#[test]
fn crlf_and_unicode_flags() {
    assert!(matches!(parse("(?mR)^"), Ok(Hir::Look(Look::StartCRLF))));
    assert!(matches!(parse("(?mR)$"), Ok(Hir::Look(Look::EndCRLF))));
    assert!(matches!(parse("(?R)^"), Ok(Hir::Look(Look::Start))));
    assert!(matches!(parse("(?u)a"), Ok(Hir::Literal('a'))));
    assert_eq!(printed("(?Rm:^$)"), "(?:(?mR:^)(?mR:$))");
    assert_eq!(printed("(?R)."), "[\u{0}-\t\u{B}-\u{C}\u{E}-\u{10FFFF}]");
    assert_eq!(printed("(?Rs)."), printed("(?s)."));
}

#[test]
fn duplicate_flags_are_refused() {
    assert_eq!(error_kind("(?ii)a"), ErrorKind::FlagDuplicate);
    assert_eq!(error_kind("(?i-i)a"), ErrorKind::FlagDuplicate);
    assert_eq!(error_kind("(?uu)a"), ErrorKind::FlagDuplicate);
}

#[test]
fn error_offsets_point_at_the_fault() {
    match parse("ab)") {
        Err(e) => assert_eq!(e.offset, 2),
        Ok(h) => panic!("parsed to {h:?}"),
    }
    match parse("(?i){1}") {
        Err(e) => assert_eq!(e.offset, 4),
        Ok(h) => panic!("parsed to {h:?}"),
    }
    match parse("(?ims)+a") {
        Err(e) => assert_eq!((e.kind(), e.offset), (ErrorKind::RepetitionMissing, 6)),
        Ok(h) => panic!("parsed to {h:?}"),
    }
    match parse("?") {
        Err(e) => assert_eq!((e.kind(), e.offset), (ErrorKind::RepetitionMissing, 0)),
        Ok(h) => panic!("parsed to {h:?}"),
    }
}

#[test]
fn printed_patterns_parse_again() {
    let patterns = [
        "abc", "a|b|c", "(a)(?:b)", "a**", "[a&&b]", r"\P{any}", "(?i)ab", "(?m)^a$", ".", "(?s).",
        "[^[:alpha:]]", r"[\p{Z}a]", "a{2,5}?", "(a|)*", r"\.\+\[", "(?x) a # c\n b",
    ];
    for p in patterns {
        let once = printed(p);
        let twice = printed(&once);
        // The printed form is stable after one round.
        assert_eq!(printed(&twice), twice, "pattern {p:?}");
    }
}

#[test]
fn printing_then_parsing_gives_the_expression_back() {
    let patterns = [
        "", "a", "abc", "a|b|", "(a)((b)c)|(d)", "(?:(a)|b)*?", "[^a-c&&b]", r"\p{gc!=Zs}+",
        "(?i)(?x) a [b-d] # c", "(?s).(?m)^$", "a{2}{3,}", "[[:punct:]--[:digit:]]", "(?U)a+b??",
        r"\#\&\-\~", "((((a))))",
    ];
    for p in patterns {
        let h = match parse(p) {
            Ok(h) => h,
            Err(e) => panic!("{p:?} did not parse: {e:?}"),
        };
        let again = match parse(&print(&h)) {
            Ok(h2) => h2,
            Err(e) => panic!("printed form of {p:?} did not parse: {e:?}"),
        };
        assert_eq!(format!("{again:?}"), format!("{h:?}"), "pattern {p:?}");
    }
}

#[test]
fn white_space_classes() {
    assert_eq!(
        printed(r"\s"),
        "[\t-\r \u{85}\u{A0}\u{1680}\u{2000}-\u{200A}\u{2028}-\u{2029}\u{202F}\u{205F}\u{3000}]"
    );
    assert_eq!(printed(r"\S"), printed(r"[^\s]"));
    assert_eq!(printed(r"[\sa]"), printed(r"[a\t-\r \u{85}\u{A0}\u{1680}\u{2000}-\u{200A}\u{2028}-\u{2029}\u{202F}\u{205F}\u{3000}]"));
    assert_eq!(printed(r"\p{White_Space}"), printed(r"\s"));
}

#[test]
fn hexadecimal_escapes() {
    match parse(r"\x41") {
        Ok(Hir::Literal(c)) => assert_eq!(c, 'A'),
        other => panic!("unexpected {other:?}"),
    }
    match parse(r"\u00e9") {
        Ok(Hir::Literal(c)) => assert_eq!(c, 'é'),
        other => panic!("unexpected {other:?}"),
    }
    match parse(r"\U0001F600") {
        Ok(Hir::Literal(c)) => assert_eq!(c, '\u{1F600}'),
        other => panic!("unexpected {other:?}"),
    }
    match parse(r"\x{10FFFF}") {
        Ok(Hir::Literal(c)) => assert_eq!(c, '\u{10FFFF}'),
        other => panic!("unexpected {other:?}"),
    }
    assert_eq!(printed(r"[\x61-\x{63}]"), "[a-c]");
    assert_eq!(printed(r"\x2A"), r"\*");
}

#[test]
fn hexadecimal_escape_errors() {
    assert_eq!(error_kind(r"\x{}"), ErrorKind::EscapeHexEmpty);
    assert_eq!(error_kind(r"\x{110000}"), ErrorKind::EscapeHexInvalid);
    assert_eq!(error_kind(r"\x{D800}"), ErrorKind::EscapeHexInvalid);
    assert_eq!(error_kind(r"\x{FFFFFFFFF}"), ErrorKind::EscapeHexInvalid);
    assert_eq!(error_kind(r"\xG0"), ErrorKind::EscapeHexInvalidDigit);
    assert_eq!(error_kind(r"\x{12G}"), ErrorKind::EscapeHexInvalidDigit);
    assert_eq!(error_kind(r"\x4"), ErrorKind::EscapeUnexpectedEof);
    assert_eq!(error_kind(r"\x{41"), ErrorKind::EscapeUnexpectedEof);
    assert_eq!(error_kind(r"\u123"), ErrorKind::EscapeUnexpectedEof);
}

#[test]
fn assertion_escapes() {
    assert!(matches!(parse(r"\A"), Ok(Hir::Look(Look::Start))));
    assert!(matches!(parse(r"\z"), Ok(Hir::Look(Look::End))));
    assert!(matches!(parse(r"\b"), Ok(Hir::Look(Look::WordUnicode))));
    assert!(matches!(parse(r"\B"), Ok(Hir::Look(Look::WordUnicodeNegate))));
    assert!(matches!(parse(r"\<"), Ok(Hir::Look(Look::WordStartUnicode))));
    assert!(matches!(parse(r"\>"), Ok(Hir::Look(Look::WordEndUnicode))));
    assert_eq!(printed(r"\ba\B"), r"(?:(?:\b)a\B)");
    assert_eq!(printed(r"\<a\>"), r"(?:\<a\>)");
    assert_eq!(printed(r"\b+"), r"(?:\b)+");
}

#[test]
fn assertions_are_no_class_items() {
    assert_eq!(error_kind(r"[\b]"), ErrorKind::ClassEscapeInvalid);
    assert_eq!(error_kind(r"[a\z]"), ErrorKind::ClassEscapeInvalid);
}

#[test]
fn perl_digit_and_word_classes() {
    let digits = printed(r"\d");
    assert!(digits.starts_with("[0-9\u{660}-\u{669}\u{6F0}-\u{6F9}"));
    assert!(digits.ends_with("\u{1FBF0}-\u{1FBF9}]"));
    assert_eq!(printed(r"\p{Nd}"), digits);
    assert_eq!(printed(r"\D"), printed(r"[^\d]"));
    let word = printed(r"\w");
    assert!(word.starts_with("[0-9A-Z_a-z\u{AA}\u{B5}\u{BA}"));
    assert_eq!(printed(r"\W"), printed(r"[^\w]"));
    assert_eq!(printed(r"[\w&&\d]"), digits);
}

#[test]
fn perl_classes_hold_their_characters() {
    let w = match parsed_class(r"\w") {
        Some(c) => c,
        None => panic!("\\w is a class"),
    };
    for c in ['a', 'Z', '_', '7', 'é', 'Ω', '香', '\u{300}'] {
        assert!(class_contains_char(&w, c), "{c:?}");
    }
    for c in [' ', '-', '!', '\u{2028}'] {
        assert!(!class_contains_char(&w, c), "{c:?}");
    }
    let d = match parsed_class(r"\d") {
        Some(c) => c,
        None => panic!("\\d is a class"),
    };
    assert!(class_contains_char(&d, '\u{0967}'));
    assert!(!class_contains_char(&d, 'x'));
}

#[test]
fn general_categories() {
    let letter = match parsed_class(r"\pL") {
        Some(c) => c,
        None => panic!("\\pL is a class"),
    };
    for c in ['a', 'Z', 'é', 'Ω', '香'] {
        assert!(class_contains_char(&letter, c), "{c:?}");
    }
    for c in ['1', ' ', '_', '\u{300}'] {
        assert!(!class_contains_char(&letter, c), "{c:?}");
    }
    assert_eq!(printed(r"\p{Letter}"), printed(r"\pL"));
    assert_eq!(printed(r"\p{gc=L}"), printed(r"\pL"));
    assert_eq!(printed(r"\p{Lu}"), printed(r"\p{Uppercase_Letter}"));
    assert_eq!(printed(r"[\p{Lu}&&[a-z]]"), "[a&&b]");
    assert_eq!(printed(r"\p{Nd}"), printed(r"\d"));
    assert_eq!(printed(r"\p{Assigned}"), printed(r"\P{Cn}"));
    assert_eq!(printed(r"\p{Pc}"), printed(r"\p{Connector_Punctuation}"));
    assert!(printed(r"\p{Pc}").starts_with("[_\u{203F}-\u{2040}"));
}

#[test]
fn unknown_general_category_values() {
    assert_eq!(error_kind(r"\p{gc=Cs}"), ErrorKind::UnicodePropertyValueNotFound);
    assert_eq!(error_kind(r"\p{Klingon}"), ErrorKind::UnicodePropertyNotFound);
    assert_eq!(error_kind(r"\p{sc=Klingon}"), ErrorKind::UnicodePropertyValueNotFound);
    assert_eq!(error_kind(r"\p{Zzzz}"), ErrorKind::UnicodePropertyValueNotFound);
}

#[test]
fn case_insensitive_unicode_folding() {
    assert_eq!(printed("(?i)k"), "[Kk\u{212A}]");
    assert_eq!(printed("(?i)s"), "[Ss\u{17F}]");
    assert_eq!(printed("(?i)é"), "[Éé]");
    assert_eq!(printed("(?i)Ω"), "[\u{3A9}\u{3C9}\u{2126}]");
    assert_eq!(printed("(?i)-"), "\\-");
    assert_eq!(printed("(?i)[k-l]"), "[K-Lk-l\u{212A}]");
}

#[test]
fn scripts() {
    let greek = match parsed_class(r"\p{Greek}") {
        Some(c) => c,
        None => panic!("the Greek script is a class"),
    };
    assert!(class_contains_char(&greek, 'Ω'));
    assert!(class_contains_char(&greek, 'α'));
    assert!(!class_contains_char(&greek, 'a'));
    assert_eq!(printed(r"\p{sc=Grek}"), printed(r"\p{Greek}"));
    assert_eq!(printed(r"\p{Script=greek}"), printed(r"\p{Greek}"));
    assert_eq!(printed(r"\p{Hira}"), "[\u{3041}-\u{3096}\u{309D}-\u{309F}\u{1B001}-\u{1B11F}\u{1B132}\u{1B150}-\u{1B152}\u{1F200}]");
    assert!(printed(r"\p{Latin}").starts_with("[A-Za-z\u{AA}\u{BA}"));
}

fn holds(pattern: &str, c: char) -> bool {
    match parsed_class(pattern) {
        Some(cls) => class_contains_char(&cls, c),
        None => panic!("{pattern:?} is no class"),
    }
}

#[test]
fn boolean_properties() {
    assert_eq!(printed(r"\p{ASCII_Hex_Digit}"), "[0-9A-Fa-f]");
    assert_eq!(printed(r"\p{ahex}"), "[0-9A-Fa-f]");
    assert_eq!(printed(r"\p{Is_AHex}"), "[0-9A-Fa-f]");
    assert!(holds(r"\p{Alphabetic}", 'a'));
    assert!(holds(r"\p{alpha}", '\u{e9}'));
    assert!(!holds(r"\p{Alphabetic}", '1'));
    assert!(holds(r"\p{Emoji}", '\u{1F600}'));
    assert!(!holds(r"\p{Emoji}", 'a'));
    assert!(holds(r"\P{Uppercase}", 'a'));
    assert!(!holds(r"\p{Uppercase}", 'a'));
    assert!(holds(r"\p{Uppercase}", 'A'));
    assert_eq!(printed(r"\p{White_Space}"), printed(r"\s"));
    assert_eq!(printed(r"\p{space}"), printed(r"\s"));
    assert!(holds(r"[\p{Math}&&\p{ascii}]", '+'));
}

#[test]
fn property_names_that_are_no_classes() {
    assert_eq!(error_kind(r"\p{Age}"), ErrorKind::UnicodePropertyNotFound);
    assert_eq!(error_kind(r"\p{Script}"), ErrorKind::UnicodePropertyNotFound);
    assert_eq!(error_kind(r"\p{isc}"), ErrorKind::UnicodePropertyNotFound);
    assert_eq!(printed(r"\p{sc}"), printed(r"\p{Currency_Symbol}"));
    assert_eq!(printed(r"\p{cf}"), printed(r"\p{Format}"));
    assert_eq!(printed(r"\p{lc}"), printed(r"\p{Cased_Letter}"));
    assert_eq!(error_kind(r"\p{age=3.0}"), ErrorKind::Unsupported);
    assert_eq!(error_kind(r"\p{wb=ALetter}"), ErrorKind::Unsupported);
    assert_eq!(error_kind(r"\p{Alphabetic=yes}"), ErrorKind::UnicodePropertyValueNotFound);
    assert_eq!(error_kind(r"\p{foo=bar}"), ErrorKind::UnicodePropertyNotFound);
}

#[test]
fn property_names_ignore_is_and_non_ascii() {
    assert_eq!(printed(r"\p{IsGreek}"), printed(r"\p{Greek}"));
    assert_eq!(printed(r"\p{isLu}"), printed(r"\p{Lu}"));
    assert_eq!(printed("\\p{Gr\u{e9}ek}"), printed(r"\p{Grek}"));
}

#[test]
fn script_extensions() {
    assert!(holds(r"\p{scx=Greek}", '\u{3b1}'));
    assert!(holds(r"\p{scx=Grek}", '\u{342}'));
    assert!(!holds(r"\p{sc=Greek}", '\u{342}'));
    assert!(holds(r"\p{Script_Extensions=Deva}", '\u{964}'));
    assert!(!holds(r"\p{scx=Latin}", '\u{3b1}'));
    assert!(holds(r"\p{scx!=Latin}", '\u{3b1}'));
    assert_eq!(error_kind(r"\p{scx=Klingon}"), ErrorKind::UnicodePropertyValueNotFound);
}
