use regex_etna::class::{
    difference_ranges, insert_all_ranges, insert_range, intersect_ranges,
    negate_ranges, symmetric_difference_ranges, ClassUnicodeRange,
};
use regex_etna::etna::{class_contains_char, parsed_class};
use regex_etna::fold::case_fold_ranges;

fn r(start: char, end: char) -> ClassUnicodeRange {
    ClassUnicodeRange { start, end }
}

#[test]
fn insert_merges_adjacent_and_overlapping_ranges() {
    let rs = vec![r('a', 'c'), r('x', 'z')];
    assert_eq!(insert_range(&rs, r('d', 'f')), vec![r('a', 'f'), r('x', 'z')]);
    assert_eq!(insert_range(&rs, r('b', 'y')), vec![r('a', 'z')]);
    assert_eq!(insert_range(&rs, r('m', 'm')), vec![r('a', 'c'), r('m', 'm'), r('x', 'z')]);
    assert_eq!(insert_range(&vec![], r('q', 'r')), vec![r('q', 'r')]);
}

#[test]
fn insert_all_sorts_and_merges() {
    let got = insert_all_ranges(vec![r('k', 'k')], &vec![r('z', 'z'), r('a', 'b'), r('c', 'j')]);
    assert_eq!(got, vec![r('a', 'k'), r('z', 'z')]);
}

#[test]
fn negation_of_empty_and_full_classes() {
    assert_eq!(negate_ranges(&vec![]), vec![r('\0', '\u{10FFFF}')]);
    assert_eq!(negate_ranges(&vec![r('\0', '\u{10FFFF}')]), vec![]);
}

#[test]
fn negation_skips_surrogates() {
    assert_eq!(
        negate_ranges(&vec![r('\u{D7FF}', '\u{E000}')]),
        vec![r('\0', '\u{D7FE}'), r('\u{E001}', '\u{10FFFF}')]
    );
    assert_eq!(
        negate_ranges(&vec![r('\0', '\u{D7FE}'), r('\u{E001}', '\u{10FFFF}')]),
        vec![r('\u{D7FF}', '\u{E000}')]
    );
}

#[test]
fn negation_twice_gives_the_class_back() {
    let rs = vec![r('0', '9'), r('A', 'Z'), r('\u{2028}', '\u{2029}')];
    assert_eq!(negate_ranges(&negate_ranges(&rs)), rs);
}

#[test]
fn intersection_of_classes() {
    let a = vec![r('a', 'm'), r('x', 'z')];
    let b = vec![r('k', 'y')];
    assert_eq!(intersect_ranges(&a, &b), vec![r('k', 'm'), r('x', 'y')]);
    assert_eq!(intersect_ranges(&a, &vec![]), vec![]);
    assert_eq!(intersect_ranges(&vec![r('a', 'a')], &vec![r('b', 'b')]), vec![]);
}

#[test]
fn difference_of_classes() {
    let a = vec![r('a', 'z')];
    let b = vec![r('d', 'f'), r('q', 'q')];
    assert_eq!(difference_ranges(&a, &b), vec![r('a', 'c'), r('g', 'p'), r('r', 'z')]);
    assert_eq!(difference_ranges(&a, &a), vec![]);
}

#[test]
fn symmetric_difference_of_classes() {
    let a = vec![r('a', 'f')];
    let b = vec![r('d', 'k')];
    assert_eq!(symmetric_difference_ranges(&a, &b), vec![r('a', 'c'), r('g', 'k')]);
    assert_eq!(symmetric_difference_ranges(&a, &a), vec![]);
}

#[test]
fn simple_case_folding() {
    assert_eq!(case_fold_ranges(&vec![r('a', 'c')]), vec![r('A', 'C'), r('a', 'c')]);
    assert_eq!(case_fold_ranges(&vec![r('X', 'b')]), vec![r('A', 'B'), r('X', 'b'), r('x', 'z')]);
    assert_eq!(case_fold_ranges(&vec![r('0', '9')]), vec![r('0', '9')]);
    assert_eq!(case_fold_ranges(&vec![r('\u{E9}', '\u{E9}')]), vec![r('\u{C9}', '\u{C9}'), r('\u{E9}', '\u{E9}')]);
    assert_eq!(
        case_fold_ranges(&vec![r('k', 'k')]),
        vec![r('K', 'K'), r('k', 'k'), r('\u{212A}', '\u{212A}')]
    );
    assert_eq!(case_fold_ranges(&vec![r('\u{3A3}', '\u{3A3}')]), vec![
        r('\u{3A3}', '\u{3A3}'),
        r('\u{3C2}', '\u{3C3}'),
    ]);
}

#[test]
fn membership_in_parsed_classes() {
    let cls = match parsed_class("[b-d]") {
        Some(c) => c,
        None => panic!("[b-d] is a class"),
    };
    assert!(!class_contains_char(&cls, 'a'));
    assert!(class_contains_char(&cls, 'b'));
    assert!(class_contains_char(&cls, 'd'));
    assert!(!class_contains_char(&cls, 'e'));
    assert!(parsed_class("ab").is_none());
    assert!(parsed_class("[").is_none());
}

#[test]
fn membership_in_the_dot_class() {
    let cls = match parsed_class(".") {
        Some(c) => c,
        None => panic!(". is a class"),
    };
    assert!(class_contains_char(&cls, 'x'));
    assert!(!class_contains_char(&cls, '\n'));
    assert!(class_contains_char(&cls, '\u{10FFFF}'));
}
