//! Properties of the parser and printer, each a pure function of its inputs
//! that says whether the property holds for them.
use vstd::prelude::*;
use crate::ranges::{SRange, contains};
use crate::class::rview;
use crate::hir::{Hir, SHir, Class, Error};
use crate::syntax::{spec_parse, is_flag};
use crate::parse::parse;
use crate::print::{print, push_decimal, decimal_chars};
use crate::roundtrip::law_print_roundtrip_parses;
use crate::laws::{
    blank_pattern, gc_eq_pattern, gc_neq_pattern, law_blank_class, law_named_negation_complements,
    law_repetition_after_directive, lemma_parse_gc_eq, lemma_parse_gc_neq,
};

verus! {

/// The outcome of checking a property on some inputs.
#[derive(Debug, Clone)]
pub enum PropertyResult {
    /// The property held for these inputs.
    Pass,
    /// The property failed; the string says how.
    Fail(String),
    /// The inputs are outside the property's domain.
    Discard,
}

/// The ranges of a class.
pub open spec fn class_ranges(cls: &Class) -> Seq<SRange> {
    match cls {
        Class::Unicode(u) => u@,
    }
}

/// Whether a class holds a character.
pub fn class_contains_char(cls: &Class, c: char) -> (r: bool)
    ensures
        r == contains(class_ranges(cls), c as int),
{
    match cls {
        Class::Unicode(u) => {
            let rs = u.ranges();
            let ghost all = rview(rs@);
            let mut i: usize = 0;
            assert(all.skip(0) =~= all);
            while i < rs.len()
                invariant
                    i <= rs.len(),
                    all == rview(rs@),
                    all == class_ranges(cls),
                    contains(all, c as int) == contains(all.skip(i as int), c as int),
                decreases rs.len() - i,
            {
                let r = rs[i];
                assert(all.skip(i as int)[0] == r@);
                assert(all.skip(i as int).drop_first() =~= all.skip(i + 1));
                if r.start() <= c && c <= r.end() {
                    return true;
                }
                i += 1;
            }
            assert(all.skip(i as int) =~= Seq::<SRange>::empty());
            false
        },
    }
}

/// The class that a pattern parses to, when it parses to a class.
pub open spec fn spec_parsed_class(p: Seq<char>) -> Option<Seq<SRange>> {
    match spec_parse(p) {
        Ok(SHir::Class(rs)) => Some(rs),
        _ => None,
    }
}

pub open spec fn class_option_view(c: Option<Class>) -> Option<Seq<SRange>> {
    match c {
        Some(cls) => Some(class_ranges(&cls)),
        None => None,
    }
}

/// The class that a pattern parses to, when it parses to a class.
pub fn parsed_class(pattern: &str) -> (r: Option<Class>)
    ensures
        class_option_view(r) == spec_parsed_class(pattern@),
{
    let hir = match parse(pattern) {
        Ok(h) => h,
        Err(_) => {
            return None;
        },
    };
    match hir {
        Hir::Class(c) => Some(c),
        _ => None,
    }
}

/// `format!`: the message for a character that the blank class holds or lacks wrongly.
#[verifier::external_body]
fn blank_mismatch_message(c: char, expected: bool, got: bool) -> String {
    format!("char {:?} (U+{:04X}): expected_in={} got_in={}", c, c as u32, expected, got)
}

/// For every `c`, `c` is in `[[:blank:]]` exactly when `c` is a space or a tab.
pub fn property_blank_class_correct(c: char) -> (r: PropertyResult)
    ensures
        r is Pass,
{
    proof {
        reveal_strlit("[[:blank:]]");
        assert("[[:blank:]]"@ =~= blank_pattern());
        law_blank_class(c);
    }
    let cls = match parsed_class("[[:blank:]]") {
        Some(cls) => cls,
        None => {
            return PropertyResult::Fail("failed to parse [[:blank:]]".to_string());
        },
    };
    let in_class = class_contains_char(&cls, c);
    let expected = c == ' ' || c == '\t';
    if in_class == expected {
        PropertyResult::Pass
    } else {
        PropertyResult::Fail(blank_mismatch_message(c, expected, in_class))
    }
}

/// `format!`: the message for a printed pattern that does not parse again.
#[verifier::external_body]
fn roundtrip_message(printed: &String, pattern: &String, e: &Error) -> String {
    format!("printed regex {:?} (from {:?}) failed to re-parse: {:?}", printed, pattern, e)
}

/// `parse(print(parse(pattern)))` succeeds whenever `parse(pattern)` does.
pub fn property_print_roundtrip_parses(pattern: String) -> (r: PropertyResult)
    ensures
        spec_parse(pattern@) is Err ==> r is Discard,
        spec_parse(pattern@) is Ok ==> r is Pass,
{
    proof {
        law_print_roundtrip_parses(pattern@);
    }
    let hir = match parse(pattern.as_str()) {
        Ok(h) => h,
        Err(_) => {
            return PropertyResult::Discard;
        },
    };
    let printed = print(&hir);
    match parse(printed.as_str()) {
        Ok(_) => PropertyResult::Pass,
        Err(e) => PropertyResult::Fail(roundtrip_message(&printed, &pattern, &e)),
    }
}

/// `format!`: the message for a pattern of the two that does not parse.
#[verifier::external_body]
fn parse_failure_message(pattern: &str, e: &Error) -> String {
    format!("{} did not parse: {:?}", pattern, e)
}

/// `format!`: the message for a character in both or neither of two classes.
#[verifier::external_body]
fn complement_message(c: char, in_pos: bool, in_neg: bool) -> String {
    format!(
        "char {:?} (U+{:04X}) is in_pos={} in_neg={} — must differ",
        c,
        c as u32,
        in_pos,
        in_neg,
    )
}

/// `\p{gc=Z}` and `\p{gc!=Z}` partition the characters.
pub fn property_named_neq_complements(c: char) -> (r: PropertyResult)
    ensures
        r is Pass,
{
    proof {
        reveal_strlit("\\p{gc=Z}");
        reveal_strlit("\\p{gc!=Z}");
        assert("\\p{gc=Z}"@ =~= gc_eq_pattern());
        assert("\\p{gc!=Z}"@ =~= gc_neq_pattern());
        lemma_parse_gc_eq();
        lemma_parse_gc_neq();
        law_named_negation_complements(c);
    }
    let pos = match parse("\\p{gc=Z}") {
        Ok(h) => h,
        Err(e) => {
            return PropertyResult::Fail(parse_failure_message("\\p{gc=Z}", &e));
        },
    };
    let neg = match parse("\\p{gc!=Z}") {
        Ok(h) => h,
        Err(e) => {
            return PropertyResult::Fail(parse_failure_message("\\p{gc!=Z}", &e));
        },
    };
    let pos_cls = match &pos {
        Hir::Class(cls) => cls,
        _ => {
            return PropertyResult::Fail("expected class HIR for \\p{gc=Z}".to_string());
        },
    };
    let neg_cls = match &neg {
        Hir::Class(cls) => cls,
        _ => {
            return PropertyResult::Fail("expected class HIR for \\p{gc!=Z}".to_string());
        },
    };
    let in_pos = class_contains_char(pos_cls, c);
    let in_neg = class_contains_char(neg_cls, c);
    if in_pos == in_neg {
        PropertyResult::Fail(complement_message(c, in_pos, in_neg))
    } else {
        PropertyResult::Pass
    }
}

/// The flag letters that a directive index selects.
pub open spec fn directive_flags(flag_idx: u8) -> Seq<char> {
    let k = flag_idx % 8;
    if k == 0 {
        seq!['i']
    } else if k == 1 {
        seq!['m']
    } else if k == 2 {
        seq!['s']
    } else if k == 3 {
        seq!['x']
    } else if k == 4 {
        seq!['i', 'm']
    } else if k == 5 {
        seq!['i', 's']
    } else if k == 6 {
        seq!['m', 's']
    } else {
        seq!['i', 's', 'x']
    }
}

/// The pattern `(?flags){n}`.
pub open spec fn directive_pattern(flags: Seq<char>, n: u32) -> Seq<char> {
    seq!['(', '?'] + flags + seq![')', '{'] + decimal_chars(n as nat) + seq!['}']
}

fn flags_of(flag_idx: u8) -> (v: Vec<char>)
    ensures
        v@ == directive_flags(flag_idx),
{
    let k = flag_idx % 8;
    let mut v: Vec<char> = Vec::new();
    if k == 0 {
        v.push('i');
    } else if k == 1 {
        v.push('m');
    } else if k == 2 {
        v.push('s');
    } else if k == 3 {
        v.push('x');
    } else if k == 4 {
        v.push('i');
        v.push('m');
    } else if k == 5 {
        v.push('i');
        v.push('s');
    } else if k == 6 {
        v.push('m');
        v.push('s');
    } else {
        v.push('i');
        v.push('s');
        v.push('x');
    }
    assert(v@ =~= directive_flags(flag_idx));
    v
}

/// Builds `(?flags){n}`.
fn build_directive_pattern(flags: &Vec<char>, n: u32) -> (s: String)
    ensures
        s@ == directive_pattern(flags@, n),
{
    let mut s = String::new();
    s.push('(');
    s.push('?');
    let mut i: usize = 0;
    assert(flags@.subrange(0, 0) =~= Seq::<char>::empty());
    while i < flags.len()
        invariant
            i <= flags.len(),
            s@ == seq!['(', '?'] + flags@.subrange(0, i as int),
        decreases flags.len() - i,
    {
        assert(flags@.subrange(0, i + 1) =~= flags@.subrange(0, i as int).push(flags@[i as int]));
        s.push(flags[i]);
        i += 1;
    }
    assert(flags@.subrange(0, i as int) =~= flags@);
    s.push(')');
    s.push('{');
    push_decimal(&mut s, n as u128);
    s.push('}');
    assert(s@ =~= directive_pattern(flags@, n));
    s
}

/// `format!`: the message for a directive pattern that parses.
#[verifier::external_body]
fn accepted_message(pattern: &String, h: &Hir) -> String {
    format!("expected parse error for {:?}, got Ok({:?})", pattern, h)
}

/// `(?flags){n}` is rejected: a counted repetition after a bare flag
/// directive has nothing to repeat. Counts above 100000 are outside the domain.
pub fn property_directive_rep_rejected(flag_idx: u8, n: u32) -> (r: PropertyResult)
    ensures
        n > 100_000 ==> r is Discard,
        n <= 100_000 ==> r is Pass,
{
    let flags = flags_of(flag_idx);
    if n > 100_000 {
        return PropertyResult::Discard;
    }
    let pat = build_directive_pattern(&flags, n);
    proof {
        let fl = directive_flags(flag_idx);
        assert(forall|i: int| 0 <= i < fl.len() ==> is_flag(#[trigger] fl[i]));
        assert(forall|i: int, j: int| 0 <= i < j < fl.len() ==> fl[i] != fl[j]);
        let rest = decimal_chars(n as nat) + seq!['}'];
        law_repetition_after_directive(fl, '{', rest);
        assert(directive_pattern(fl, n) =~= seq!['(', '?'] + fl + seq![')', '{'] + rest);
    }
    match parse(pat.as_str()) {
        Err(_) => PropertyResult::Pass,
        Ok(h) => PropertyResult::Fail(accepted_message(&pat, &h)),
    }
}

} // verus!
