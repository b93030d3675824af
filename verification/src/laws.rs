//! What the parser gives for the patterns that the properties name, and the
//! laws that relate parsing and printing.
use vstd::prelude::*;
use crate::ranges::{SRange, insert, insert_all, union, contains, negate, lemma_negate, valid_cp};
use crate::hir::{SHir, Flags, Error, ErrorKind, default_flags};
use crate::tables::{PosixClass, UnicodeProp, posix_ranges, unicode_ranges, posix_by_name, gc_by_value, is_gc_key, lemma_unicode_canonical};
use crate::syntax::{SState, initial_state, run, step, finish, push_piece, skip_space, find_char, posix_at, class_open, class_loop, spec_parse, alt_hir, concat_hir, escape_at, property_at, resolve_property, find_op, normalize, normalize_chars, Esc, err, flags_at, open_group, is_flag, set_flag};

verus! {

/// The class of the POSIX bracket `[[:blank:]]`.
pub open spec fn blank_pattern() -> Seq<char> {
    seq!['[', '[', ':', 'b', 'l', 'a', 'n', 'k', ':', ']', ']']
}

/// `[[:blank:]]` parses to the class of tab and space.
#[verifier::rlimit(60)]
pub proof fn lemma_parse_blank()
    ensures
        spec_parse(blank_pattern()) == Ok::<SHir, Error>(SHir::Class(seq![(9int, 9int), (32int, 32int)])),
{
    let s = blank_pattern();
    let f = default_flags();
    let blank = posix_ranges(PosixClass::Blank);
    assert(find_char(s, 3, ':') == 8) by {
        reveal_with_fuel(find_char, 7);
    }
    let name = s.subrange(3, 8);
    assert(name =~= seq!['b', 'l', 'a', 'n', 'k']);
    assert(name[0] == 'b' && name[1] == 'l' && name[4] == 'k');
    assert(posix_by_name(name) == Some(PosixClass::Blank));
    assert(posix_at(s, 1) == Some::<(Seq<SRange>, int)>((blank, 10)));
    let e = Seq::<SRange>::empty();
    assert(insert(e, (9, 9)) == seq![(9int, 9int)]);
    assert(insert(seq![(9int, 9int)], (32, 32)) =~= seq![(9int, 9int), (32int, 32int)]) by {
        let t = seq![(9int, 9int)];
        assert(t.drop_first() =~= e);
        assert(insert(e, (32, 32)) == seq![(32int, 32int)]);
    }
    assert(union(e, blank) == blank) by {
        reveal_with_fuel(insert_all, 3);
        assert(blank.drop_first() =~= seq![(32int, 32int)]);
        assert(blank.drop_first().drop_first() =~= e);
    }
    assert(skip_space(s, 10, false) == 10);
    assert(class_loop(s, 10, f, 0, false, None, blank, false) == Ok::<(Seq<SRange>, int), Error>(
        (blank, 11),
    ));
    assert(skip_space(s, 1, false) == 1);
    assert(class_loop(s, 1, f, 0, false, None, e, true) == Ok::<(Seq<SRange>, int), Error>(
        (blank, 11),
    ));
    assert(class_open(s, 0, f) == Ok::<(Seq<SRange>, int), Error>((blank, 11)));
    let st0 = initial_state();
    let st1 = push_piece(st0, SHir::Class(blank), 11);
    assert(skip_space(s, 0, false) == 0);
    assert(SState { pos: 0, ..st0 } == st0);
    assert(step(s, st0) == Ok::<SState, Error>(st1));
    assert(skip_space(s, 11, false) == 11);
    assert(SState { pos: 11, ..st1 } == st1);
    assert(st1.concat =~= seq![SHir::Class(blank)]);
    assert(alt_hir(st1.alts, st1.concat) == SHir::Class(blank)) by {
        assert(st1.alts.push(concat_hir(st1.concat)) =~= seq![SHir::Class(blank)]);
    }
    assert(finish(st1) == Ok::<SHir, Error>(SHir::Class(blank)));
    assert(run(s, st1) == Ok::<SHir, Error>(SHir::Class(blank)));
    assert(run(s, st0) == Ok::<SHir, Error>(SHir::Class(blank)));
}

/// `\p{gc=Z}`.
pub open spec fn gc_eq_pattern() -> Seq<char> {
    seq!['\\', 'p', '{', 'g', 'c', '=', 'Z', '}']
}

/// `\p{gc!=Z}`.
pub open spec fn gc_neq_pattern() -> Seq<char> {
    seq!['\\', 'p', '{', 'g', 'c', '!', '=', 'Z', '}']
}

proof fn lemma_normalize_gc_z()
    ensures
        normalize(seq!['g', 'c']) == seq!['g', 'c'],
        normalize(seq!['Z']) == seq!['z'],
        is_gc_key(seq!['g', 'c']),
        gc_by_value(seq!['z']) == Some(UnicodeProp::Separator),
{
    let e = Seq::<char>::empty();
    assert(normalize_chars(e) =~= e);
    assert(seq!['c'][0] == 'c' && seq!['g', 'c'][0] == 'g' && seq!['Z'][0] == 'Z');
    assert(seq!['c'].drop_first() =~= e);
    assert(normalize_chars(seq!['c']) =~= seq!['c']);
    assert(seq!['g', 'c'].drop_first() =~= seq!['c']);
    assert(normalize_chars(seq!['g', 'c']) =~= seq!['g', 'c']);
    assert(!crate::syntax::starts_with_is(seq!['g', 'c']));
    assert(normalize(seq!['g', 'c']) =~= seq!['g', 'c']);
    assert(seq!['Z'].drop_first() =~= e);
    assert((('Z' as u32) + 32) as char == 'z');
    assert(normalize_chars(seq!['Z']) =~= seq!['z']);
    assert(normalize(seq!['Z']) =~= seq!['z']);
    let z = seq!['z'];
    assert(z != seq!['c']) by { assert(z[0] != seq!['c'][0]); }
    assert(z != seq!['l']) by { assert(z[0] != seq!['l'][0]); }
    assert(z != seq!['m']) by { assert(z[0] != seq!['m'][0]); }
    assert(z != seq!['n']) by { assert(z[0] != seq!['n'][0]); }
    assert(z != seq!['p']) by { assert(z[0] != seq!['p'][0]); }
    assert(z != seq!['s']) by { assert(z[0] != seq!['s'][0]); }
    assert(!crate::tables::names_other(z));
    assert(!crate::tables::names_cased_letter(z));
    assert(!crate::tables::names_control(z));
    assert(!crate::tables::names_format(z));
    assert(!crate::tables::names_close_punctuation(z));
    assert(!crate::tables::names_unassigned(z));
    assert(!crate::tables::names_private_use(z));
    assert(!crate::tables::names_mark(z));
    assert(!crate::tables::names_connector_punctuation(z));
    assert(!crate::tables::names_currency_symbol(z));
    assert(!crate::tables::names_dash_punctuation(z));
    assert(!crate::tables::names_decimal_number(z));
    assert(!crate::tables::names_enclosing_mark(z));
    assert(!crate::tables::names_final_punctuation(z));
    assert(!crate::tables::names_initial_punctuation(z));
    assert(!crate::tables::names_letter(z));
    assert(!crate::tables::names_letter_number(z));
    assert(!crate::tables::names_line_separator(z));
    assert(!crate::tables::names_lowercase_letter(z));
    assert(!crate::tables::names_modifier_letter(z));
    assert(!crate::tables::names_other_letter(z));
    assert(!crate::tables::names_titlecase_letter(z));
    assert(!crate::tables::names_uppercase_letter(z));
    assert(!crate::tables::names_math_symbol(z));
    assert(!crate::tables::names_spacing_mark(z));
    assert(!crate::tables::names_nonspacing_mark(z));
    assert(!crate::tables::names_modifier_symbol(z));
    assert(!crate::tables::names_number(z));
    assert(!crate::tables::names_other_number(z));
    assert(!crate::tables::names_open_punctuation(z));
    assert(!crate::tables::names_other_punctuation(z));
    assert(!crate::tables::names_other_symbol(z));
    assert(!crate::tables::names_punctuation(z));
    assert(!crate::tables::names_paragraph_separator(z));
    assert(!crate::tables::names_symbol(z));
    assert(crate::tables::names_separator(z));
    assert(z != seq!['a', 'n', 'y'] && z != seq!['a', 's', 'c', 'i', 'i']);
    assert(z != seq!['a', 's', 's', 'i', 'g', 'n', 'e', 'd']);
}

/// Parsing a single `\p{..}` escape with default flags.
proof fn lemma_parse_single_escape(s: Seq<char>, rs: Seq<SRange>)
    requires
        s.len() > 1,
        s[0] == '\\',
        s[1] == 'p',
        escape_at(s, 0) == Ok::<(Esc, int), Error>((Esc::Ranges(rs), s.len() as int)),
    ensures
        spec_parse(s) == Ok::<SHir, Error>(SHir::Class(rs)),
{
    let st0 = initial_state();
    let st1 = push_piece(st0, SHir::Class(rs), s.len() as int);
    assert(SState { pos: 0, ..st0 } == st0);
    assert(step(s, st0) == Ok::<SState, Error>(st1));
    assert(SState { pos: s.len() as int, ..st1 } == st1);
    assert(st1.concat =~= seq![SHir::Class(rs)]);
    assert(alt_hir(st1.alts, st1.concat) == SHir::Class(rs)) by {
        assert(st1.alts.push(concat_hir(st1.concat)) =~= seq![SHir::Class(rs)]);
    }
    assert(run(s, st1) == Ok::<SHir, Error>(SHir::Class(rs)));
}

/// `\p{gc=Z}` parses to the class of the Unicode separators.
pub proof fn lemma_parse_gc_eq()
    ensures
        spec_parse(gc_eq_pattern()) == Ok::<SHir, Error>(
            SHir::Class(unicode_ranges(UnicodeProp::Separator)),
        ),
{
    let s = gc_eq_pattern();
    lemma_normalize_gc_z();
    assert(find_char(s, 3, '}') == 7) by {
        reveal_with_fuel(find_char, 6);
    }
    let name = s.subrange(3, 7);
    assert(name =~= seq!['g', 'c', '=', 'Z']);
    assert(find_op(name, 0) == 2) by {
        reveal_with_fuel(find_op, 4);
    }
    assert(name.subrange(0, 2) =~= seq!['g', 'c']);
    assert(name.subrange(3, 4) =~= seq!['Z']);
    assert(resolve_property(name) == Ok::<(UnicodeProp, bool), ErrorKind>(
        (UnicodeProp::Separator, false),
    )) by {
        reveal(resolve_property);
    }
    let z = unicode_ranges(UnicodeProp::Separator);
    assert(property_at(s, 0, false) == Ok::<(Esc, int), Error>((Esc::Ranges(z), 8)));
    assert(escape_at(s, 0) == Ok::<(Esc, int), Error>((Esc::Ranges(z), 8)));
    lemma_parse_single_escape(s, z);
}

/// `\p{gc!=Z}` parses to the complement of the class of the Unicode separators.
pub proof fn lemma_parse_gc_neq()
    ensures
        spec_parse(gc_neq_pattern()) == Ok::<SHir, Error>(
            SHir::Class(negate(unicode_ranges(UnicodeProp::Separator))),
        ),
{
    let s = gc_neq_pattern();
    lemma_normalize_gc_z();
    assert(find_char(s, 3, '}') == 8) by {
        reveal_with_fuel(find_char, 7);
    }
    let name = s.subrange(3, 8);
    assert(name =~= seq!['g', 'c', '!', '=', 'Z']);
    assert(find_op(name, 0) == 3) by {
        reveal_with_fuel(find_op, 5);
    }
    assert(name.subrange(0, 2) =~= seq!['g', 'c']);
    assert(name.subrange(4, 5) =~= seq!['Z']);
    assert(resolve_property(name) == Ok::<(UnicodeProp, bool), ErrorKind>(
        (UnicodeProp::Separator, true),
    )) by {
        reveal(resolve_property);
    }
    let z = negate(unicode_ranges(UnicodeProp::Separator));
    assert(property_at(s, 0, false) == Ok::<(Esc, int), Error>((Esc::Ranges(z), 9)));
    assert(escape_at(s, 0) == Ok::<(Esc, int), Error>((Esc::Ranges(z), 9)));
    lemma_parse_single_escape(s, z);
}

/// Every character is in exactly one of `\p{gc=Z}` and `\p{gc!=Z}`.
pub proof fn law_named_negation_complements(c: char)
    ensures
        spec_parse(gc_eq_pattern()) matches Ok(SHir::Class(pos)) && spec_parse(gc_neq_pattern()) matches Ok(SHir::Class(neg))
            && contains(pos, c as int) != contains(neg, c as int),
{
    lemma_parse_gc_eq();
    lemma_parse_gc_neq();
    lemma_unicode_canonical(UnicodeProp::Separator);
    lemma_negate(unicode_ranges(UnicodeProp::Separator));
    assert(valid_cp(c as int));
}

/// `[[:blank:]]` holds a character exactly when it is a space or a tab.
pub proof fn law_blank_class(c: char)
    ensures
        spec_parse(blank_pattern()) matches Ok(SHir::Class(rs)) && contains(rs, c as int) == (c
            == ' ' || c == '\t'),
{
    lemma_parse_blank();
    let rs = seq![(9int, 9int), (32int, 32int)];
    reveal_with_fuel(contains, 3);
    assert(rs.drop_first() =~= seq![(32int, 32int)]);
    assert(rs.drop_first().drop_first() =~= Seq::<SRange>::empty());
}

/// The flags that `(?flags)` sets, read from `q` to `end`.
proof fn lemma_flag_letters(s: Seq<char>, q: int, end: int, f: Flags, count: int)
    requires
        0 <= q <= end < s.len(),
        s[end] == ')',
        forall|i: int| q <= i < end ==> is_flag(#[trigger] s[i]),
        count > 0 || q < end,
        0 <= count <= q,
        forall|i: int, j: int| q - count <= i < j < end ==> s[i] != s[j],
    ensures
        flags_at(s, q, f, false, false, count) matches Ok((_, t, d)) && t == end && d,
    decreases end - q,
{
    if q < end {
        assert forall|k: int| 0 <= k < count implies #[trigger] s.subrange(q - count, q)[k] != s[q] by {
            assert(s.subrange(q - count, q)[k] == s[q - count + k]);
        }
        lemma_flag_letters(s, q + 1, end, set_flag(f, s[q], true), count + 1);
    }
}

/// The repetition operators: `*`, `+`, `?` and the `{` of a counted repetition.
pub open spec fn is_repetition_op(c: char) -> bool {
    c == '*' || c == '+' || c == '?' || c == '{'
}

/// A repetition right after a flag directive has nothing to repeat:
/// `(?flags)` followed by a repetition operator is rejected at that operator,
/// whatever follows.
pub proof fn law_repetition_after_directive(flags: Seq<char>, op: char, rest: Seq<char>)
    requires
        flags.len() > 0,
        forall|i: int| 0 <= i < flags.len() ==> is_flag(#[trigger] flags[i]),
        forall|i: int, j: int| 0 <= i < j < flags.len() ==> flags[i] != flags[j],
        is_repetition_op(op),
    ensures
        spec_parse(seq!['(', '?'] + flags + seq![')', op] + rest) == Err::<SHir, Error>(
            err(ErrorKind::RepetitionMissing, flags.len() as int + 3),
        ),
{
    let s = seq!['(', '?'] + flags + seq![')', op] + rest;
    let end = flags.len() as int + 2;
    assert(s[0] == '(' && s[1] == '?');
    assert(s[end] == ')' && s[end + 1] == op);
    assert forall|i: int| 2 <= i < end implies is_flag(#[trigger] s[i]) by {
        assert(s[i] == flags[i - 2]);
    }
    assert(s[2] == flags[0]);
    assert forall|i: int, j: int| 2 <= i < j < end implies s[i] != s[j] by {
        assert(s[i] == flags[i - 2] && s[j] == flags[j - 2]);
    }
    lemma_flag_letters(s, 2, end, default_flags(), 0);
    let st0 = initial_state();
    assert(SState { pos: 0, ..st0 } == st0);
    let f2 = flags_at(s, 2, default_flags(), false, false, 0)->Ok_0.0;
    let st1 = SState { pos: end + 1, flags: f2, after_directive: true, ..st0 };
    assert(open_group(s, st0) == Ok::<SState, Error>(st1));
    assert(step(s, st0) == Ok::<SState, Error>(st1));
    assert(skip_space(s, end + 1, f2.ignore_whitespace) == end + 1);
    assert(SState { pos: end + 1, ..st1 } == st1);
    assert(step(s, st1) == Err::<SState, Error>(err(ErrorKind::RepetitionMissing, end + 1)));
    assert(run(s, st1) == Err::<SHir, Error>(err(ErrorKind::RepetitionMissing, end + 1)));
}

/// A pattern that starts with a repetition operator has nothing to repeat and
/// is rejected at its first character, whatever follows.
pub proof fn law_repetition_at_start(op: char, rest: Seq<char>)
    requires
        is_repetition_op(op),
    ensures
        spec_parse(seq![op] + rest) == Err::<SHir, Error>(err(ErrorKind::RepetitionMissing, 0)),
{
    let s = seq![op] + rest;
    let st0 = initial_state();
    assert(s[0] == op);
    assert(skip_space(s, 0, false) == 0);
    assert(SState { pos: 0, ..st0 } == st0);
    assert(step(s, st0) == Err::<SState, Error>(err(ErrorKind::RepetitionMissing, 0)));
}

} // verus!
