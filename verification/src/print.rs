//! The printer: writes an expression back as a pattern.
//!
//! Literals are escaped when they are meta characters; a class is printed as
//! its ranges in brackets, and an empty class as `[a&&b]` (an intersection of
//! two different characters, since `[]` does not close); sequences and
//! alternations are wrapped in `(?:..)`, and so is a repetition that is
//! itself repeated.
use vstd::prelude::*;
use crate::ranges::SRange;
use crate::class::{ClassUnicode, rview};
use crate::hir::{Hir, SHir, Class, Look, hir_view, hirs_view, lemma_hirs_view_len};
use crate::syntax::is_meta;
use crate::scan::is_meta_char;

verus! {

/// `String::push` appends one character to the string.
pub assume_specification[ String::push ](s: &mut String, ch: char)
    ensures
        final(s)@ == old(s)@.push(ch),
;

/// A character as printed: with a `\` when it is a meta character.
pub open spec fn lit_chars(c: char) -> Seq<char> {
    if is_meta(c) {
        seq!['\\', c]
    } else {
        seq![c]
    }
}

pub open spec fn range_chars(r: SRange) -> Seq<char> {
    if r.0 == r.1 {
        lit_chars(r.0 as char)
    } else {
        lit_chars(r.0 as char) + seq!['-'] + lit_chars(r.1 as char)
    }
}

pub open spec fn ranges_chars(rs: Seq<SRange>) -> Seq<char>
    decreases rs.len(),
{
    if rs.len() == 0 {
        Seq::empty()
    } else {
        range_chars(rs[0]) + ranges_chars(rs.drop_first())
    }
}

/// The pattern of an empty class.
pub open spec fn empty_class_chars() -> Seq<char> {
    seq!['[', 'a', '&', '&', 'b', ']']
}

pub open spec fn class_chars(rs: Seq<SRange>) -> Seq<char> {
    if rs.len() == 0 {
        empty_class_chars()
    } else {
        seq!['['] + ranges_chars(rs) + seq![']']
    }
}

pub open spec fn digit_char(d: int) -> char {
    ('0' as int + d) as char
}

/// The decimal digits of a number.
pub open spec fn decimal_chars(n: nat) -> Seq<char>
    decreases n,
{
    if n < 10 {
        seq![digit_char(n as int)]
    } else {
        decimal_chars(n / 10).push(digit_char((n % 10) as int))
    }
}

/// The operator of a repetition.
pub open spec fn op_chars(min: u32, max: Option<u32>) -> Seq<char> {
    match max {
        None => if min == 0 {
            seq!['*']
        } else if min == 1 {
            seq!['+']
        } else {
            seq!['{'] + decimal_chars(min as nat) + seq![',', '}']
        },
        Some(n) => if min == 0 && n == 1 {
            seq!['?']
        } else if min == n {
            seq!['{'] + decimal_chars(min as nat) + seq!['}']
        } else {
            seq!['{'] + decimal_chars(min as nat) + seq![','] + decimal_chars(n as nat) + seq!['}']
        },
    }
}

/// The pattern of an assertion. `\b` stands in a group of its own, so
/// that no `{` after it can be read as part of it.
pub open spec fn look_chars(l: Look) -> Seq<char> {
    match l {
        Look::Start => seq!['^'],
        Look::End => seq!['$'],
        Look::StartLF => seq!['(', '?', 'm', ':', '^', ')'],
        Look::EndLF => seq!['(', '?', 'm', ':', '$', ')'],
        Look::StartCRLF => seq!['(', '?', 'm', 'R', ':', '^', ')'],
        Look::EndCRLF => seq!['(', '?', 'm', 'R', ':', '$', ')'],
        Look::WordUnicode => seq!['(', '?', ':', '\\', 'b', ')'],
        Look::WordStartHalfUnicode => seq![
            '\\',
            'b',
            '{',
            's',
            't',
            'a',
            'r',
            't',
            '-',
            'h',
            'a',
            'l',
            'f',
            '}',
        ],
        Look::WordEndHalfUnicode => seq!['\\', 'b', '{', 'e', 'n', 'd', '-', 'h', 'a', 'l', 'f', '}'],
        Look::WordUnicodeNegate => seq!['\\', 'B'],
        Look::WordStartUnicode => seq!['\\', '<'],
        Look::WordEndUnicode => seq!['\\', '>'],
    }
}

pub open spec fn group_open_chars() -> Seq<char> {
    seq!['(', '?', ':']
}

/// The pattern that the printer writes for an expression.
pub open spec fn print_hir(h: SHir) -> Seq<char>
    decreases h,
{
    match h {
        SHir::Empty => seq!['(', '?', ':', ')'],
        SHir::Literal(c) => lit_chars(c),
        SHir::Class(rs) => class_chars(rs),
        SHir::Look(l) => look_chars(l),
        SHir::Repetition { min, max, greedy, sub } => {
            let inner = print_hir(*sub);
            let body = if (*sub) is Repetition {
                group_open_chars() + inner + seq![')']
            } else {
                inner
            };
            body + op_chars(min, max) + if greedy {
                Seq::empty()
            } else {
                seq!['?']
            }
        },
        SHir::Capture { index, sub } => seq!['('] + print_hir(*sub) + seq![')'],
        SHir::Concat(hs) => group_open_chars() + print_seq(hs) + seq![')'],
        SHir::Alternation(hs) => group_open_chars() + print_alts(hs) + seq![')'],
    }
}

/// The patterns of a sequence of expressions, one after the other.
pub open spec fn print_seq(hs: Seq<SHir>) -> Seq<char>
    decreases hs,
{
    if hs.len() == 0 {
        Seq::empty()
    } else {
        print_seq(hs.subrange(0, hs.len() - 1)) + print_hir(hs[hs.len() - 1])
    }
}

/// The patterns of a sequence of expressions, separated by `|`.
pub open spec fn print_alts(hs: Seq<SHir>) -> Seq<char>
    decreases hs,
{
    if hs.len() == 0 {
        Seq::empty()
    } else if hs.len() == 1 {
        print_hir(hs[0])
    } else {
        print_alts(hs.subrange(0, hs.len() - 1)) + seq!['|'] + print_hir(hs[hs.len() - 1])
    }
}

/// Appends the characters of `w`.
pub(crate) fn push_str_chars(out: &mut String, w: &[char])
    ensures
        final(out)@ == old(out)@ + w@,
{
    let ghost o = out@;
    let mut i: usize = 0;
    while i < w.len()
        invariant
            i <= w.len(),
            out@ == o + w@.subrange(0, i as int),
        decreases w.len() - i,
    {
        assert(w@.subrange(0, i + 1) =~= w@.subrange(0, i as int).push(w@[i as int]));
        out.push(w[i]);
        i += 1;
    }
    assert(w@.subrange(0, i as int) =~= w@);
}

fn push_lit(out: &mut String, c: char)
    ensures
        final(out)@ == old(out)@ + lit_chars(c),
{
    let ghost o = out@;
    if is_meta_char(c) {
        out.push('\\');
        out.push(c);
        assert(out@ =~= o + seq!['\\', c]);
    } else {
        out.push(c);
        assert(out@ =~= o + seq![c]);
    }
}

/// Appends the decimal digits of `n`.
pub fn push_decimal(out: &mut String, n: u128)
    ensures
        final(out)@ == old(out)@ + decimal_chars(n as nat),
    decreases n,
{
    let ghost o = out@;
    if n < 10 {
        let d = ('0' as u8 + n as u8) as char;
        assert(d == digit_char(n as int));
        out.push(d);
        assert(out@ =~= o + decimal_chars(n as nat));
    } else {
        push_decimal(out, n / 10);
        let d = ('0' as u8 + (n % 10) as u8) as char;
        assert(d == digit_char((n % 10) as int));
        out.push(d);
        assert(out@ =~= o + decimal_chars(n as nat));
    }
}

fn push_op(out: &mut String, min: u32, max: Option<u32>)
    ensures
        final(out)@ == old(out)@ + op_chars(min, max),
{
    let ghost o = out@;
    match max {
        None => {
            if min == 0 {
                out.push('*');
            } else if min == 1 {
                out.push('+');
            } else {
                out.push('{');
                push_decimal(out, min as u128);
                out.push(',');
                out.push('}');
            }
        },
        Some(n) => {
            if min == 0 && n == 1 {
                out.push('?');
            } else if min == n {
                out.push('{');
                push_decimal(out, min as u128);
                out.push('}');
            } else {
                out.push('{');
                push_decimal(out, min as u128);
                out.push(',');
                push_decimal(out, n as u128);
                out.push('}');
            }
        },
    }
    assert(out@ =~= o + op_chars(min, max));
}

fn push_class(out: &mut String, cls: &ClassUnicode)
    ensures
        final(out)@ == old(out)@ + class_chars(cls@),
{
    let ghost o = out@;
    let rs = &cls.ranges;
    if rs.len() == 0 {
        let w: [char; 6] = ['[', 'a', '&', '&', 'b', ']'];
        assert(w@ =~= empty_class_chars());
        push_str_chars(out, &w);
        return;
    }
    out.push('[');
    let mut i: usize = 0;
    assert(rview(rs@).subrange(0, 0) =~= Seq::<SRange>::empty());
    assert(out@ =~= o + seq!['['] + ranges_chars(rview(rs@).subrange(0, 0)));
    while i < rs.len()
        invariant
            i <= rs.len(),
            out@ == o + seq!['['] + ranges_chars(rview(rs@).subrange(0, i as int)),
        decreases rs.len() - i,
    {
        let r = rs[i];
        let ghost before = out@;
        push_lit(out, r.start);
        if r.start != r.end {
            out.push('-');
            push_lit(out, r.end);
        }
        proof {
            assert(r.start as int as char == r.start);
            assert(r.end as int as char == r.end);
            assert(out@ == before + range_chars(r@));
            lemma_ranges_chars_push(rview(rs@).subrange(0, i as int), r@);
            assert(rview(rs@).subrange(0, i + 1) =~= rview(rs@).subrange(0, i as int).push(r@));
        }
        i += 1;
    }
    out.push(']');
    assert(rview(rs@).subrange(0, i as int) =~= rview(rs@));
    assert(out@ =~= o + class_chars(cls@));
}

pub proof fn lemma_ranges_chars_push(rs: Seq<SRange>, r: SRange)
    ensures
        ranges_chars(rs.push(r)) == ranges_chars(rs) + range_chars(r),
    decreases rs.len(),
{
    if rs.len() == 0 {
        assert(rs.push(r).drop_first() =~= Seq::<SRange>::empty());
        assert(rs.push(r)[0] == r);
        assert(ranges_chars(Seq::<SRange>::empty()) =~= Seq::<char>::empty());
        assert(ranges_chars(rs) =~= Seq::<char>::empty());
        assert(ranges_chars(rs.push(r)) =~= range_chars(r));
    } else {
        lemma_ranges_chars_push(rs.drop_first(), r);
        assert(rs.push(r).drop_first() =~= rs.drop_first().push(r));
        assert(ranges_chars(rs.push(r)) =~= ranges_chars(rs) + range_chars(r));
    }
}

fn push_look(out: &mut String, l: Look)
    ensures
        final(out)@ == old(out)@ + look_chars(l),
{
    let ghost o = out@;
    match l {
        Look::Start => out.push('^'),
        Look::End => out.push('$'),
        Look::StartLF => {
            let w: [char; 6] = ['(', '?', 'm', ':', '^', ')'];
            assert(w@ =~= look_chars(l));
            push_str_chars(out, &w);
        },
        Look::EndLF => {
            let w: [char; 6] = ['(', '?', 'm', ':', '$', ')'];
            assert(w@ =~= look_chars(l));
            push_str_chars(out, &w);
        },
        Look::StartCRLF => {
            let w: [char; 7] = ['(', '?', 'm', 'R', ':', '^', ')'];
            assert(w@ =~= look_chars(l));
            push_str_chars(out, &w);
        },
        Look::EndCRLF => {
            let w: [char; 7] = ['(', '?', 'm', 'R', ':', '$', ')'];
            assert(w@ =~= look_chars(l));
            push_str_chars(out, &w);
        },
        Look::WordUnicode => {
            let w: [char; 6] = ['(', '?', ':', '\\', 'b', ')'];
            assert(w@ =~= look_chars(l));
            push_str_chars(out, &w);
        },
        Look::WordStartHalfUnicode => {
            let w: [char; 14] = ['\\', 'b', '{', 's', 't', 'a', 'r', 't', '-', 'h', 'a', 'l', 'f', '}'];
            assert(w@ =~= look_chars(l));
            push_str_chars(out, &w);
        },
        Look::WordEndHalfUnicode => {
            let w: [char; 12] = ['\\', 'b', '{', 'e', 'n', 'd', '-', 'h', 'a', 'l', 'f', '}'];
            assert(w@ =~= look_chars(l));
            push_str_chars(out, &w);
        },
        Look::WordUnicodeNegate => {
            out.push('\\');
            out.push('B');
        },
        Look::WordStartUnicode => {
            out.push('\\');
            out.push('<');
        },
        Look::WordEndUnicode => {
            out.push('\\');
            out.push('>');
        },
    }
    assert(out@ =~= o + look_chars(l));
}

fn push_group_open(out: &mut String)
    ensures
        final(out)@ == old(out)@ + group_open_chars(),
{
    let ghost o = out@;
    out.push('(');
    out.push('?');
    out.push(':');
    assert(out@ =~= o + group_open_chars());
}

pub proof fn lemma_print_seq_step(hs: Seq<SHir>, i: int)
    requires
        0 <= i < hs.len(),
    ensures
        print_seq(hs.subrange(0, i + 1)) == print_seq(hs.subrange(0, i)) + print_hir(hs[i]),
        i > 0 ==> print_alts(hs.subrange(0, i + 1)) == print_alts(hs.subrange(0, i)) + seq!['|']
            + print_hir(hs[i]),
        i == 0 ==> print_alts(hs.subrange(0, i + 1)) == print_hir(hs[i]),
{
    assert(hs.subrange(0, i + 1).subrange(0, i) =~= hs.subrange(0, i));
}

/// Writes the pattern of `h` at the end of `out`.
pub fn print_into(h: &Hir, out: &mut String)
    ensures
        final(out)@ == old(out)@ + print_hir(hir_view(*h)),
    decreases h,
{
    let ghost o = out@;
    match h {
        Hir::Empty => {
            let w: [char; 4] = ['(', '?', ':', ')'];
            assert(w@ =~= seq!['(', '?', ':', ')']);
            push_str_chars(out, &w);
        },
        Hir::Literal(c) => push_lit(out, *c),
        Hir::Class(Class::Unicode(cls)) => push_class(out, cls),
        Hir::Look(l) => push_look(out, *l),
        Hir::Repetition { min, max, greedy, sub } => {
            let wrap = match &**sub {
                Hir::Repetition { .. } => true,
                _ => false,
            };
            if wrap {
                push_group_open(out);
                print_into(&**sub, out);
                out.push(')');
            } else {
                print_into(&**sub, out);
            }
            push_op(out, *min, *max);
            if !*greedy {
                out.push('?');
            }
            assert(out@ =~= o + print_hir(hir_view(*h)));
        },
        Hir::Capture { index: _, sub } => {
            out.push('(');
            print_into(&**sub, out);
            out.push(')');
            assert(out@ =~= o + print_hir(hir_view(*h)));
        },
        Hir::Concat(v) => {
            push_group_open(out);
            let ghost hs = hirs_view(v@);
            proof {
                lemma_hirs_view_len(v@);
            }
            let mut i: usize = 0;
            assert(hs.subrange(0, 0) =~= Seq::<SHir>::empty());
            while i < v.len()
                invariant
                    i <= v.len(),
                    hs == hirs_view(v@),
                    hs.len() == v.len(),
                    out@ == o + group_open_chars() + print_seq(hs.subrange(0, i as int)),
                    *h == Hir::Concat(*v),
                decreases v.len() - i,
            {
                proof {
                    lemma_print_seq_step(hs, i as int);
                    lemma_hirs_view_index(v@, i as int);
                    assert(decreases_to!(*v => v@));
                    assert(decreases_to!(v@ => v@[i as int]));
                    assert(decreases_to!(*h => (*h)->Concat_0));
                }
                print_into(&v[i], out);
                i += 1;
            }
            out.push(')');
            assert(hs.subrange(0, i as int) =~= hs);
            assert(out@ =~= o + print_hir(hir_view(*h)));
        },
        Hir::Alternation(v) => {
            push_group_open(out);
            let ghost hs = hirs_view(v@);
            proof {
                lemma_hirs_view_len(v@);
            }
            let mut i: usize = 0;
            assert(hs.subrange(0, 0) =~= Seq::<SHir>::empty());
            while i < v.len()
                invariant
                    i <= v.len(),
                    hs == hirs_view(v@),
                    hs.len() == v.len(),
                    out@ == o + group_open_chars() + print_alts(hs.subrange(0, i as int)),
                    *h == Hir::Alternation(*v),
                decreases v.len() - i,
            {
                proof {
                    lemma_print_seq_step(hs, i as int);
                    lemma_hirs_view_index(v@, i as int);
                    assert(decreases_to!(*v => v@));
                    assert(decreases_to!(v@ => v@[i as int]));
                    assert(decreases_to!(*h => (*h)->Alternation_0));
                }
                if i > 0 {
                    out.push('|');
                }
                print_into(&v[i], out);
                i += 1;
            }
            out.push(')');
            assert(hs.subrange(0, i as int) =~= hs);
            assert(out@ =~= o + print_hir(hir_view(*h)));
        },
    }
}

pub proof fn lemma_hirs_view_index(s: Seq<Hir>, i: int)
    requires
        0 <= i < s.len(),
    ensures
        hirs_view(s)[i] == hir_view(s[i]),
    decreases s.len(),
{
    lemma_hirs_view_len(s);
    if i < s.len() - 1 {
        lemma_hirs_view_index(s.subrange(0, s.len() - 1), i);
    }
}

/// The pattern of an expression.
pub fn print(h: &Hir) -> (s: String)
    ensures
        s@ == print_hir(h@),
{
    let mut s = String::new();
    print_into(h, &mut s);
    assert(s@ =~= print_hir(h@));
    s
}

} // verus!
