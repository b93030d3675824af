//! The specification of the parser: the pattern is read left to right by a
//! machine whose state holds the pieces of the current sequence, the finished
//! alternatives, and a stack of open groups.
//!
//! Supported syntax: literals; `\` before any ASCII character but letters,
//! digits, `<` and `>`; `\t \n \r \f \v \a`; hexadecimal escapes `\xHH`,
//! `\uHHHH`, `\UHHHHHHHH` and `\x{H..}`; `.`; `^`; `$`; the assertions
//! `\A \z \b \B \< \>` and `\b{start}`, `\b{end}`, `\b{start-half}`,
//! `\b{end-half}`; `\s \S \d \D \w \W`; bracketed classes with ranges,
//! nesting, POSIX names (`[:alpha:]`), and the operators `&&`, `--`, `~~`;
//! `\p`/`\P` with the general categories, scripts, script extensions and
//! boolean properties of `tables`; groups `( )`, named groups
//! `(?P<name> )` and `(?<name> )`, `(?: )`, `(?flags: )` and flag directives
//! `(?flags)` with the flags `i m s U x R u`; the repetitions
//! `* + ? {n} {n,} {n,m}`, each optionally lazy; and `|`. Under `i`, classes
//! and characters are closed under Unicode simple case folding. The name of a
//! named group is checked (its characters, and that no other group has it)
//! and the group is then an ordinary capturing group. Unicode mode is always
//! on: `(?-u)` is refused.
use vstd::prelude::*;
use crate::ranges::{SRange, insert, union, intersect, difference, symmetric_difference, negate};
use crate::fold::case_fold;
use crate::hir::{SHir, Look, Flags, Error, ErrorKind};
use crate::tables::{UnicodeProp, posix_ranges, unicode_ranges, posix_by_name, property_by_name, gc_by_value, is_gc_key};

verus! {

/// The characters that a `\` turns into literals.
pub open spec fn is_meta(c: char) -> bool {
    c == '\\' || c == '.' || c == '+' || c == '*' || c == '?' || c == '(' || c == ')' || c == '|'
        || c == '[' || c == ']' || c == '{' || c == '}' || c == '^' || c == '$' || c == '#'
        || c == '&' || c == '-' || c == '~'
}

/// The characters that `\\` turns into literals: the meta characters, and
/// every other ASCII character but letters, digits, `<` and `>`.
pub open spec fn is_escapable(c: char) -> bool {
    is_meta(c) || ((c as int) < 0x80 && !('0' <= c <= '9') && !('a' <= c <= 'z') && !('A' <= c
        <= 'Z') && c != '<' && c != '>')
}

/// The whitespace that the `x` flag skips.
pub open spec fn is_space(c: char) -> bool {
    c == ' ' || c == '\t' || c == '\n' || c == '\r' || c == '\x0B' || c == '\x0C'
}

pub open spec fn is_digit(c: char) -> bool {
    '0' <= c <= '9'
}

pub open spec fn err(kind: ErrorKind, p: int) -> Error {
    Error { kind, offset: p as usize }
}

/// The result in branches that are never taken: each step consumes input.
pub open spec fn stalled() -> Error {
    err(ErrorKind::Unsupported, 0)
}

/// The position from `p` on after whitespace and `#` comments, when `x` is on.
pub open spec fn skip_space(s: Seq<char>, p: int, x: bool) -> int
    decreases s.len() - p,
{
    if !x || p < 0 || p >= s.len() {
        p
    } else if is_space(s[p]) {
        skip_space(s, p + 1, x)
    } else if s[p] == '#' {
        skip_comment(s, p + 1, x)
    } else {
        p
    }
}

pub open spec fn skip_comment(s: Seq<char>, p: int, x: bool) -> int
    decreases s.len() - p,
{
    if p < 0 || p >= s.len() {
        p
    } else if s[p] == '\n' {
        skip_space(s, p + 1, x)
    } else {
        skip_comment(s, p + 1, x)
    }
}

/// The first index from `p` on that holds `c`, or the length.
pub open spec fn find_char(s: Seq<char>, p: int, c: char) -> int
    decreases s.len() - p,
{
    if p < 0 || p >= s.len() {
        s.len() as int
    } else if s[p] == c {
        p
    } else {
        find_char(s, p + 1, c)
    }
}

/// The end of the run of decimal digits that starts at `p`.
pub open spec fn digits_end(s: Seq<char>, p: int) -> int
    decreases s.len() - p,
{
    if 0 <= p < s.len() && is_digit(s[p]) {
        digits_end(s, p + 1)
    } else {
        p
    }
}

/// The value of a sequence of decimal digits.
pub open spec fn digits_value(ds: Seq<char>) -> int
    decreases ds.len(),
{
    if ds.len() == 0 {
        0
    } else {
        digits_value(ds.drop_last()) * 10 + (ds.last() as int - '0' as int)
    }
}

/// A decimal number at `p`, and the position after it.
pub open spec fn decimal_at(s: Seq<char>, p: int) -> Result<(u32, int), Error> {
    let e = digits_end(s, p);
    if e == p {
        Err(err(ErrorKind::DecimalEmpty, p))
    } else if digits_value(s.subrange(p, e)) > u32::MAX {
        Err(err(ErrorKind::DecimalInvalid, p))
    } else {
        Ok((digits_value(s.subrange(p, e)) as u32, e))
    }
}

/// The count of a counted repetition whose `{` is at `p`, and the position after `}`.
pub open spec fn count_at(s: Seq<char>, p: int, x: bool) -> Result<(u32, Option<u32>, int), Error> {
    let q = skip_space(s, p + 1, x);
    if q >= s.len() {
        Err(err(ErrorKind::RepetitionCountUnclosed, p))
    } else {
        match decimal_at(s, q) {
            Err(e) => Err(e),
            Ok((m, q1)) => {
                let q2 = skip_space(s, q1, x);
                if q2 >= s.len() {
                    Err(err(ErrorKind::RepetitionCountUnclosed, p))
                } else if s[q2] == '}' {
                    Ok((m, Some(m), q2 + 1))
                } else if s[q2] != ',' {
                    Err(err(ErrorKind::RepetitionCountUnclosed, p))
                } else {
                    let q3 = skip_space(s, q2 + 1, x);
                    if q3 >= s.len() {
                        Err(err(ErrorKind::RepetitionCountUnclosed, p))
                    } else if s[q3] == '}' {
                        Ok((m, None, q3 + 1))
                    } else {
                        match decimal_at(s, q3) {
                            Err(e) => Err(e),
                            Ok((n, q4)) => {
                                let q5 = skip_space(s, q4, x);
                                if q5 >= s.len() || s[q5] != '}' {
                                    Err(err(ErrorKind::RepetitionCountUnclosed, p))
                                } else if n < m {
                                    Err(err(ErrorKind::RepetitionCountInvalid, p))
                                } else {
                                    Ok((m, Some(n), q5 + 1))
                                }
                            },
                        }
                    }
                }
            },
        }
    }
}

/// The characters of a property name with case, spaces, `_`, `-` and
/// characters outside ASCII ignored.
pub open spec fn normalize_chars(n: Seq<char>) -> Seq<char>
    decreases n.len(),
{
    if n.len() == 0 {
        Seq::empty()
    } else {
        let rest = normalize_chars(n.drop_first());
        let c = n[0];
        if c == ' ' || c == '_' || c == '-' || (c as int) >= 0x80 {
            rest
        } else if 'A' <= c <= 'Z' {
            seq![((c as u32) + 32) as char] + rest
        } else {
            seq![c] + rest
        }
    }
}

/// Whether a property name starts with `is`, in either case.
pub open spec fn starts_with_is(n: Seq<char>) -> bool {
    n.len() >= 2 && (n[0] == 'i' || n[0] == 'I') && (n[1] == 's' || n[1] == 'S')
}

/// A property name normalized: an `is` before it ignored, then
/// `normalize_chars`; but `isc` stays `isc`.
pub open spec fn normalize(n: Seq<char>) -> Seq<char> {
    if starts_with_is(n) {
        let b = normalize_chars(n.skip(2));
        if b == seq!['c'] {
            seq!['i', 's', 'c']
        } else {
            b
        }
    } else {
        normalize_chars(n)
    }
}

/// The text of `\p{..}` that names no general category although a property
/// has that name too: these name the general category.
pub open spec fn is_gc_before_prop(n: Seq<char>) -> bool {
    n == seq!['c', 'f'] || n == seq!['s', 'c'] || n == seq!['l', 'c']
}

/// The first index from `i` on that holds `=` or `:`, or the length.
pub open spec fn find_op(n: Seq<char>, i: int) -> int
    decreases n.len() - i,
{
    if i < 0 || i >= n.len() {
        n.len() as int
    } else if n[i] == '=' || n[i] == ':' {
        i
    } else {
        find_op(n, i + 1)
    }
}

/// The property that the text inside `\p{..}` names, and whether it is
/// negated by `!=`.
#[verifier::opaque]
pub open spec fn resolve_property(n: Seq<char>) -> Result<(UnicodeProp, bool), ErrorKind> {
    let i = find_op(n, 0);
    if i >= n.len() && !is_gc_before_prop(normalize(n)) && crate::boolprop::prop_by_name(
        normalize(n),
    ) is Some {
        match crate::boolprop::prop_by_name(normalize(n))->Some_0 {
            crate::boolprop::PropName::Bool(b) => Ok((UnicodeProp::Bool(b), false)),
            crate::boolprop::PropName::WhiteSpace => Ok((UnicodeProp::WhiteSpace, false)),
            _ => Err(ErrorKind::UnicodePropertyNotFound),
        }
    } else if i >= n.len() {
        match property_by_name(normalize(n)) {
            Some(p) => Ok((p, false)),
            None => if crate::script::script_without_table(normalize(n)) {
                Err(ErrorKind::UnicodePropertyValueNotFound)
            } else {
                Err(ErrorKind::UnicodePropertyNotFound)
            },
        }
    } else {
        let neq = n[i] == '=' && i > 0 && n[i - 1] == '!';
        let key = n.subrange(0, if neq { i - 1 } else { i });
        let value = n.subrange(i + 1, n.len() as int);
        if is_gc_key(normalize(key)) {
            match gc_by_value(normalize(value)) {
                Some(p) => Ok((p, neq)),
                None => Err(ErrorKind::UnicodePropertyValueNotFound),
            }
        } else if crate::script::is_script_key(normalize(key)) {
            match crate::script::script_by_value(normalize(value)) {
                Some(s) => Ok((UnicodeProp::Script(s), neq)),
                None => Err(ErrorKind::UnicodePropertyValueNotFound),
            }
        } else if crate::scx::is_scx_key(normalize(key)) {
            match crate::script::script_by_value(normalize(value)) {
                Some(s) => Ok((UnicodeProp::ScriptExtensions(s), neq)),
                None => Err(ErrorKind::UnicodePropertyValueNotFound),
            }
        } else {
            match crate::boolprop::prop_by_name(normalize(key)) {
                Some(crate::boolprop::PropName::Valued) => Err(ErrorKind::Unsupported),
                Some(_) => Err(ErrorKind::UnicodePropertyValueNotFound),
                None => Err(ErrorKind::UnicodePropertyNotFound),
            }
        }
    }
}

/// What an escape stands for: one character or a set of them.
pub enum Esc {
    Lit(char),
    Ranges(Seq<SRange>),
}

/// The class of `\p..` or `\P..` whose `\` is at `p`, and the position after it.
pub open spec fn property_at(s: Seq<char>, p: int, negated: bool) -> Result<(Esc, int), Error> {
    let q = p + 2;
    if q >= s.len() {
        Err(err(ErrorKind::EscapeUnexpectedEof, p))
    } else {
        let (name, end) = if s[q] == '{' {
            let close = find_char(s, q + 1, '}');
            (s.subrange(q + 1, close), close + 1)
        } else {
            (seq![s[q]], q + 1)
        };
        if s[q] == '{' && end > s.len() {
            Err(err(ErrorKind::EscapeUnexpectedEof, p))
        } else {
            match resolve_property(name) {
                Err(k) => Err(err(k, p)),
                Ok((prop, neq)) => {
                    let rs = unicode_ranges(prop);
                    Ok((Esc::Ranges(if negated != neq { negate(rs) } else { rs }), end))
                },
            }
        }
    }
}

/// The value of a hexadecimal digit, or -1 for any other character.
pub open spec fn hex_val(c: char) -> int {
    if '0' <= c <= '9' {
        c as int - '0' as int
    } else if 'a' <= c <= 'f' {
        c as int - 'a' as int + 10
    } else if 'A' <= c <= 'F' {
        c as int - 'A' as int + 10
    } else {
        -1
    }
}

pub open spec fn is_hex(c: char) -> bool {
    hex_val(c) >= 0
}

/// The end of the run of hexadecimal digits that starts at `p`.
pub open spec fn hex_end(s: Seq<char>, p: int) -> int
    decreases s.len() - p,
{
    if 0 <= p < s.len() && is_hex(s[p]) {
        hex_end(s, p + 1)
    } else {
        p
    }
}

/// The value of a sequence of hexadecimal digits.
pub open spec fn hex_value(ds: Seq<char>) -> int
    decreases ds.len(),
{
    if ds.len() == 0 {
        0
    } else {
        hex_value(ds.drop_last()) * 16 + hex_val(ds.last())
    }
}

/// The character that the digits from `a` to `b` name, when they name a
/// scalar value.
pub open spec fn hex_char_at(s: Seq<char>, p: int, a: int, b: int) -> Result<(Esc, int), Error> {
    let v = hex_value(s.subrange(a, b));
    if crate::ranges::valid_cp(v) {
        Ok((Esc::Lit(v as char), b))
    } else {
        Err(err(ErrorKind::EscapeHexInvalid, p))
    }
}

/// The hexadecimal escape whose `\` is at `p` (`\x`, `\u` or `\U`), with `n`
/// digits or with any number of digits in braces, and the position after it.
pub open spec fn hex_at(s: Seq<char>, p: int, n: int) -> Result<(Esc, int), Error> {
    let q = p + 2;
    if q >= s.len() {
        Err(err(ErrorKind::EscapeUnexpectedEof, p))
    } else if s[q] == '{' {
        let e = hex_end(s, q + 1);
        if e >= s.len() {
            Err(err(ErrorKind::EscapeUnexpectedEof, p))
        } else if s[e] != '}' {
            Err(err(ErrorKind::EscapeHexInvalidDigit, e))
        } else if e == q + 1 {
            Err(err(ErrorKind::EscapeHexEmpty, p))
        } else {
            match hex_char_at(s, p, q + 1, e) {
                Ok((c, _)) => Ok((c, e + 1)),
                Err(x) => Err(x),
            }
        }
    } else {
        let e = hex_end(s, q);
        if e >= q + n {
            hex_char_at(s, p, q, q + n)
        } else if e >= s.len() {
            Err(err(ErrorKind::EscapeUnexpectedEof, p))
        } else {
            Err(err(ErrorKind::EscapeHexInvalidDigit, e))
        }
    }
}

/// The assertion that the escape `\c` stands for: `\A`, `\z`, `\b`, `\B`,
/// `\<` or `\>`.
pub open spec fn look_escape(c: char) -> Option<Look> {
    if c == 'A' {
        Some(Look::Start)
    } else if c == 'z' {
        Some(Look::End)
    } else if c == 'b' {
        Some(Look::WordUnicode)
    } else if c == 'B' {
        Some(Look::WordUnicodeNegate)
    } else if c == '<' {
        Some(Look::WordStartUnicode)
    } else if c == '>' {
        Some(Look::WordEndUnicode)
    } else {
        None
    }
}

/// The characters of the name in a special word boundary `\b{name}`.
pub open spec fn is_word_name_char(c: char) -> bool {
    ('a' <= c <= 'z') || ('A' <= c <= 'Z') || c == '-'
}

/// The name characters from `r` on, skipping whitespace under `x`, and the
/// position after them.
pub open spec fn word_name(s: Seq<char>, r: int, x: bool) -> (Seq<char>, int)
    decreases s.len() - r,
{
    if r < 0 || r >= s.len() || !is_word_name_char(s[r]) {
        (Seq::empty(), r)
    } else {
        let n = skip_space(s, r + 1, x);
        if n <= r || n > s.len() {
            (seq![s[r]], r + 1)
        } else {
            let (w, e) = word_name(s, n, x);
            (seq![s[r]] + w, e)
        }
    }
}

/// The assertion that a special word boundary names.
pub open spec fn special_word(w: Seq<char>) -> Option<Look> {
    if w == seq!['s', 't', 'a', 'r', 't'] {
        Some(Look::WordStartUnicode)
    } else if w == seq!['e', 'n', 'd'] {
        Some(Look::WordEndUnicode)
    } else if w == seq!['s', 't', 'a', 'r', 't', '-', 'h', 'a', 'l', 'f'] {
        Some(Look::WordStartHalfUnicode)
    } else if w == seq!['e', 'n', 'd', '-', 'h', 'a', 'l', 'f'] {
        Some(Look::WordEndHalfUnicode)
    } else {
        None
    }
}

/// The assertion whose escape starts at `p` (where `look_escape` knows the
/// letter after the `\`), and the position after it. After `\b`, a `{`
/// followed by a name character opens a special word boundary; any other
/// `{` is left to the repetition that follows.
pub open spec fn look_at(s: Seq<char>, p: int, x: bool) -> Result<(Look, int), Error> {
    let q = p + 2;
    if s[p + 1] == 'b' && q < s.len() && s[q] == '{' {
        let r = skip_space(s, q + 1, x);
        if r >= s.len() {
            Err(err(ErrorKind::SpecialWordOrRepetitionUnexpectedEof, p))
        } else if !is_word_name_char(s[r]) {
            Ok((Look::WordUnicode, q))
        } else {
            let (w, e) = word_name(s, r, x);
            if e >= s.len() || s[e] != '}' {
                Err(err(ErrorKind::SpecialWordBoundaryUnclosed, q))
            } else {
                match special_word(w) {
                    Some(l) => Ok((l, e + 1)),
                    None => Err(err(ErrorKind::SpecialWordBoundaryUnrecognized, r)),
                }
            }
        }
    } else {
        Ok((look_escape(s[p + 1])->Some_0, q))
    }
}

/// The escapes that this parser knows to exist and leaves out.
pub open spec fn is_unsupported_escape(c: char) -> bool {
    is_digit(c)
}

/// The escape whose `\` is at `p`, and the position after it.
pub open spec fn escape_at(s: Seq<char>, p: int) -> Result<(Esc, int), Error> {
    if p + 1 >= s.len() {
        Err(err(ErrorKind::EscapeUnexpectedEof, p))
    } else {
        let c = s[p + 1];
        if is_escapable(c) {
            Ok((Esc::Lit(c), p + 2))
        } else if c == 't' {
            Ok((Esc::Lit('\t'), p + 2))
        } else if c == 'n' {
            Ok((Esc::Lit('\n'), p + 2))
        } else if c == 'r' {
            Ok((Esc::Lit('\r'), p + 2))
        } else if c == 'f' {
            Ok((Esc::Lit('\x0C'), p + 2))
        } else if c == 'v' {
            Ok((Esc::Lit('\x0B'), p + 2))
        } else if c == 'a' {
            Ok((Esc::Lit('\x07'), p + 2))
        } else if c == 'p' || c == 'P' {
            property_at(s, p, c == 'P')
        } else {
            letter_escape(s, p, c)
        }
    }
}

/// The escapes `\s`, `\S`, `\d`, `\D`, `\w`, `\W`, `\x`, `\u`, `\U`, and the errors of the other
/// letters, for the escape `\c` at `p`.
#[verifier::opaque]
pub open spec fn letter_escape(s: Seq<char>, p: int, c: char) -> Result<(Esc, int), Error> {
    if c == 's' || c == 'S' {
        let ws = unicode_ranges(UnicodeProp::WhiteSpace);
        Ok((Esc::Ranges(if c == 'S' { negate(ws) } else { ws }), p + 2))
    } else if c == 'd' || c == 'D' {
        let nd = unicode_ranges(UnicodeProp::DecimalNumber);
        Ok((Esc::Ranges(if c == 'D' { negate(nd) } else { nd }), p + 2))
    } else if c == 'w' || c == 'W' {
        let wd = crate::word::word_ranges();
        Ok((Esc::Ranges(if c == 'W' { negate(wd) } else { wd }), p + 2))
    } else if c == 'x' {
        hex_at(s, p, 2)
    } else if c == 'u' {
        hex_at(s, p, 4)
    } else if c == 'U' {
        hex_at(s, p, 8)
    } else if look_escape(c) is Some {
        Err(err(ErrorKind::ClassEscapeInvalid, p))
    } else if is_unsupported_escape(c) {
        Err(err(ErrorKind::Unsupported, p))
    } else {
        Err(err(ErrorKind::EscapeUnrecognized, p))
    }
}

/// A POSIX class `[:name:]` or `[:^name:]` whose `[` is at `p`, with the
/// position after it; `None` when no known class stands there.
pub open spec fn posix_at(s: Seq<char>, p: int) -> Option<(Seq<SRange>, int)> {
    if p + 1 < s.len() && s[p + 1] == ':' {
        let r = p + 2;
        let neg = r < s.len() && s[r] == '^';
        let r2 = if neg { r + 1 } else { r };
        let e = find_char(s, r2, ':');
        if e + 1 < s.len() && s[e + 1] == ']' {
            match posix_by_name(s.subrange(r2, e)) {
                Some(k) => Some(
                    (if neg { negate(posix_ranges(k)) } else { posix_ranges(k) }, e + 2),
                ),
                None => None,
            }
        } else {
            None
        }
    } else {
        None
    }
}

/// The binary operators of bracketed classes.
#[derive(Clone, Copy, Debug, PartialEq, Eq, Structural)]
pub enum ClassOp {
    Intersection,
    Difference,
    SymmetricDifference,
}

pub open spec fn apply_op(op: ClassOp, a: Seq<SRange>, b: Seq<SRange>) -> Seq<SRange> {
    match op {
        ClassOp::Intersection => intersect(a, b),
        ClassOp::Difference => difference(a, b),
        ClassOp::SymmetricDifference => symmetric_difference(a, b),
    }
}

/// The left operand so far (with its operator) combined with the current union.
pub open spec fn combine(lhs: Option<(ClassOp, Seq<SRange>)>, cur: Seq<SRange>) -> Seq<SRange> {
    match lhs {
        None => cur,
        Some((op, a)) => apply_op(op, a, cur),
    }
}

/// One item of a bracketed class at `p`: a character or an escape.
pub open spec fn class_item_at(s: Seq<char>, p: int) -> Result<(Esc, int), Error> {
    if s[p] == '\\' {
        escape_at(s, p)
    } else {
        Ok((Esc::Lit(s[p]), p + 1))
    }
}

/// A bracketed class whose `[` is at `p`, and the position after its `]`.
pub open spec fn class_open(s: Seq<char>, p: int, f: Flags) -> Result<(Seq<SRange>, int), Error>
    decreases s.len() - p, 0int,
{
    let x = f.ignore_whitespace;
    let q = skip_space(s, p + 1, x);
    let neg = 0 <= q < s.len() && s[q] == '^';
    let q2 = if neg {
        skip_space(s, q + 1, x)
    } else {
        q
    };
    if p < q2 <= s.len() {
        class_loop(s, q2, f, p, neg, None, Seq::empty(), true)
    } else {
        Err(stalled())
    }
}

/// The items of a bracketed class from `q` on; `cur` is the union of the items
/// since the last operator, `lhs` what stands before that operator.
pub open spec fn class_loop(
    s: Seq<char>,
    q: int,
    f: Flags,
    open: int,
    neg: bool,
    lhs: Option<(ClassOp, Seq<SRange>)>,
    cur: Seq<SRange>,
    first: bool,
) -> Result<(Seq<SRange>, int), Error>
    decreases s.len() - q, 1int,
{
    let x = f.ignore_whitespace;
    let q1 = skip_space(s, q, x);
    if q1 < q || q < 0 {
        Err(stalled())
    } else if q1 >= s.len() {
        Err(err(ErrorKind::ClassUnclosed, open))
    } else {
        let c = s[q1];
        if c == ']' && !first {
            let body = combine(lhs, cur);
            let folded = if f.case_insensitive {
                case_fold(body)
            } else {
                body
            };
            Ok((if neg { negate(folded) } else { folded }, q1 + 1))
        } else if c == '[' {
            match posix_at(s, q1) {
                Some((rs, q2)) => if q < q2 <= s.len() {
                    class_loop(s, q2, f, open, neg, lhs, union(cur, rs), false)
                } else {
                    Err(stalled())
                },
                None => match class_open(s, q1, f) {
                    Err(e) => Err(e),
                    Ok((rs, q2)) => if q < q2 <= s.len() {
                        class_loop(s, q2, f, open, neg, lhs, union(cur, rs), false)
                    } else {
                        Err(stalled())
                    },
                },
            }
        } else if (c == '&' || c == '-' || c == '~') && q1 + 1 < s.len() && s[q1 + 1] == c {
            let op = if c == '&' {
                ClassOp::Intersection
            } else if c == '-' {
                ClassOp::Difference
            } else {
                ClassOp::SymmetricDifference
            };
            class_loop(s, q1 + 2, f, open, neg, Some((op, combine(lhs, cur))), Seq::empty(), false)
        } else {
            match class_item_at(s, q1) {
                Err(e) => Err(e),
                Ok((Esc::Ranges(rs), q2)) => if q < q2 <= s.len() {
                    class_loop(s, q2, f, open, neg, lhs, union(cur, rs), false)
                } else {
                    Err(stalled())
                },
                Ok((Esc::Lit(lo), q2)) => {
                    let q3 = skip_space(s, q2, x);
                    if 0 <= q3 && q3 + 1 < s.len() && s[q3] == '-' && s[q3 + 1] != ']' && s[q3 + 1]
                        != '-' {
                        let q4 = skip_space(s, q3 + 1, x);
                        if q4 >= s.len() || q4 < 0 {
                            Err(err(ErrorKind::ClassUnclosed, open))
                        } else {
                            match class_item_at(s, q4) {
                                Err(e) => Err(e),
                                Ok((Esc::Ranges(_), _)) => Err(err(ErrorKind::ClassRangeLiteral, q4)),
                                Ok((Esc::Lit(hi), q5)) => if lo > hi {
                                    Err(err(ErrorKind::ClassRangeInvalid, q1))
                                } else if q < q5 <= s.len() {
                                    class_loop(
                                        s,
                                        q5,
                                        f,
                                        open,
                                        neg,
                                        lhs,
                                        insert(cur, (lo as int, hi as int)),
                                        false,
                                    )
                                } else {
                                    Err(stalled())
                                },
                            }
                        }
                    } else if q < q2 <= s.len() {
                        class_loop(s, q2, f, open, neg, lhs, insert(cur, (lo as int, lo as int)), false)
                    } else {
                        Err(stalled())
                    }
                },
            }
        }
    }
}

/// An open group.
pub struct SFrame {
    /// The position of its `(`.
    pub open: int,
    /// Its capture index, for a capturing group.
    pub capture: Option<int>,
    /// The flags before the group.
    pub saved: Flags,
    /// The enclosing group's sequence so far.
    pub concat: Seq<SHir>,
    /// The enclosing group's finished alternatives.
    pub alts: Seq<SHir>,
}

/// The parser's state.
pub struct SState {
    pub pos: int,
    pub flags: Flags,
    /// The pieces of the current sequence.
    pub concat: Seq<SHir>,
    /// Whether the last thing read in the current sequence is a flag directive.
    pub after_directive: bool,
    /// The finished alternatives of the current group.
    pub alts: Seq<SHir>,
    pub stack: Seq<SFrame>,
    /// The next capture index.
    pub caps: int,
    /// The names of the named groups opened so far.
    pub names: Seq<Seq<char>>,
}

pub open spec fn initial_state() -> SState {
    SState {
        pos: 0,
        flags: crate::hir::default_flags(),
        concat: Seq::empty(),
        after_directive: false,
        alts: Seq::empty(),
        stack: Seq::empty(),
        caps: 0,
        names: Seq::empty(),
    }
}

/// A sequence of pieces as one expression.
pub open spec fn concat_hir(pieces: Seq<SHir>) -> SHir {
    if pieces.len() == 0 {
        SHir::Empty
    } else if pieces.len() == 1 {
        pieces[0]
    } else {
        SHir::Concat(pieces)
    }
}

/// Finished alternatives and a last sequence as one expression.
pub open spec fn alt_hir(alts: Seq<SHir>, concat: Seq<SHir>) -> SHir {
    let all = alts.push(concat_hir(concat));
    if all.len() == 1 {
        all[0]
    } else {
        SHir::Alternation(all)
    }
}

/// A character as a piece: under `i`, the class of its simple case folding,
/// unless that class holds the character alone.
pub open spec fn literal_hir(c: char, f: Flags) -> SHir {
    let folded = case_fold(seq![(c as int, c as int)]);
    if f.case_insensitive && folded != seq![(c as int, c as int)] {
        SHir::Class(folded)
    } else {
        SHir::Literal(c)
    }
}

pub open spec fn class_hir(rs: Seq<SRange>, f: Flags) -> SHir {
    SHir::Class(
        if f.case_insensitive {
            case_fold(rs)
        } else {
            rs
        },
    )
}

/// What `.` matches: everything under `s`; otherwise everything but `\n`,
/// and but `\r` too under `R`.
pub open spec fn dot_ranges(f: Flags) -> Seq<SRange> {
    if f.dot_matches_new_line {
        seq![(0, 0x10FFFF)]
    } else if f.crlf {
        seq![(0, 9), (11, 12), (14, 0x10FFFF)]
    } else {
        seq![(0, 9), (11, 0x10FFFF)]
    }
}

pub proof fn lemma_dot_canonical(f: Flags)
    ensures
        crate::ranges::canonical(dot_ranges(f)),
{
    let d = dot_ranges(f);
    if f.dot_matches_new_line {
        crate::ranges::lemma_single((0int, 0x10FFFFint));
    } else if f.crlf {
        let d1 = seq![(11int, 12int), (14int, 0x10FFFFint)];
        let d2 = seq![(14int, 0x10FFFFint)];
        assert(d.drop_first() =~= d1);
        assert(d1.drop_first() =~= d2);
        crate::ranges::lemma_single((14int, 0x10FFFFint));
        assert(crate::ranges::canonical(d2));
        assert(crate::ranges::range_ok(d1[0]));
        assert(crate::ranges::succ(d1[0].1) < d1[1].0);
        assert(crate::ranges::canonical(d1));
        assert(crate::ranges::range_ok(d[0]));
        assert(crate::ranges::succ(d[0].1) < d[1].0);
    } else {
        assert(d.drop_first() =~= seq![(11int, 0x10FFFFint)]);
        crate::ranges::lemma_single((11int, 0x10FFFFint));
    }
}

/// The assertion that `^` stands for.
pub open spec fn caret_look(f: Flags) -> Look {
    if !f.multi_line {
        Look::Start
    } else if f.crlf {
        Look::StartCRLF
    } else {
        Look::StartLF
    }
}

/// The assertion that `$` stands for.
pub open spec fn dollar_look(f: Flags) -> Look {
    if !f.multi_line {
        Look::End
    } else if f.crlf {
        Look::EndCRLF
    } else {
        Look::EndLF
    }
}

pub open spec fn push_piece(st: SState, h: SHir, q: int) -> SState {
    SState { pos: q, concat: st.concat.push(h), after_directive: false, ..st }
}

pub open spec fn set_flag(f: Flags, c: char, v: bool) -> Flags {
    if c == 'i' {
        Flags { case_insensitive: v, ..f }
    } else if c == 'm' {
        Flags { multi_line: v, ..f }
    } else if c == 's' {
        Flags { dot_matches_new_line: v, ..f }
    } else if c == 'U' {
        Flags { swap_greed: v, ..f }
    } else if c == 'x' {
        Flags { ignore_whitespace: v, ..f }
    } else if c == 'R' {
        Flags { crlf: v, ..f }
    } else {
        f
    }
}

/// The flags: `i m s U x R`, and `u`, which this parser always has on.
pub open spec fn is_flag(c: char) -> bool {
    c == 'i' || c == 'm' || c == 's' || c == 'U' || c == 'x' || c == 'R' || c == 'u'
}

/// The flags of a group from `q` on: the new flags, the position of the `:`
/// or `)` that ends them, and whether it is a `)` (a directive). `count` is
/// the number of flags and `-` already read, the characters just before `q`.
pub open spec fn flags_at(
    s: Seq<char>,
    q: int,
    f: Flags,
    negating: bool,
    pending: bool,
    count: int,
) -> Result<(Flags, int, bool), Error>
    decreases s.len() - q,
{
    if q < 0 || q >= s.len() {
        Err(err(ErrorKind::FlagUnexpectedEof, q))
    } else {
        let c = s[q];
        if c == ':' || c == ')' {
            if pending {
                Err(err(ErrorKind::FlagDanglingNegation, q - 1))
            } else if c == ')' && count == 0 {
                Err(err(ErrorKind::FlagEmpty, q))
            } else {
                Ok((f, q, c == ')'))
            }
        } else if c == '-' {
            if negating {
                Err(err(ErrorKind::FlagRepeatedNegation, q))
            } else {
                flags_at(s, q + 1, f, true, true, count + 1)
            }
        } else if !is_flag(c) {
            Err(err(ErrorKind::FlagUnrecognized, q))
        } else if s.subrange(q - count, q).contains(c) {
            Err(err(ErrorKind::FlagDuplicate, q))
        } else if c == 'u' && negating {
            Err(err(ErrorKind::Unsupported, q))
        } else {
            flags_at(s, q + 1, set_flag(f, c, !negating), negating, false, count + 1)
        }
    }
}

/// Whether `c` has the Unicode property `Alphabetic` (`char::is_alphabetic`).
pub uninterp spec fn alphabetic(c: char) -> bool;

/// Whether `c` is alphabetic or numeric (`char::is_alphanumeric`).
pub uninterp spec fn alphanumeric(c: char) -> bool;

/// The characters of a group name: `_` or an alphabetic character first,
/// then also digits and other numeric characters, `.`, `[` and `]`.
pub open spec fn is_name_char(c: char, first: bool) -> bool {
    if first {
        c == '_' || alphabetic(c)
    } else {
        c == '_' || c == '.' || c == '[' || c == ']' || alphanumeric(c)
    }
}

/// The end of a group name that starts at `start`, from `q` on: the first
/// `>`, the first character that the name cannot hold, or the end.
pub open spec fn name_end(s: Seq<char>, start: int, q: int) -> int
    decreases s.len() - q,
{
    if q < 0 || q >= s.len() || s[q] == '>' || !is_name_char(s[q], q == start) {
        q
    } else {
        name_end(s, start, q + 1)
    }
}

/// The group name that starts at `q`, after its `<`, with the position after
/// its `>`; `names` are the names of the groups before.
pub open spec fn name_at(s: Seq<char>, q: int, names: Seq<Seq<char>>) -> Result<(Seq<char>, int), Error> {
    let e = name_end(s, q, q);
    if e >= s.len() {
        Err(err(ErrorKind::GroupNameUnexpectedEof, e))
    } else if s[e] != '>' {
        Err(err(ErrorKind::GroupNameInvalid, e))
    } else if e == q {
        Err(err(ErrorKind::GroupNameEmpty, q))
    } else if names.contains(s.subrange(q, e)) {
        Err(err(ErrorKind::GroupNameDuplicate, q))
    } else {
        Ok((s.subrange(q, e), e + 1))
    }
}

/// Whether a look-around group, which this syntax does not have, opens at
/// the `?` at `q`.
pub open spec fn is_lookaround(s: Seq<char>, q: int) -> bool {
    ||| q + 1 < s.len() && (s[q + 1] == '=' || s[q + 1] == '!')
    ||| q + 2 < s.len() && s[q + 1] == '<' && (s[q + 2] == '=' || s[q + 2] == '!')
}

/// The position after `<` when a named group opens at the `?` at `q`.
pub open spec fn name_start(s: Seq<char>, q: int) -> Option<int> {
    if q + 1 < s.len() && s[q + 1] == '<' {
        Some(q + 2)
    } else if q + 2 < s.len() && s[q + 1] == 'P' && s[q + 2] == '<' {
        Some(q + 3)
    } else {
        None
    }
}

/// The state after a capturing group opens at `st.pos`, its pattern going on
/// at `q`.
pub open spec fn open_capture(st: SState, q: int) -> SState {
    SState {
        pos: q,
        concat: Seq::empty(),
        after_directive: false,
        alts: Seq::empty(),
        stack: st.stack.push(
            SFrame {
                open: st.pos,
                capture: Some(st.caps),
                saved: st.flags,
                concat: st.concat,
                alts: st.alts,
            },
        ),
        caps: st.caps + 1,
        ..st
    }
}

/// The step at a `(`.
pub open spec fn open_group(s: Seq<char>, st: SState) -> Result<SState, Error> {
    let p = st.pos;
    if p + 1 < s.len() && s[p + 1] == '?' {
        let q = p + 2;
        if is_lookaround(s, p + 1) {
            Err(err(ErrorKind::UnsupportedLookAround, p))
        } else if name_start(s, p + 1) is Some {
            match name_at(s, name_start(s, p + 1)->Some_0, st.names) {
                Err(e) => Err(e),
                Ok((n, t)) => Ok(SState { names: st.names.push(n), ..open_capture(st, t) }),
            }
        } else {
            match flags_at(s, q, st.flags, false, false, 0) {
                Err(e) => Err(e),
                Ok((f2, t, directive)) => if directive {
                    Ok(SState { pos: t + 1, flags: f2, after_directive: true, ..st })
                } else {
                    Ok(
                        SState {
                            pos: t + 1,
                            flags: f2,
                            concat: Seq::empty(),
                            after_directive: false,
                            alts: Seq::empty(),
                            stack: st.stack.push(
                                SFrame {
                                    open: p,
                                    capture: None,
                                    saved: st.flags,
                                    concat: st.concat,
                                    alts: st.alts,
                                },
                            ),
                            ..st
                        },
                    )
                },
            }
        }
    } else {
        Ok(open_capture(st, p + 1))
    }
}

/// The step at a `)`.
pub open spec fn close_group(st: SState) -> Result<SState, Error> {
    if st.stack.len() == 0 {
        Err(err(ErrorKind::GroupUnopened, st.pos))
    } else {
        let fr = st.stack.last();
        let body = alt_hir(st.alts, st.concat);
        let node = match fr.capture {
            Some(i) => SHir::Capture { index: i, sub: Box::new(body) },
            None => body,
        };
        Ok(
            SState {
                pos: st.pos + 1,
                flags: fr.saved,
                concat: fr.concat.push(node),
                after_directive: false,
                alts: fr.alts,
                stack: st.stack.drop_last(),
                caps: st.caps,
                names: st.names,
            },
        )
    }
}

/// Applies a repetition to the last piece; `q` is the position after the
/// operator, where a `?` makes it lazy.
pub open spec fn repeat(s: Seq<char>, st: SState, min: u32, max: Option<u32>, q: int) -> SState {
    let lazy = 0 <= q < s.len() && s[q] == '?';
    let q2 = if lazy {
        q + 1
    } else {
        q
    };
    let greedy = lazy == st.flags.swap_greed;
    let sub = st.concat.last();
    SState {
        pos: q2,
        concat: st.concat.drop_last().push(
            SHir::Repetition { min, max, greedy, sub: Box::new(sub) },
        ),
        after_directive: false,
        ..st
    }
}

/// One step of the parser at `st.pos`, which holds a character.
pub open spec fn step(s: Seq<char>, st: SState) -> Result<SState, Error> {
    let p = st.pos;
    let c = s[p];
    let f = st.flags;
    if c == '(' {
        open_group(s, st)
    } else if c == ')' {
        close_group(st)
    } else if c == '|' {
        Ok(
            SState {
                pos: p + 1,
                concat: Seq::empty(),
                after_directive: false,
                alts: st.alts.push(concat_hir(st.concat)),
                ..st
            },
        )
    } else if c == '[' {
        match class_open(s, p, f) {
            Err(e) => Err(e),
            Ok((rs, q)) => Ok(push_piece(st, SHir::Class(rs), q)),
        }
    } else if c == '*' || c == '+' || c == '?' || c == '{' {
        if st.concat.len() == 0 || st.after_directive {
            Err(err(ErrorKind::RepetitionMissing, p))
        } else if c == '*' {
            Ok(repeat(s, st, 0, None, p + 1))
        } else if c == '+' {
            Ok(repeat(s, st, 1, None, p + 1))
        } else if c == '?' {
            Ok(repeat(s, st, 0, Some(1), p + 1))
        } else {
            match count_at(s, p, f.ignore_whitespace) {
                Err(e) => Err(e),
                Ok((m, mx, q)) => Ok(repeat(s, st, m, mx, q)),
            }
        }
    } else if c == '.' {
        Ok(push_piece(st, SHir::Class(dot_ranges(f)), p + 1))
    } else if c == '^' {
        Ok(push_piece(st, SHir::Look(caret_look(f)), p + 1))
    } else if c == '$' {
        Ok(push_piece(st, SHir::Look(dollar_look(f)), p + 1))
    } else if c == '\\' && p + 1 < s.len() && look_escape(s[p + 1]) is Some {
        match look_at(s, p, f.ignore_whitespace) {
            Err(e) => Err(e),
            Ok((l, q)) => Ok(push_piece(st, SHir::Look(l), q)),
        }
    } else if c == '\\' {
        match escape_at(s, p) {
            Err(e) => Err(e),
            Ok((Esc::Lit(l), q)) => Ok(push_piece(st, literal_hir(l, f), q)),
            Ok((Esc::Ranges(rs), q)) => Ok(push_piece(st, class_hir(rs, f), q)),
        }
    } else {
        Ok(push_piece(st, literal_hir(c, f), p + 1))
    }
}

/// The end of the pattern.
pub open spec fn finish(st: SState) -> Result<SHir, Error> {
    if st.stack.len() > 0 {
        Err(err(ErrorKind::GroupUnclosed, st.stack.last().open))
    } else {
        Ok(alt_hir(st.alts, st.concat))
    }
}

/// Runs the parser from a state to the end of the pattern.
pub open spec fn run(s: Seq<char>, st: SState) -> Result<SHir, Error>
    decreases s.len() - st.pos,
{
    if st.pos < 0 || st.pos > s.len() {
        Err(stalled())
    } else {
        let p = skip_space(s, st.pos, st.flags.ignore_whitespace);
        if p < st.pos || p > s.len() {
            Err(stalled())
        } else if p == s.len() {
            finish(SState { pos: p, ..st })
        } else {
            match step(s, SState { pos: p, ..st }) {
                Err(e) => Err(e),
                Ok(st2) => if st.pos < st2.pos <= s.len() {
                    run(s, st2)
                } else {
                    Err(stalled())
                },
            }
        }
    }
}

/// The meaning of a pattern: its expression, or the first error in it.
pub open spec fn spec_parse(s: Seq<char>) -> Result<SHir, Error> {
    run(s, initial_state())
}

} // verus!
