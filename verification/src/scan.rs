//! The parser's lexical pieces: whitespace, numbers, escapes, Unicode
//! properties and POSIX names, each proved to compute its model in `syntax`.
use vstd::prelude::*;
use crate::ranges::SRange;
use crate::class::{ClassUnicodeRange, rview, negate_ranges};
use crate::hir::{Error, ErrorKind, Look};
use crate::tables::{UnicodeProp, posix_class, unicode_class, posix_lookup, property_lookup, gc_lookup, gc_key};
use crate::syntax::{Esc, is_escapable, letter_escape, look_escape, look_at, is_word_name_char, word_name, special_word, alphabetic, alphanumeric, is_name_char, name_end, name_at, is_hex, hex_val, hex_end, hex_value, hex_char_at, hex_at, is_meta, is_space, is_digit, is_unsupported_escape, skip_space, skip_comment, find_char, digits_end, digits_value, decimal_at, count_at, normalize, normalize_chars, find_op, resolve_property, property_at, escape_at, posix_at};

verus! {

pub fn is_meta_char(c: char) -> (r: bool)
    ensures
        r == is_meta(c),
{
    c == '\\' || c == '.' || c == '+' || c == '*' || c == '?' || c == '(' || c == ')' || c == '|'
        || c == '[' || c == ']' || c == '{' || c == '}' || c == '^' || c == '$' || c == '#'
        || c == '&' || c == '-' || c == '~'
}

/// See `syntax::is_escapable`.
pub fn is_escapable_char(c: char) -> (r: bool)
    ensures
        r == is_escapable(c),
{
    is_meta_char(c) || ((c as u32) < 0x80 && !('0' <= c && c <= '9') && !('a' <= c && c <= 'z')
        && !('A' <= c && c <= 'Z') && c != '<' && c != '>')
}

pub fn is_space_char(c: char) -> (r: bool)
    ensures
        r == is_space(c),
{
    c == ' ' || c == '\t' || c == '\n' || c == '\r' || c == '\x0B' || c == '\x0C'
}

pub fn is_digit_char(c: char) -> (r: bool)
    ensures
        r == is_digit(c),
{
    '0' <= c && c <= '9'
}

/// See `syntax::skip_space`.
pub fn skip_space_at(s: &[char], p: usize, x: bool) -> (r: usize)
    requires
        p <= s.len(),
    ensures
        r as int == skip_space(s@, p as int, x),
        p <= r <= s.len(),
{
    if !x {
        return p;
    }
    let mut i = p;
    let mut comment = false;
    while i < s.len()
        invariant
            p <= i <= s.len(),
            x,
            skip_space(s@, p as int, x) == (if comment {
                skip_comment(s@, i as int, x)
            } else {
                skip_space(s@, i as int, x)
            }),
        decreases s.len() - i,
    {
        if comment {
            if s[i] == '\n' {
                comment = false;
            }
            i += 1;
        } else if is_space_char(s[i]) {
            i += 1;
        } else if s[i] == '#' {
            comment = true;
            i += 1;
        } else {
            return i;
        }
    }
    i
}

/// See `syntax::find_char`.
pub fn find_char_at(s: &[char], p: usize, c: char) -> (r: usize)
    requires
        p <= s.len(),
    ensures
        r as int == find_char(s@, p as int, c),
        p <= r <= s.len(),
        r < s.len() ==> s@[r as int] == c,
{
    let mut i = p;
    while i < s.len()
        invariant
            p <= i <= s.len(),
            find_char(s@, p as int, c) == find_char(s@, i as int, c),
        decreases s.len() - i,
    {
        if s[i] == c {
            return i;
        }
        i += 1;
    }
    i
}

pub proof fn lemma_digits_value_step(s: Seq<char>, p: int, i: int)
    requires
        0 <= p <= i < s.len(),
    ensures
        digits_value(s.subrange(p, i + 1)) == digits_value(s.subrange(p, i)) * 10 + (s[i] as int
            - '0' as int),
{
    assert(s.subrange(p, i + 1).drop_last() =~= s.subrange(p, i));
}

/// See `syntax::decimal_at`.
pub fn decimal_at_pos(s: &[char], p: usize) -> (r: Result<(u32, usize), Error>)
    requires
        p <= s.len(),
    ensures
        match r {
            Ok((v, q)) => decimal_at(s@, p as int) == Ok::<(u32, int), Error>((v, q as int)) && p
                < q <= s.len(),
            Err(e) => decimal_at(s@, p as int) == Err::<(u32, int), Error>(e),
        },
{
    let mut i = p;
    let mut v: u64 = 0;
    let mut overflow = false;
    assert(s@.subrange(p as int, p as int) =~= Seq::<char>::empty());
    while i < s.len() && is_digit_char(s[i])
        invariant
            p <= i <= s.len(),
            digits_end(s@, p as int) == digits_end(s@, i as int),
            v <= u32::MAX,
            !overflow ==> v == digits_value(s@.subrange(p as int, i as int)),
            overflow ==> digits_value(s@.subrange(p as int, i as int)) > u32::MAX,
        decreases s.len() - i,
    {
        proof {
            lemma_digits_value_step(s@, p as int, i as int);
        }
        if !overflow {
            let d = (s[i] as u32 - '0' as u32) as u64;
            let nv = v * 10 + d;
            if nv > u32::MAX as u64 {
                overflow = true;
            } else {
                v = nv;
            }
        }
        i += 1;
    }
    if i == p {
        return Err(Error { kind: ErrorKind::DecimalEmpty, offset: p });
    }
    if overflow {
        return Err(Error { kind: ErrorKind::DecimalInvalid, offset: p });
    }
    Ok((v as u32, i))
}

/// See `syntax::count_at`.
pub fn count_at_pos(s: &[char], p: usize, x: bool) -> (r: Result<(u32, Option<u32>, usize), Error>)
    requires
        p < s.len(),
    ensures
        match r {
            Ok((m, mx, q)) => count_at(s@, p as int, x) == Ok::<(u32, Option<u32>, int), Error>(
                (m, mx, q as int),
            ) && p < q <= s.len(),
            Err(e) => count_at(s@, p as int, x) == Err::<(u32, Option<u32>, int), Error>(e),
        },
{
    let unclosed = Error { kind: ErrorKind::RepetitionCountUnclosed, offset: p };
    let q = skip_space_at(s, p + 1, x);
    if q >= s.len() {
        return Err(unclosed);
    }
    let (m, q1) = match decimal_at_pos(s, q) {
        Err(e) => {
            return Err(e);
        },
        Ok(v) => v,
    };
    let q2 = skip_space_at(s, q1, x);
    if q2 >= s.len() {
        return Err(unclosed);
    }
    if s[q2] == '}' {
        return Ok((m, Some(m), q2 + 1));
    }
    if s[q2] != ',' {
        return Err(unclosed);
    }
    let q3 = skip_space_at(s, q2 + 1, x);
    if q3 >= s.len() {
        return Err(unclosed);
    }
    if s[q3] == '}' {
        return Ok((m, None, q3 + 1));
    }
    let (n, q4) = match decimal_at_pos(s, q3) {
        Err(e) => {
            return Err(e);
        },
        Ok(v) => v,
    };
    let q5 = skip_space_at(s, q4, x);
    if q5 >= s.len() || s[q5] != '}' {
        return Err(unclosed);
    }
    if n < m {
        return Err(Error { kind: ErrorKind::RepetitionCountInvalid, offset: p });
    }
    Ok((m, Some(n), q5 + 1))
}

/// See `syntax::normalize`.
pub fn normalize_chars_of(n: &[char]) -> (out: Vec<char>)
    ensures
        out@ == normalize_chars(n@),
{
    let mut out: Vec<char> = Vec::new();
    let mut i: usize = 0;
    assert(n@.skip(0) =~= n@);
    assert(out@ + normalize_chars(n@.skip(0)) =~= normalize_chars(n@));
    while i < n.len()
        invariant
            0 <= i <= n.len(),
            out@ + normalize_chars(n@.skip(i as int)) == normalize_chars(n@),
        decreases n.len() - i,
    {
        let c = n[i];
        assert(n@.skip(i as int).drop_first() =~= n@.skip(i + 1));
        assert(n@.skip(i as int)[0] == c);
        if c == ' ' || c == '_' || c == '-' || c >= '\u{80}' {
        } else if 'A' <= c && c <= 'Z' {
            let l = ((c as u8) + 32) as char;
            assert(l == ((c as u32) + 32) as char);
            assert(out@.push(l) + normalize_chars(n@.skip(i + 1)) =~= out@ + (seq![l]
                + normalize_chars(n@.skip(i + 1))));
            out.push(l);
        } else {
            assert(out@.push(c) + normalize_chars(n@.skip(i + 1)) =~= out@ + (seq![c]
                + normalize_chars(n@.skip(i + 1))));
            out.push(c);
        }
        i += 1;
    }
    assert(n@.skip(i as int) =~= Seq::<char>::empty());
    assert(out@ =~= normalize_chars(n@));
    out
}

/// See `syntax::normalize`.
pub fn normalize_name(n: &[char]) -> (out: Vec<char>)
    ensures
        out@ == normalize(n@),
{
    if n.len() >= 2 && (n[0] == 'i' || n[0] == 'I') && (n[1] == 's' || n[1] == 'S') {
        let rest = &n[2..n.len()];
        assert(rest@ =~= n@.skip(2));
        let b = normalize_chars_of(rest);
        if b.len() == 1 && b[0] == 'c' {
            assert(b@ =~= seq!['c']);
            let v = vec!['i', 's', 'c'];
            assert(v@ =~= seq!['i', 's', 'c']);
            v
        } else {
            assert(b@ != seq!['c']);
            b
        }
    } else {
        normalize_chars_of(n)
    }
}

/// See `syntax::find_op`.
pub fn find_op_in(n: &[char]) -> (r: usize)
    ensures
        r as int == find_op(n@, 0),
        r <= n.len(),
{
    let mut i: usize = 0;
    while i < n.len()
        invariant
            0 <= i <= n.len(),
            find_op(n@, 0) == find_op(n@, i as int),
        decreases n.len() - i,
    {
        if n[i] == '=' || n[i] == ':' {
            return i;
        }
        i += 1;
    }
    i
}

/// See `syntax::resolve_property`.
pub fn resolve_property_name(n: &[char]) -> (r: Result<(UnicodeProp, bool), ErrorKind>)
    ensures
        r == resolve_property(n@),
{
    reveal(resolve_property);
    let i = find_op_in(n);
    if i >= n.len() {
        let nn = normalize_name(n);
        let gc_first = crate::tables::chars_eq(nn.as_slice(), &['c', 'f']) || crate::tables::chars_eq(
            nn.as_slice(),
            &['s', 'c'],
        ) || crate::tables::chars_eq(nn.as_slice(), &['l', 'c']);
        proof {
            let a: [char; 2] = ['c', 'f'];
            assert(a@ =~= seq!['c', 'f']);
            let b: [char; 2] = ['s', 'c'];
            assert(b@ =~= seq!['s', 'c']);
            let d: [char; 2] = ['l', 'c'];
            assert(d@ =~= seq!['l', 'c']);
        }
        if !gc_first {
            match crate::boolprop::prop_lookup(nn.as_slice()) {
                Some(crate::boolprop::PropName::Bool(b)) => {
                    return Ok((UnicodeProp::Bool(b), false));
                },
                Some(crate::boolprop::PropName::WhiteSpace) => {
                    return Ok((UnicodeProp::WhiteSpace, false));
                },
                Some(_) => {
                    return Err(ErrorKind::UnicodePropertyNotFound);
                },
                None => {},
            }
        }
        return match property_lookup(nn.as_slice()) {
            Some(p) => Ok((p, false)),
            None => if crate::script::is_script_without_table(nn.as_slice()) {
                Err(ErrorKind::UnicodePropertyValueNotFound)
            } else {
                Err(ErrorKind::UnicodePropertyNotFound)
            },
        };
    }
    let neq = n[i] == '=' && i > 0 && n[i - 1] == '!';
    let kend = if neq {
        i - 1
    } else {
        i
    };
    let key = &n[0..kend];
    let value = &n[i + 1..n.len()];
    assert(key@ =~= n@.subrange(0, kend as int));
    assert(value@ =~= n@.subrange(i + 1, n@.len() as int));
    let nk = normalize_name(key);
    if gc_key(nk.as_slice()) {
        let nv = normalize_name(value);
        match gc_lookup(nv.as_slice()) {
            Some(p) => Ok((p, neq)),
            None => Err(ErrorKind::UnicodePropertyValueNotFound),
        }
    } else if crate::script::script_key(nk.as_slice()) {
        let nv = normalize_name(value);
        match crate::script::script_lookup(nv.as_slice()) {
            Some(s) => Ok((UnicodeProp::Script(s), neq)),
            None => Err(ErrorKind::UnicodePropertyValueNotFound),
        }
    } else if crate::scx::scx_key(nk.as_slice()) {
        let nv = normalize_name(value);
        match crate::script::script_lookup(nv.as_slice()) {
            Some(s) => Ok((UnicodeProp::ScriptExtensions(s), neq)),
            None => Err(ErrorKind::UnicodePropertyValueNotFound),
        }
    } else {
        match crate::boolprop::prop_lookup(nk.as_slice()) {
            Some(crate::boolprop::PropName::Valued) => Err(ErrorKind::Unsupported),
            Some(_) => Err(ErrorKind::UnicodePropertyValueNotFound),
            None => Err(ErrorKind::UnicodePropertyNotFound),
        }
    }
}

/// What an escape stands for.
pub enum EscItem {
    Lit(char),
    Ranges(Vec<ClassUnicodeRange>),
}

pub open spec fn esc_view(e: EscItem) -> Esc {
    match e {
        EscItem::Lit(c) => Esc::Lit(c),
        EscItem::Ranges(v) => Esc::Ranges(rview(v@)),
    }
}

/// See `syntax::property_at`.
pub fn property_at_pos(s: &[char], p: usize, negated: bool) -> (r: Result<(EscItem, usize), Error>)
    requires
        p + 1 < s.len(),
    ensures
        match r {
            Ok((e, q)) => property_at(s@, p as int, negated) == Ok::<(Esc, int), Error>(
                (esc_view(e), q as int),
            ) && p < q <= s.len(),
            Err(e) => property_at(s@, p as int, negated) == Err::<(Esc, int), Error>(e),
        },
{
    let q = p + 2;
    if q >= s.len() {
        return Err(Error { kind: ErrorKind::EscapeUnexpectedEof, offset: p });
    }
    let (name, end): (&[char], usize) = if s[q] == '{' {
        let close = find_char_at(s, q + 1, '}');
        if close >= s.len() {
            return Err(Error { kind: ErrorKind::EscapeUnexpectedEof, offset: p });
        }
        let nm = &s[q + 1..close];
        assert(nm@ =~= s@.subrange(q + 1, close as int));
        (nm, close + 1)
    } else {
        let nm = &s[q..q + 1];
        assert(nm@ =~= seq![s@[q as int]]);
        (nm, q + 1)
    };
    match resolve_property_name(name) {
        Err(k) => Err(Error { kind: k, offset: p }),
        Ok((prop, neq)) => {
            let rs = unicode_class(prop);
            if negated != neq {
                Ok((EscItem::Ranges(negate_ranges(&rs)), end))
            } else {
                Ok((EscItem::Ranges(rs), end))
            }
        },
    }
}

/// See `syntax::hex_val`.
fn hex_digit_value(c: char) -> (r: Option<u32>)
    ensures
        match r {
            Some(d) => is_hex(c) && d == hex_val(c) && d < 16,
            None => !is_hex(c),
        },
{
    if '0' <= c && c <= '9' {
        Some(c as u32 - '0' as u32)
    } else if 'a' <= c && c <= 'f' {
        Some(c as u32 - 'a' as u32 + 10)
    } else if 'A' <= c && c <= 'F' {
        Some(c as u32 - 'A' as u32 + 10)
    } else {
        None
    }
}

/// See `syntax::hex_end`.
fn hex_end_at(s: &[char], p: usize) -> (r: usize)
    requires
        p <= s.len(),
    ensures
        r as int == hex_end(s@, p as int),
        p <= r <= s.len(),
        forall|i: int| p <= i < r ==> is_hex(#[trigger] s@[i]),
{
    let mut i = p;
    while i < s.len() && hex_digit_value(s[i]).is_some()
        invariant
            p <= i <= s.len(),
            hex_end(s@, p as int) == hex_end(s@, i as int),
            forall|j: int| p <= j < i ==> is_hex(#[trigger] s@[j]),
        decreases s.len() - i,
    {
        i += 1;
    }
    i
}

proof fn lemma_hex_value_nonneg(ds: Seq<char>)
    requires
        forall|i: int| 0 <= i < ds.len() ==> is_hex(#[trigger] ds[i]),
    ensures
        hex_value(ds) >= 0,
    decreases ds.len(),
{
    if ds.len() > 0 {
        lemma_hex_value_nonneg(ds.drop_last());
        assert(is_hex(ds[ds.len() - 1]));
    }
}

/// See `syntax::hex_char_at`.
fn hex_char_at_pos(s: &[char], p: usize, a: usize, b: usize) -> (r: Result<(EscItem, usize), Error>)
    requires
        a <= b <= s.len(),
        forall|i: int| a <= i < b ==> is_hex(#[trigger] s@[i]),
    ensures
        match r {
            Ok((e, q)) => hex_char_at(s@, p as int, a as int, b as int) == Ok::<(Esc, int), Error>(
                (esc_view(e), q as int),
            ) && q == b,
            Err(e) => hex_char_at(s@, p as int, a as int, b as int) == Err::<(Esc, int), Error>(e),
        },
{
    let cap: u32 = 0x110000;
    let mut v: u32 = 0;
    assert(cap == 0x110000);
    let mut i = a;
    assert(s@.subrange(a as int, a as int) =~= Seq::<char>::empty());
    while i < b
        invariant
            a <= i <= b <= s.len(),
            forall|j: int| a <= j < b ==> is_hex(#[trigger] s@[j]),
            cap == 0x110000,
            v <= cap,
            v < cap ==> v == hex_value(s@.subrange(a as int, i as int)),
            v == cap ==> hex_value(s@.subrange(a as int, i as int)) >= cap,
        decreases b - i,
    {
        let d = match hex_digit_value(s[i]) {
            Some(d) => d,
            None => 0,
        };
        assert(is_hex(s@[i as int]));
        assert(s@.subrange(a as int, i + 1).drop_last() =~= s@.subrange(a as int, i as int));
        proof {
            lemma_hex_value_nonneg(s@.subrange(a as int, i as int));
        }
        if v < cap {
            let nv = v * 16 + d;
            if nv >= cap {
                v = cap;
            } else {
                v = nv;
            }
        }
        i += 1;
    }
    if v < 0xD800 || (0xDFFF < v && v < cap) {
        let c = crate::class::scalar_char(v);
        Ok((EscItem::Lit(c), b))
    } else {
        Err(Error { kind: ErrorKind::EscapeHexInvalid, offset: p })
    }
}

/// See `syntax::hex_at`.
fn hex_at_pos(s: &[char], p: usize, n: usize) -> (r: Result<(EscItem, usize), Error>)
    requires
        p + 1 < s.len(),
        n <= 8,
    ensures
        match r {
            Ok((e, q)) => hex_at(s@, p as int, n as int) == Ok::<(Esc, int), Error>(
                (esc_view(e), q as int),
            ) && p < q <= s.len(),
            Err(e) => hex_at(s@, p as int, n as int) == Err::<(Esc, int), Error>(e),
        },
{
    let q = p + 2;
    if q >= s.len() {
        return Err(Error { kind: ErrorKind::EscapeUnexpectedEof, offset: p });
    }
    if s[q] == '{' {
        let e = hex_end_at(s, q + 1);
        if e >= s.len() {
            Err(Error { kind: ErrorKind::EscapeUnexpectedEof, offset: p })
        } else if s[e] != '}' {
            Err(Error { kind: ErrorKind::EscapeHexInvalidDigit, offset: e })
        } else if e == q + 1 {
            Err(Error { kind: ErrorKind::EscapeHexEmpty, offset: p })
        } else {
            match hex_char_at_pos(s, p, q + 1, e) {
                Ok((c, _)) => Ok((c, e + 1)),
                Err(x) => Err(x),
            }
        }
    } else {
        let e = hex_end_at(s, q);
        if e - q >= n {
            hex_char_at_pos(s, p, q, q + n)
        } else if e >= s.len() {
            Err(Error { kind: ErrorKind::EscapeUnexpectedEof, offset: p })
        } else {
            Err(Error { kind: ErrorKind::EscapeHexInvalidDigit, offset: e })
        }
    }
}

/// See `syntax::look_escape`.
pub fn look_escape_char(c: char) -> (r: Option<Look>)
    ensures
        r == look_escape(c),
{
    if c == 'A' {
        Some(Look::Start)
    } else if c == 'z' {
        Some(Look::End)
    } else if c == 'b' {
        Some(Look::WordUnicode)
    } else if c == 'B' {
        Some(Look::WordUnicodeNegate)
    } else if c == '<' {
        Some(Look::WordStartUnicode)
    } else if c == '>' {
        Some(Look::WordEndUnicode)
    } else {
        None
    }
}

pub fn is_unsupported_escape_char(c: char) -> (r: bool)
    ensures
        r == is_unsupported_escape(c),
{
    is_digit_char(c)
}

/// See `syntax::escape_at`.
pub fn escape_at_pos(s: &[char], p: usize) -> (r: Result<(EscItem, usize), Error>)
    requires
        p < s.len(),
    ensures
        match r {
            Ok((e, q)) => escape_at(s@, p as int) == Ok::<(Esc, int), Error>(
                (esc_view(e), q as int),
            ) && p < q <= s.len(),
            Err(e) => escape_at(s@, p as int) == Err::<(Esc, int), Error>(e),
        },
{
    if p + 1 >= s.len() {
        return Err(Error { kind: ErrorKind::EscapeUnexpectedEof, offset: p });
    }
    let c = s[p + 1];
    proof {
        reveal(letter_escape);
    }
    if is_escapable_char(c) {
        Ok((EscItem::Lit(c), p + 2))
    } else if c == 't' {
        Ok((EscItem::Lit('\t'), p + 2))
    } else if c == 'n' {
        Ok((EscItem::Lit('\n'), p + 2))
    } else if c == 'r' {
        Ok((EscItem::Lit('\r'), p + 2))
    } else if c == 'f' {
        Ok((EscItem::Lit('\x0C'), p + 2))
    } else if c == 'v' {
        Ok((EscItem::Lit('\x0B'), p + 2))
    } else if c == 'a' {
        Ok((EscItem::Lit('\x07'), p + 2))
    } else if c == 'p' || c == 'P' {
        property_at_pos(s, p, c == 'P')
    } else if c == 's' || c == 'S' {
        let ws = unicode_class(UnicodeProp::WhiteSpace);
        if c == 'S' {
            Ok((EscItem::Ranges(negate_ranges(&ws)), p + 2))
        } else {
            Ok((EscItem::Ranges(ws), p + 2))
        }
    } else if c == 'd' || c == 'D' {
        let nd = unicode_class(UnicodeProp::DecimalNumber);
        if c == 'D' {
            Ok((EscItem::Ranges(negate_ranges(&nd)), p + 2))
        } else {
            Ok((EscItem::Ranges(nd), p + 2))
        }
    } else if c == 'w' || c == 'W' {
        let wd = crate::word::word_class();
        if c == 'W' {
            Ok((EscItem::Ranges(negate_ranges(&wd)), p + 2))
        } else {
            Ok((EscItem::Ranges(wd), p + 2))
        }
    } else if c == 'x' {
        hex_at_pos(s, p, 2)
    } else if c == 'u' {
        hex_at_pos(s, p, 4)
    } else if c == 'U' {
        hex_at_pos(s, p, 8)
    } else if look_escape_char(c).is_some() {
        Err(Error { kind: ErrorKind::ClassEscapeInvalid, offset: p })
    } else if is_unsupported_escape_char(c) {
        Err(Error { kind: ErrorKind::Unsupported, offset: p })
    } else {
        Err(Error { kind: ErrorKind::EscapeUnrecognized, offset: p })
    }
}

/// See `syntax::posix_at`.
pub fn posix_at_pos(s: &[char], p: usize) -> (r: Option<(Vec<ClassUnicodeRange>, usize)>)
    requires
        p < s.len(),
    ensures
        match r {
            Some((v, q)) => posix_at(s@, p as int) == Some::<(Seq<SRange>, int)>(
                (rview(v@), q as int),
            ) && p < q <= s.len(),
            None => posix_at(s@, p as int) is None,
        },
{
    if p + 1 < s.len() && s[p + 1] == ':' {
        let r = p + 2;
        let neg = r < s.len() && s[r] == '^';
        let r2 = if neg {
            r + 1
        } else {
            r
        };
        let e = find_char_at(s, r2, ':');
        if e < s.len() - 1 && s[e + 1] == ']' {
            let nm = &s[r2..e];
            assert(nm@ =~= s@.subrange(r2 as int, e as int));
            match posix_lookup(nm) {
                Some(k) => {
                    let rs = posix_class(k);
                    if neg {
                        Some((negate_ranges(&rs), e + 2))
                    } else {
                        Some((rs, e + 2))
                    }
                },
                None => None,
            }
        } else {
            None
        }
    } else {
        None
    }
}

/// See `syntax::is_word_name_char`.
pub fn is_word_name_char_exec(c: char) -> (r: bool)
    ensures
        r == is_word_name_char(c),
{
    ('a' <= c && c <= 'z') || ('A' <= c && c <= 'Z') || c == '-'
}

/// See `syntax::word_name`.
pub fn word_name_at(s: &[char], r: usize, x: bool) -> (out: (Vec<char>, usize))
    requires
        r <= s.len(),
    ensures
        (out.0@, out.1 as int) == word_name(s@, r as int, x),
        r <= out.1 <= s.len(),
{
    let mut w: Vec<char> = Vec::new();
    let mut i = r;
    loop
        invariant
            r <= i <= s.len(),
            word_name(s@, r as int, x) == (w@ + word_name(s@, i as int, x).0, word_name(
                s@,
                i as int,
                x,
            ).1),
        decreases s.len() - i,
    {
        if i >= s.len() || !is_word_name_char_exec(s[i]) {
            assert(w@ + Seq::<char>::empty() =~= w@);
            return (w, i);
        }
        let n = skip_space_at(s, i + 1, x);
        let ghost rest = word_name(s@, n as int, x);
        assert(w@ + (seq![s@[i as int]] + rest.0) =~= w@.push(s@[i as int]) + rest.0);
        w.push(s[i]);
        i = n;
    }
}

/// See `syntax::special_word`.
pub fn special_word_look(w: &Vec<char>) -> (r: Option<Look>)
    ensures
        r == special_word(w@),
{
    let n = w.len();
    if n == 5 && w[0] == 's' && w[1] == 't' && w[2] == 'a' && w[3] == 'r' && w[4] == 't' {
        assert(w@ =~= seq!['s', 't', 'a', 'r', 't']);
        Some(Look::WordStartUnicode)
    } else if n == 3 && w[0] == 'e' && w[1] == 'n' && w[2] == 'd' {
        assert(w@ =~= seq!['e', 'n', 'd']);
        Some(Look::WordEndUnicode)
    } else if n == 10 && w[0] == 's' && w[1] == 't' && w[2] == 'a' && w[3] == 'r' && w[4] == 't'
        && w[5] == '-' && w[6] == 'h' && w[7] == 'a' && w[8] == 'l' && w[9] == 'f' {
        assert(w@ =~= seq!['s', 't', 'a', 'r', 't', '-', 'h', 'a', 'l', 'f']);
        Some(Look::WordStartHalfUnicode)
    } else if n == 8 && w[0] == 'e' && w[1] == 'n' && w[2] == 'd' && w[3] == '-' && w[4] == 'h'
        && w[5] == 'a' && w[6] == 'l' && w[7] == 'f' {
        assert(w@ =~= seq!['e', 'n', 'd', '-', 'h', 'a', 'l', 'f']);
        Some(Look::WordEndHalfUnicode)
    } else {
        None
    }
}

/// See `syntax::look_at`.
pub fn look_at_pos(s: &[char], p: usize, x: bool) -> (r: Result<(Look, usize), Error>)
    requires
        p + 1 < s.len(),
        look_escape(s@[p + 1]) is Some,
    ensures
        match r {
            Ok((l, q)) => look_at(s@, p as int, x) == Ok::<(Look, int), Error>((l, q as int)) && p
                < q <= s.len(),
            Err(e) => look_at(s@, p as int, x) == Err::<(Look, int), Error>(e),
        },
{
    let q = p + 2;
    if s[p + 1] == 'b' && q < s.len() && s[q] == '{' {
        let r0 = skip_space_at(s, q + 1, x);
        if r0 >= s.len() {
            return Err(Error { kind: ErrorKind::SpecialWordOrRepetitionUnexpectedEof, offset: p });
        }
        if !is_word_name_char_exec(s[r0]) {
            return Ok((Look::WordUnicode, q));
        }
        let (w, e) = word_name_at(s, r0, x);
        if e >= s.len() || s[e] != '}' {
            return Err(Error { kind: ErrorKind::SpecialWordBoundaryUnclosed, offset: q });
        }
        match special_word_look(&w) {
            Some(l) => Ok((l, e + 1)),
            None => Err(Error { kind: ErrorKind::SpecialWordBoundaryUnrecognized, offset: r0 }),
        }
    } else {
        match look_escape_char(s[p + 1]) {
            Some(l) => Ok((l, q)),
            None => Err(Error { kind: ErrorKind::EscapeUnrecognized, offset: p }),
        }
    }
}

/// `char::is_alphabetic`: whether `c` has the Unicode property `Alphabetic`.
#[verifier::external_body]
fn char_is_alphabetic(c: char) -> (r: bool)
    ensures
        r == alphabetic(c),
{
    c.is_alphabetic()
}

/// `char::is_alphanumeric`: whether `c` is alphabetic or numeric.
#[verifier::external_body]
fn char_is_alphanumeric(c: char) -> (r: bool)
    ensures
        r == alphanumeric(c),
{
    c.is_alphanumeric()
}

/// See `syntax::is_name_char`.
pub fn is_name_char_exec(c: char, first: bool) -> (r: bool)
    ensures
        r == is_name_char(c, first),
{
    if first {
        c == '_' || char_is_alphabetic(c)
    } else {
        c == '_' || c == '.' || c == '[' || c == ']' || char_is_alphanumeric(c)
    }
}

/// The models of a list of names.
pub open spec fn names_view(v: Seq<Vec<char>>) -> Seq<Seq<char>> {
    v.map_values(|n: Vec<char>| n@)
}

/// Whether a list of names holds a name.
fn has_name(names: &Vec<Vec<char>>, n: &Vec<char>) -> (r: bool)
    ensures
        r == names_view(names@).contains(n@),
{
    let mut i: usize = 0;
    while i < names.len()
        invariant
            i <= names.len(),
            forall|j: int| 0 <= j < i ==> names_view(names@)[j] != n@,
        decreases names.len() - i,
    {
        if crate::tables::chars_eq(names[i].as_slice(), n.as_slice()) {
            assert(names_view(names@)[i as int] == n@);
            return true;
        }
        i += 1;
    }
    false
}

/// See `syntax::name_at`.
pub fn name_at_pos(s: &[char], q: usize, names: &Vec<Vec<char>>) -> (r: Result<(Vec<char>, usize), Error>)
    requires
        q <= s.len(),
    ensures
        match r {
            Ok((n, t)) => name_at(s@, q as int, names_view(names@)) == Ok::<(Seq<char>, int), Error>(
                (n@, t as int),
            ) && q < t <= s.len(),
            Err(e) => name_at(s@, q as int, names_view(names@)) == Err::<(Seq<char>, int), Error>(e),
        },
{
    let mut e = q;
    while e < s.len() && s[e] != '>' && is_name_char_exec(s[e], e == q)
        invariant
            q <= e <= s.len(),
            name_end(s@, q as int, e as int) == name_end(s@, q as int, q as int),
        decreases s.len() - e,
    {
        e += 1;
    }
    if e >= s.len() {
        return Err(Error { kind: ErrorKind::GroupNameUnexpectedEof, offset: e });
    }
    if s[e] != '>' {
        return Err(Error { kind: ErrorKind::GroupNameInvalid, offset: e });
    }
    if e == q {
        return Err(Error { kind: ErrorKind::GroupNameEmpty, offset: q });
    }
    let mut n: Vec<char> = Vec::new();
    let mut i = q;
    while i < e
        invariant
            q <= i <= e < s.len(),
            n@ =~= s@.subrange(q as int, i as int),
        decreases e - i,
    {
        n.push(s[i]);
        i += 1;
    }
    if has_name(names, &n) {
        Err(Error { kind: ErrorKind::GroupNameDuplicate, offset: q })
    } else {
        Ok((n, e + 1))
    }
}

/// Whether `c` occurs in `s` between `a` and `b`.
pub fn occurs_between(s: &[char], a: usize, b: usize, c: char) -> (r: bool)
    requires
        a <= b <= s.len(),
    ensures
        r == s@.subrange(a as int, b as int).contains(c),
{
    let mut j = a;
    while j < b
        invariant
            a <= j <= b <= s.len(),
            forall|k: int| a <= k < j ==> s@[k] != c,
        decreases b - j,
    {
        if s[j] == c {
            assert(s@.subrange(a as int, b as int)[j - a] == c);
            return true;
        }
        j += 1;
    }
    assert forall|i: int| 0 <= i < b - a implies s@.subrange(a as int, b as int)[i] != c by {
        assert(s@.subrange(a as int, b as int)[i] == s@[a + i]);
    }
    false
}

} // verus!
