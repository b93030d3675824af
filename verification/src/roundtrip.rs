//! The printer's patterns parse again: running the parser over the pattern
//! of an expression rebuilds an expression of the same shape.
use vstd::prelude::*;
use crate::ranges::{SRange, all_ok, range_ok, canonical, insert, insert_all, intersect};
use crate::hir::{SHir, Look, Flags, Error, default_flags};
use crate::syntax::{SState, SFrame, run, step, skip_space, is_meta, is_digit, digits_end, digits_value, decimal_at, count_at, class_open, class_loop, class_item_at, escape_at, combine, Esc, push_piece, open_group, close_group, flags_at, set_flag, repeat, concat_hir, alt_hir, literal_hir, spec_parse, initial_state};
use crate::print::{lit_chars, range_chars, ranges_chars, class_chars, empty_class_chars, decimal_chars, digit_char, op_chars, look_chars, group_open_chars, print_hir, print_seq, print_alts};

verus! {

/// The expressions that the printer writes as patterns that parse: classes
/// with valid ranges, and repetitions whose maximum is not below their minimum.
pub open spec fn printable(h: SHir) -> bool
    decreases h,
{
    match h {
        SHir::Class(rs) => all_ok(rs),
        SHir::Repetition { min, max, greedy, sub } => (max matches Some(n) ==> min <= n)
            && printable(*sub),
        SHir::Capture { index, sub } => printable(*sub),
        SHir::Concat(hs) => printable_all(hs),
        SHir::Alternation(hs) => printable_all(hs),
        _ => true,
    }
}

pub open spec fn printable_all(hs: Seq<SHir>) -> bool
    decreases hs,
{
    hs.len() == 0 || (printable_all(hs.subrange(0, hs.len() - 1)) && printable(hs[hs.len() - 1]))
}

/// The class that the parser builds from the printed ranges of a class.
pub open spec fn reparse_class(rs: Seq<SRange>) -> Seq<SRange> {
    if rs.len() == 0 {
        intersect(seq![(0x61int, 0x61int)], seq![(0x62int, 0x62int)])
    } else {
        insert_all(Seq::empty(), rs)
    }
}

/// The expression that the parser builds from the pattern of `h`, with the
/// next capture index before and after.
pub open spec fn reparse(h: SHir, caps: int) -> (SHir, int)
    decreases h,
{
    match h {
        SHir::Class(rs) => (SHir::Class(reparse_class(rs)), caps),
        SHir::Repetition { min, max, greedy, sub } => {
            let (s2, c2) = reparse(*sub, caps);
            (SHir::Repetition { min, max, greedy, sub: Box::new(s2) }, c2)
        },
        SHir::Capture { index, sub } => {
            let (s2, c2) = reparse(*sub, caps + 1);
            (SHir::Capture { index: caps, sub: Box::new(s2) }, c2)
        },
        SHir::Concat(hs) => {
            let (ns, c2) = reparse_seq(hs, caps);
            (concat_hir(ns), c2)
        },
        SHir::Alternation(hs) => if hs.len() == 0 {
            (SHir::Empty, caps)
        } else {
            let (ns, c2) = reparse_seq(hs, caps);
            (alt_hir(ns.drop_last(), seq![ns.last()]), c2)
        },
        _ => (h, caps),
    }
}

pub open spec fn reparse_seq(hs: Seq<SHir>, caps: int) -> (Seq<SHir>, int)
    decreases hs,
{
    if hs.len() == 0 {
        (Seq::empty(), caps)
    } else {
        let (ns, c1) = reparse_seq(hs.subrange(0, hs.len() - 1), caps);
        let (n, c2) = reparse(hs[hs.len() - 1], c1);
        (ns.push(n), c2)
    }
}

// ---------------------------------------------------------------------------
// Helpers on sequences
// ---------------------------------------------------------------------------

/// `s` holds `w` from position `p` on.
pub open spec fn holds_at(s: Seq<char>, p: int, w: Seq<char>) -> bool {
    0 <= p && p + w.len() <= s.len() && s.subrange(p, p + w.len()) == w
}

pub proof fn lemma_holds_index(s: Seq<char>, p: int, w: Seq<char>, i: int)
    requires
        holds_at(s, p, w),
        0 <= i < w.len(),
    ensures
        s[p + i] == w[i],
{
    assert(s.subrange(p, p + w.len())[i] == s[p + i]);
}

pub proof fn lemma_holds_split(s: Seq<char>, p: int, a: Seq<char>, b: Seq<char>)
    requires
        holds_at(s, p, a + b),
    ensures
        holds_at(s, p, a),
        holds_at(s, p + a.len(), b),
{
    assert(s.subrange(p, p + a.len()) =~= (a + b).subrange(0, a.len() as int));
    assert((a + b).subrange(0, a.len() as int) =~= a);
    assert(s.subrange(p + a.len(), p + a.len() + b.len()) =~= (a + b).subrange(
        a.len() as int,
        (a + b).len() as int,
    ));
    assert((a + b).subrange(a.len() as int, (a + b).len() as int) =~= b);
}

pub proof fn lemma_holds_split3(s: Seq<char>, p: int, a: Seq<char>, b: Seq<char>, c: Seq<char>)
    requires
        holds_at(s, p, a + b + c),
    ensures
        holds_at(s, p, a),
        holds_at(s, p + a.len(), b),
        holds_at(s, p + a.len() + b.len(), c),
{
    lemma_holds_split(s, p, a + b, c);
    lemma_holds_split(s, p, a, b);
}

/// The first character of a printed literal is a `\` or a character that is
/// not special anywhere.
pub proof fn lemma_lit_first(c: char)
    ensures
        lit_chars(c).len() >= 1,
        lit_chars(c)[0] == '\\' || !is_meta(lit_chars(c)[0]),
        lit_chars(c)[0] != '?',
{
}

// ---------------------------------------------------------------------------
// Numbers
// ---------------------------------------------------------------------------

pub proof fn lemma_decimal_chars(n: nat)
    ensures
        decimal_chars(n).len() >= 1,
        forall|i: int| 0 <= i < decimal_chars(n).len() ==> is_digit(#[trigger] decimal_chars(n)[i]),
        digits_value(decimal_chars(n)) == n,
    decreases n,
{
    if n < 10 {
        let d = decimal_chars(n);
        assert(d.drop_last() =~= Seq::<char>::empty());
        assert(digits_value(Seq::<char>::empty()) == 0);
        assert(d.last() == digit_char(n as int));
        assert(digit_char(n as int) as int == 48 + n);
    } else {
        lemma_decimal_chars(n / 10);
        let d = decimal_chars(n);
        assert(d.drop_last() =~= decimal_chars(n / 10));
        assert(d.last() == digit_char((n % 10) as int));
        assert(digit_char((n % 10) as int) as int == 48 + n % 10);
    }
}

pub proof fn lemma_digits_end(s: Seq<char>, q: int, e: int, i: int)
    requires
        0 <= q <= i <= e <= s.len(),
        forall|j: int| q <= j < e ==> is_digit(#[trigger] s[j]),
        e < s.len() ==> !is_digit(s[e]),
    ensures
        digits_end(s, i) == e,
    decreases e - i,
{
    if i < e {
        lemma_digits_end(s, q, e, i + 1);
    }
}

/// A printed number reads back as itself.
pub proof fn lemma_decimal_at(s: Seq<char>, q: int, n: u32)
    requires
        holds_at(s, q, decimal_chars(n as nat)),
        q + decimal_chars(n as nat).len() < s.len() ==> !is_digit(
            s[q + decimal_chars(n as nat).len()],
        ),
    ensures
        decimal_at(s, q) == Ok::<(u32, int), Error>((n, q + decimal_chars(n as nat).len())),
{
    let d = decimal_chars(n as nat);
    lemma_decimal_chars(n as nat);
    let e = q + d.len();
    assert forall|j: int| q <= j < e implies is_digit(#[trigger] s[j]) by {
        lemma_holds_index(s, q, d, j - q);
    }
    lemma_digits_end(s, q, e, q);
}

/// The count of a printed repetition operator reads back.
pub proof fn lemma_count_at(s: Seq<char>, p: int, min: u32, max: Option<u32>)
    requires
        holds_at(s, p, op_chars(min, max)),
        op_chars(min, max)[0] == '{',
        max matches Some(n) ==> min <= n,
    ensures
        count_at(s, p, false) == Ok::<(u32, Option<u32>, int), Error>(
            (min, max, p + op_chars(min, max).len()),
        ),
{
    let dm = decimal_chars(min as nat);
    lemma_decimal_chars(min as nat);
    match max {
        None => {
            lemma_holds_split3(s, p, seq!['{'], dm, seq![',', '}']);
            lemma_holds_index(s, p + 1 + dm.len(), seq![',', '}'], 0);
            lemma_holds_index(s, p + 1 + dm.len(), seq![',', '}'], 1);
            lemma_decimal_at(s, p + 1, min);
        },
        Some(n) => {
            if min == n {
                lemma_holds_split3(s, p, seq!['{'], dm, seq!['}']);
                lemma_holds_index(s, p + 1 + dm.len(), seq!['}'], 0);
                lemma_decimal_at(s, p + 1, min);
            } else {
                let dn = decimal_chars(n as nat);
                lemma_decimal_chars(n as nat);
                lemma_holds_split3(s, p, seq!['{'] + dm + seq![','], dn, seq!['}']);
                lemma_holds_split3(s, p, seq!['{'], dm, seq![',']);
                lemma_holds_index(s, p + 1 + dm.len(), seq![','], 0);
                lemma_holds_index(s, p + 2 + dm.len() + dn.len(), seq!['}'], 0);
                lemma_decimal_at(s, p + 1, min);
                lemma_decimal_at(s, p + 2 + dm.len(), n);
            }
        },
    }
}

// ---------------------------------------------------------------------------
// Classes
// ---------------------------------------------------------------------------

/// A printed literal reads back as itself inside a class.
pub proof fn lemma_class_item_lit(s: Seq<char>, q: int, c: char)
    requires
        holds_at(s, q, lit_chars(c)),
    ensures
        class_item_at(s, q) == Ok::<(Esc, int), Error>((Esc::Lit(c), q + lit_chars(c).len())),
{
    lemma_holds_index(s, q, lit_chars(c), 0);
    if is_meta(c) {
        lemma_holds_index(s, q, lit_chars(c), 1);
    }
}

/// One printed range reads back into the current union.
pub proof fn lemma_class_one_range(
    s: Seq<char>,
    q: int,
    open: int,
    r: SRange,
    cur: Seq<SRange>,
    first: bool,
)
    requires
        holds_at(s, q, range_chars(r)),
        q + range_chars(r).len() < s.len(),
        s[q + range_chars(r).len()] != '-',
        range_ok(r),
        0 <= open < q,
    ensures
        class_loop(s, q, default_flags(), open, false, None, cur, first) == class_loop(
            s,
            q + range_chars(r).len(),
            default_flags(),
            open,
            false,
            None,
            insert(cur, r),
            false,
        ),
{
    let f = default_flags();
    let lo = r.0 as char;
    let hi = r.1 as char;
    assert(lo as int == r.0 && hi as int == r.1);
    let lc = lit_chars(lo);
    let rc = range_chars(r);
    lemma_lit_first(lo);
    lemma_lit_first(hi);
    lemma_holds_index(s, q, rc, 0);
    let q2 = q + lc.len();
    assert(skip_space(s, q, false) == q);
    assert(skip_space(s, q2, false) == q2);
    if r.0 == r.1 {
        lemma_class_item_lit(s, q, lo);
        assert((lo as int, lo as int) == r);
    } else {
        lemma_holds_split3(s, q, lc, seq!['-'], lit_chars(hi));
        lemma_holds_index(s, q2, seq!['-'], 0);
        lemma_holds_index(s, q2 + 1, lit_chars(hi), 0);
        lemma_class_item_lit(s, q, lo);
        lemma_class_item_lit(s, q2 + 1, hi);
        assert(skip_space(s, q2 + 1, false) == q2 + 1);
        assert((lo as int, hi as int) == r);
    }
}

/// The printed ranges of a class read back one by one.
pub proof fn lemma_class_ranges(
    s: Seq<char>,
    q: int,
    open: int,
    rs: Seq<SRange>,
    cur: Seq<SRange>,
    first: bool,
)
    requires
        holds_at(s, q, ranges_chars(rs)),
        q + ranges_chars(rs).len() < s.len(),
        s[q + ranges_chars(rs).len()] == ']',
        all_ok(rs),
        0 <= open < q,
    ensures
        class_loop(s, q, default_flags(), open, false, None, cur, first) == class_loop(
            s,
            q + ranges_chars(rs).len(),
            default_flags(),
            open,
            false,
            None,
            insert_all(cur, rs),
            first && rs.len() == 0,
        ),
    decreases rs.len(),
{
    if rs.len() > 0 {
        let r = rs[0];
        let rest = rs.drop_first();
        let rc = range_chars(r);
        let rr = ranges_chars(rest);
        assert(ranges_chars(rs) == rc + rr);
        lemma_holds_split(s, q, rc, rr);
        let qe = q + rc.len();
        if rest.len() > 0 {
            let r1 = rest[0];
            assert(rr == range_chars(r1) + ranges_chars(rest.drop_first()));
            lemma_holds_split(s, qe, range_chars(r1), ranges_chars(rest.drop_first()));
            lemma_holds_index(s, qe, range_chars(r1), 0);
            lemma_lit_first(r1.0 as char);
        }
        lemma_class_one_range(s, q, open, r, cur, first);
        lemma_class_ranges(s, qe, open, rest, insert(cur, r), false);
    }
}

/// A printed class reads back.
pub proof fn lemma_class_open(s: Seq<char>, p: int, rs: Seq<SRange>)
    requires
        holds_at(s, p, class_chars(rs)),
        all_ok(rs),
    ensures
        class_open(s, p, default_flags()) == Ok::<(Seq<SRange>, int), Error>(
            (reparse_class(rs), p + class_chars(rs).len()),
        ),
{
    let f = default_flags();
    let e = Seq::<SRange>::empty();
    if rs.len() == 0 {
        let w = empty_class_chars();
        assert forall|i: int| 0 <= i < 6 implies s[p + i] == w[i] by {
            lemma_holds_index(s, p, w, i);
        }
        assert(skip_space(s, p + 1, false) == p + 1);
        let a = seq![(0x61int, 0x61int)];
        let b = seq![(0x62int, 0x62int)];
        assert(insert(e, (0x61int, 0x61int)) == a);
        assert(insert(e, (0x62int, 0x62int)) == b);
        assert(class_item_at(s, p + 1) == Ok::<(Esc, int), Error>((Esc::Lit('a'), p + 2)));
        assert(class_item_at(s, p + 4) == Ok::<(Esc, int), Error>((Esc::Lit('b'), p + 5)));
        assert(class_loop(s, p + 5, f, p, false, Some((crate::syntax::ClassOp::Intersection, a)), b, false)
            == Ok::<(Seq<SRange>, int), Error>((intersect(a, b), p + 6)));
        assert(class_loop(s, p + 4, f, p, false, Some((crate::syntax::ClassOp::Intersection, a)), e, false)
            == Ok::<(Seq<SRange>, int), Error>((intersect(a, b), p + 6)));
        assert(combine(None, a) == a);
        assert(class_loop(s, p + 2, f, p, false, None, a, false) == Ok::<(Seq<SRange>, int), Error>(
            (intersect(a, b), p + 6),
        ));
        assert(class_loop(s, p + 1, f, p, false, None, e, true) == Ok::<(Seq<SRange>, int), Error>(
            (intersect(a, b), p + 6),
        ));
    } else {
        let rr = ranges_chars(rs);
        lemma_holds_split3(s, p, seq!['['], rr, seq![']']);
        lemma_holds_index(s, p + 1 + rr.len(), seq![']'], 0);
        assert(rr == range_chars(rs[0]) + ranges_chars(rs.drop_first()));
        lemma_holds_split(s, p + 1, range_chars(rs[0]), ranges_chars(rs.drop_first()));
        lemma_holds_index(s, p + 1, range_chars(rs[0]), 0);
        lemma_lit_first(rs[0].0 as char);
        assert(skip_space(s, p + 1, false) == p + 1);
        lemma_class_ranges(s, p + 1, p, rs, e, true);
        assert(skip_space(s, p + 1 + rr.len(), false) == p + 1 + rr.len());
        assert(combine(None, insert_all(e, rs)) == insert_all(e, rs));
    }
}

// ---------------------------------------------------------------------------
// Runs
// ---------------------------------------------------------------------------

/// One successful step moves the run forward.
pub proof fn lemma_run_step(s: Seq<char>, st: SState, st2: SState)
    requires
        0 <= st.pos < s.len(),
        !st.flags.ignore_whitespace,
        step(s, st) == Ok::<SState, Error>(st2),
        st.pos < st2.pos <= s.len(),
    ensures
        run(s, st) == run(s, st2),
{
    assert(skip_space(s, st.pos, false) == st.pos);
    assert(SState { pos: st.pos, ..st } == st);
}

pub proof fn lemma_alt_single(x: SHir)
    ensures
        alt_hir(Seq::empty(), seq![x]) == x,
        concat_hir(seq![x]) == x,
{
    assert(Seq::<SHir>::empty().push(concat_hir(seq![x])) =~= seq![x]);
}

/// The state after the pattern of `h` has been read from `st`.
pub open spec fn after_unit(st: SState, h: SHir) -> SState {
    SState {
        pos: st.pos + print_hir(h).len(),
        concat: st.concat.push(reparse(h, st.caps).0),
        after_directive: false,
        caps: reparse(h, st.caps).1,
        ..st
    }
}

/// The state after the patterns of `hs` have been read from `st`.
pub open spec fn after_seq(st: SState, hs: Seq<SHir>) -> SState {
    SState {
        pos: st.pos + print_seq(hs).len(),
        concat: st.concat + reparse_seq(hs, st.caps).0,
        caps: reparse_seq(hs, st.caps).1,
        ..st
    }
}

/// The state after the patterns of `hs`, separated by `|`, have been read
/// from `st`.
pub open spec fn after_alts(st: SState, hs: Seq<SHir>) -> SState {
    let ns = reparse_seq(hs, st.caps).0;
    SState {
        pos: st.pos + print_alts(hs).len(),
        concat: seq![ns.last()],
        alts: st.alts + ns.drop_last(),
        after_directive: false,
        caps: reparse_seq(hs, st.caps).1,
        ..st
    }
}

/// The frame that a group opened at `st.pos` pushes.
pub open spec fn frame_of(st: SState, capture: Option<int>) -> SFrame {
    SFrame { open: st.pos, capture, saved: st.flags, concat: st.concat, alts: st.alts }
}

/// The state right after `(?:`.
pub open spec fn opened(st: SState) -> SState {
    SState {
        pos: st.pos + 3,
        concat: Seq::empty(),
        after_directive: false,
        alts: Seq::empty(),
        stack: st.stack.push(frame_of(st, None)),
        ..st
    }
}

/// The state right after `(` of a capturing group.
pub open spec fn opened_capture(st: SState) -> SState {
    SState {
        pos: st.pos + 1,
        concat: Seq::empty(),
        after_directive: false,
        alts: Seq::empty(),
        stack: st.stack.push(frame_of(st, Some(st.caps))),
        caps: st.caps + 1,
        ..st
    }
}

/// The state after the `)` that closes the group of `st`.
pub open spec fn closed(st: SState) -> SState {
    let fr = st.stack.last();
    let body = alt_hir(st.alts, st.concat);
    let node = match fr.capture {
        Some(i) => SHir::Capture { index: i, sub: Box::new(body) },
        None => body,
    };
    SState {
        pos: st.pos + 1,
        flags: fr.saved,
        concat: fr.concat.push(node),
        after_directive: false,
        alts: fr.alts,
        stack: st.stack.drop_last(),
        caps: st.caps,
        names: st.names,
    }
}

pub proof fn lemma_open(s: Seq<char>, st: SState)
    requires
        holds_at(s, st.pos, group_open_chars()),
        st.pos + 3 < s.len(),
        st.flags == default_flags(),
    ensures
        run(s, st) == run(s, opened(st)),
{
    let w = group_open_chars();
    lemma_holds_index(s, st.pos, w, 0);
    lemma_holds_index(s, st.pos, w, 1);
    lemma_holds_index(s, st.pos, w, 2);
    assert(flags_at(s, st.pos + 2, st.flags, false, false, 0) == Ok::<(Flags, int, bool), Error>(
        (st.flags, st.pos + 2, false),
    ));
    assert(step(s, st) == Ok::<SState, Error>(opened(st)));
    lemma_run_step(s, st, opened(st));
}

pub proof fn lemma_open_capture(s: Seq<char>, st: SState)
    requires
        0 <= st.pos,
        st.pos + 1 < s.len(),
        s[st.pos] == '(',
        s[st.pos + 1] != '?',
        st.flags == default_flags(),
    ensures
        run(s, st) == run(s, opened_capture(st)),
{
    assert(step(s, st) == Ok::<SState, Error>(opened_capture(st)));
    lemma_run_step(s, st, opened_capture(st));
}

pub proof fn lemma_close(s: Seq<char>, st: SState)
    requires
        0 <= st.pos < s.len(),
        s[st.pos] == ')',
        st.stack.len() > 0,
        !st.flags.ignore_whitespace,
    ensures
        run(s, st) == run(s, closed(st)),
{
    assert(step(s, st) == Ok::<SState, Error>(closed(st)));
    lemma_run_step(s, st, closed(st));
}

/// The pattern of any expression is not empty and does not start with `?`.
pub proof fn lemma_print_first(h: SHir)
    ensures
        print_hir(h).len() >= 1,
        print_hir(h)[0] != '?',
    decreases h,
{
    match h {
        SHir::Literal(c) => lemma_lit_first(c),
        SHir::Class(rs) => {
            if rs.len() > 0 {
                assert(class_chars(rs)[0] == '[');
            }
        },
        SHir::Repetition { min, max, greedy, sub } => {
            lemma_print_first(*sub);
        },
        _ => {},
    }
}

pub proof fn lemma_print_seq_last(hs: Seq<SHir>)
    requires
        hs.len() > 0,
    ensures
        print_seq(hs) == print_seq(hs.subrange(0, hs.len() - 1)) + print_hir(hs[hs.len() - 1]),
        hs.len() > 1 ==> print_alts(hs) == print_alts(hs.subrange(0, hs.len() - 1)) + seq!['|']
            + print_hir(hs[hs.len() - 1]),
        hs.len() == 1 ==> print_alts(hs) == print_hir(hs[0]),
        printable_all(hs) ==> printable_all(hs.subrange(0, hs.len() - 1)) && printable(
            hs[hs.len() - 1],
        ),
{
}

pub proof fn lemma_unit_literal(s: Seq<char>, st: SState, c: char)
    requires
        holds_at(s, st.pos, lit_chars(c)),
        st.flags == default_flags(),
    ensures
        run(s, st) == run(s, after_unit(st, SHir::Literal(c))),
{
    let p = st.pos;
    lemma_holds_index(s, p, lit_chars(c), 0);
    if is_meta(c) {
        lemma_holds_index(s, p, lit_chars(c), 1);
        assert(escape_at(s, p) == Ok::<(Esc, int), Error>((Esc::Lit(c), p + 2)));
    }
    assert(literal_hir(c, st.flags) == SHir::Literal(c));
    assert(step(s, st) == Ok::<SState, Error>(after_unit(st, SHir::Literal(c))));
    lemma_run_step(s, st, after_unit(st, SHir::Literal(c)));
}

pub proof fn lemma_unit_class(s: Seq<char>, st: SState, rs: Seq<SRange>)
    requires
        holds_at(s, st.pos, class_chars(rs)),
        all_ok(rs),
        st.flags == default_flags(),
    ensures
        run(s, st) == run(s, after_unit(st, SHir::Class(rs))),
{
    let p = st.pos;
    lemma_class_open(s, p, rs);
    assert(class_chars(rs)[0] == '[');
    lemma_holds_index(s, p, class_chars(rs), 0);
    assert(step(s, st) == Ok::<SState, Error>(after_unit(st, SHir::Class(rs))));
    lemma_run_step(s, st, after_unit(st, SHir::Class(rs)));
}

pub proof fn lemma_unit_empty(s: Seq<char>, st: SState, h: SHir)
    requires
        print_hir(h) == seq!['(', '?', ':', ')'],
        reparse(h, st.caps) == (SHir::Empty, st.caps),
        holds_at(s, st.pos, print_hir(h)),
        st.flags == default_flags(),
    ensures
        run(s, st) == run(s, after_unit(st, h)),
{
    let p = st.pos;
    let w = print_hir(h);
    assert(w =~= group_open_chars() + seq![')']);
    lemma_holds_split(s, p, group_open_chars(), seq![')']);
    lemma_holds_index(s, p + 3, seq![')'], 0);
    lemma_open(s, st);
    let st1 = opened(st);
    lemma_close(s, st1);
    assert(alt_hir(Seq::empty(), Seq::empty()) == SHir::Empty) by {
        assert(Seq::<SHir>::empty().push(concat_hir(Seq::empty())) =~= seq![SHir::Empty]);
    }
    assert(st1.stack.drop_last() =~= st.stack);
    assert(closed(st1) == after_unit(st, h));
}

#[verifier::rlimit(60)]
pub proof fn lemma_unit_look(s: Seq<char>, st: SState, l: Look)
    requires
        holds_at(s, st.pos, look_chars(l)),
        st.flags == default_flags(),
    ensures
        run(s, st) == run(s, after_unit(st, SHir::Look(l))),
{
    let p = st.pos;
    let w = look_chars(l);
    lemma_holds_index(s, p, w, 0);
    if l == Look::Start || l == Look::End {
        assert(step(s, st) == Ok::<SState, Error>(after_unit(st, SHir::Look(l))));
        lemma_run_step(s, st, after_unit(st, SHir::Look(l)));
    } else if l == Look::StartLF || l == Look::EndLF {
        lemma_unit_look_line(s, st, l);
    } else if l == Look::StartCRLF || l == Look::EndCRLF {
        lemma_unit_look_crlf(s, st, l);
    } else if l == Look::WordUnicode {
        lemma_unit_look_word(s, st);
    } else if l == Look::WordStartHalfUnicode || l == Look::WordEndHalfUnicode {
        lemma_unit_look_half(s, st, l);
    } else {
        lemma_holds_index(s, p, w, 1);
        assert(crate::syntax::look_escape(s[p + 1]) == Some(l));
        assert(crate::syntax::look_at(s, p, false) == Ok::<(Look, int), Error>((l, p + 2)));
        assert(step(s, st) == Ok::<SState, Error>(after_unit(st, SHir::Look(l))));
        lemma_run_step(s, st, after_unit(st, SHir::Look(l)));
    }
}

/// `(?:\b)` reads as a word boundary.
#[verifier::rlimit(60)]
pub proof fn lemma_unit_look_word(s: Seq<char>, st: SState)
    requires
        holds_at(s, st.pos, look_chars(Look::WordUnicode)),
        st.flags == default_flags(),
    ensures
        run(s, st) == run(s, after_unit(st, SHir::Look(Look::WordUnicode))),
{
    let p = st.pos;
    let l = Look::WordUnicode;
    let w = look_chars(l);
    assert(w =~= group_open_chars() + seq!['\\', 'b'] + seq![')']);
    lemma_holds_split3(s, p, group_open_chars(), seq!['\\', 'b'], seq![')']);
    lemma_holds_index(s, p, w, 3);
    lemma_holds_index(s, p, w, 4);
    lemma_holds_index(s, p, w, 5);
    lemma_open(s, st);
    let st1 = opened(st);
    assert(crate::syntax::look_at(s, p + 3, false) == Ok::<(Look, int), Error>((l, p + 5)));
    let st2 = push_piece(st1, SHir::Look(l), p + 5);
    assert(step(s, st1) == Ok::<SState, Error>(st2));
    lemma_run_step(s, st1, st2);
    lemma_close(s, st2);
    assert(st2.concat =~= seq![SHir::Look(l)]);
    lemma_alt_single(SHir::Look(l));
    assert(st2.stack.drop_last() =~= st.stack);
    assert(closed(st2) == after_unit(st, SHir::Look(l)));
}

/// The name characters of a special word boundary, followed by a character
/// that is none, read as that name.
pub proof fn lemma_word_name(s: Seq<char>, r: int, w: Seq<char>)
    requires
        holds_at(s, r, w),
        forall|i: int| 0 <= i < w.len() ==> crate::syntax::is_word_name_char(#[trigger] w[i]),
        r + w.len() < s.len(),
        !crate::syntax::is_word_name_char(s[r + w.len()]),
    ensures
        crate::syntax::word_name(s, r, false) == (w, r + w.len()),
    decreases w.len(),
{
    if w.len() == 0 {
        assert(w =~= Seq::<char>::empty());
    } else {
        assert(seq![w[0]] + w.drop_first() =~= w);
        lemma_holds_split(s, r, seq![w[0]], w.drop_first());
        lemma_holds_index(s, r, w, 0);
        assert(forall|i: int| 0 <= i < w.drop_first().len() ==> w.drop_first()[i] == w[i + 1]);
        lemma_word_name(s, r + 1, w.drop_first());
        assert(skip_space(s, r + 1, false) == r + 1);
    }
}

/// `\b{start-half}` and `\b{end-half}` read as the half word boundaries.
#[verifier::rlimit(60)]
pub proof fn lemma_unit_look_half(s: Seq<char>, st: SState, l: Look)
    requires
        holds_at(s, st.pos, look_chars(l)),
        st.flags == default_flags(),
        l == Look::WordStartHalfUnicode || l == Look::WordEndHalfUnicode,
    ensures
        run(s, st) == run(s, after_unit(st, SHir::Look(l))),
{
    let p = st.pos;
    let w = look_chars(l);
    let nm = w.subrange(3, w.len() - 1);
    assert(w =~= seq!['\\', 'b', '{'] + nm + seq!['}']);
    lemma_holds_split3(s, p, seq!['\\', 'b', '{'], nm, seq!['}']);
    lemma_holds_index(s, p, w, 0);
    lemma_holds_index(s, p, w, 1);
    lemma_holds_index(s, p, w, 2);
    lemma_holds_index(s, p, w, 3);
    lemma_holds_index(s, p, w, w.len() - 1);
    assert forall|i: int| 0 <= i < nm.len() implies crate::syntax::is_word_name_char(
        #[trigger] nm[i],
    ) by {
        assert(nm[i] == w[i + 3]);
    }
    lemma_word_name(s, p + 3, nm);
    assert(skip_space(s, p + 3, false) == p + 3);
    if l == Look::WordStartHalfUnicode {
        assert(nm =~= seq!['s', 't', 'a', 'r', 't', '-', 'h', 'a', 'l', 'f']);
        assert(nm != seq!['s', 't', 'a', 'r', 't']);
        assert(nm != seq!['e', 'n', 'd']);
    } else {
        assert(nm =~= seq!['e', 'n', 'd', '-', 'h', 'a', 'l', 'f']);
        assert(nm != seq!['s', 't', 'a', 'r', 't']);
        assert(nm != seq!['e', 'n', 'd']);
        assert(nm != seq!['s', 't', 'a', 'r', 't', '-', 'h', 'a', 'l', 'f']);
    }
    assert(crate::syntax::special_word(nm) == Some(l));
    assert(crate::syntax::look_at(s, p, false) == Ok::<(Look, int), Error>((l, p + w.len())));
    assert(step(s, st) == Ok::<SState, Error>(after_unit(st, SHir::Look(l))));
    lemma_run_step(s, st, after_unit(st, SHir::Look(l)));
}

/// `(?mR:^)` and `(?mR:$)` read as the assertions of lines that `\r\n`
/// ends.
#[verifier::rlimit(60)]
pub proof fn lemma_unit_look_crlf(s: Seq<char>, st: SState, l: Look)
    requires
        holds_at(s, st.pos, look_chars(l)),
        st.flags == default_flags(),
        l == Look::StartCRLF || l == Look::EndCRLF,
    ensures
        run(s, st) == run(s, after_unit(st, SHir::Look(l))),
{
    let p = st.pos;
    let w = look_chars(l);
    lemma_holds_index(s, p, w, 0);
    lemma_holds_index(s, p, w, 1);
    lemma_holds_index(s, p, w, 2);
    lemma_holds_index(s, p, w, 3);
    lemma_holds_index(s, p, w, 4);
    lemma_holds_index(s, p, w, 5);
    lemma_holds_index(s, p, w, 6);
    let fm = set_flag(st.flags, 'm', true);
    let fr = set_flag(fm, 'R', true);
    assert(s.subrange(p + 2, p + 2) =~= Seq::<char>::empty());
    assert(s.subrange(p + 2, p + 3) =~= seq!['m']);
    assert(!seq!['m'].contains('R')) by {
        assert(seq!['m'][0] == 'm');
    }
    assert(flags_at(s, p + 4, fr, false, false, 2) == Ok::<(Flags, int, bool), Error>(
        (fr, p + 4, false),
    ));
    assert(flags_at(s, p + 3, fm, false, false, 1) == Ok::<(Flags, int, bool), Error>(
        (fr, p + 4, false),
    ));
    assert(flags_at(s, p + 2, st.flags, false, false, 0) == Ok::<(Flags, int, bool), Error>(
        (fr, p + 4, false),
    ));
    let st1 = SState {
        pos: p + 5,
        flags: fr,
        concat: Seq::empty(),
        after_directive: false,
        alts: Seq::empty(),
        stack: st.stack.push(frame_of(st, None)),
        ..st
    };
    assert(open_group(s, st) == Ok::<SState, Error>(st1));
    lemma_run_step(s, st, st1);
    let st2 = push_piece(st1, SHir::Look(l), p + 6);
    assert(step(s, st1) == Ok::<SState, Error>(st2));
    lemma_run_step(s, st1, st2);
    lemma_close(s, st2);
    assert(st2.concat =~= seq![SHir::Look(l)]);
    lemma_alt_single(SHir::Look(l));
    assert(st2.stack.drop_last() =~= st.stack);
    assert(closed(st2) == after_unit(st, SHir::Look(l)));
}

#[verifier::rlimit(60)]
pub proof fn lemma_unit_look_line(s: Seq<char>, st: SState, l: Look)
    requires
        holds_at(s, st.pos, look_chars(l)),
        st.flags == default_flags(),
        l == Look::StartLF || l == Look::EndLF,
    ensures
        run(s, st) == run(s, after_unit(st, SHir::Look(l))),
{
    let p = st.pos;
    let w = look_chars(l);
    lemma_holds_index(s, p, w, 0);
    lemma_holds_index(s, p, w, 1);
    lemma_holds_index(s, p, w, 2);
    lemma_holds_index(s, p, w, 3);
    lemma_holds_index(s, p, w, 4);
    lemma_holds_index(s, p, w, 5);
    let fm = set_flag(st.flags, 'm', true);
    assert(s.subrange(p + 2, p + 2) =~= Seq::<char>::empty());
    assert(flags_at(s, p + 3, fm, false, false, 1) == Ok::<(Flags, int, bool), Error>(
        (fm, p + 3, false),
    ));
    assert(flags_at(s, p + 2, st.flags, false, false, 0) == Ok::<(Flags, int, bool), Error>(
        (fm, p + 3, false),
    ));
    let st1 = SState {
        pos: p + 4,
        flags: fm,
        concat: Seq::empty(),
        after_directive: false,
        alts: Seq::empty(),
        stack: st.stack.push(frame_of(st, None)),
        ..st
    };
    assert(open_group(s, st) == Ok::<SState, Error>(st1));
    lemma_run_step(s, st, st1);
    let st2 = push_piece(st1, SHir::Look(l), p + 5);
    assert(step(s, st1) == Ok::<SState, Error>(st2));
    lemma_run_step(s, st1, st2);
    lemma_close(s, st2);
    assert(st2.concat =~= seq![SHir::Look(l)]);
    lemma_alt_single(SHir::Look(l));
    assert(st2.stack.drop_last() =~= st.stack);
    assert(closed(st2) == after_unit(st, SHir::Look(l)));
}

/// The pattern of a repetition operator (with its laziness mark) applies the
/// repetition to the last piece.
pub open spec fn lazy_chars(greedy: bool) -> Seq<char> {
    if greedy {
        Seq::empty()
    } else {
        seq!['?']
    }
}

pub proof fn lemma_rep_op(s: Seq<char>, st: SState, min: u32, max: Option<u32>, greedy: bool)
    requires
        st.concat.len() > 0,
        !st.after_directive,
        st.flags == default_flags(),
        holds_at(s, st.pos, op_chars(min, max) + lazy_chars(greedy)),
        st.pos + (op_chars(min, max) + lazy_chars(greedy)).len() < s.len() ==> s[st.pos + (
        op_chars(min, max) + lazy_chars(greedy)).len()] != '?',
        max matches Some(n) ==> min <= n,
    ensures
        run(s, st) == run(
            s,
            SState {
                pos: st.pos + (op_chars(min, max) + lazy_chars(greedy)).len(),
                concat: st.concat.drop_last().push(
                    SHir::Repetition { min, max, greedy, sub: Box::new(st.concat.last()) },
                ),
                after_directive: false,
                ..st
            },
        ),
{
    let p = st.pos;
    let op = op_chars(min, max);
    let lz = lazy_chars(greedy);
    lemma_holds_split(s, p, op, lz);
    lemma_holds_index(s, p, op, 0);
    let q = p + op.len();
    if !greedy {
        lemma_holds_index(s, q, lz, 0);
    }
    if op[0] == '{' {
        lemma_count_at(s, p, min, max);
    }
    let st2 = SState {
        pos: p + (op + lz).len(),
        concat: st.concat.drop_last().push(
            SHir::Repetition { min, max, greedy, sub: Box::new(st.concat.last()) },
        ),
        after_directive: false,
        ..st
    };
    assert(repeat(s, st, min, max, q) == st2);
    assert(step(s, st) == Ok::<SState, Error>(st2));
    lemma_run_step(s, st, st2);
}

pub proof fn lemma_print_rep(min: u32, max: Option<u32>, greedy: bool, sub: SHir)
    ensures
        print_hir(SHir::Repetition { min, max, greedy, sub: Box::new(sub) }) == (if sub is Repetition {
            group_open_chars() + print_hir(sub) + seq![')']
        } else {
            print_hir(sub)
        }) + (op_chars(min, max) + lazy_chars(greedy)),
{
    let body = if sub is Repetition {
        group_open_chars() + print_hir(sub) + seq![')']
    } else {
        print_hir(sub)
    };
    assert(body + op_chars(min, max) + lazy_chars(greedy) =~= body + (op_chars(min, max)
        + lazy_chars(greedy)));
}

pub open spec fn unit_requires(s: Seq<char>, st: SState, h: SHir) -> bool {
    &&& printable(h)
    &&& st.flags == default_flags()
    &&& holds_at(s, st.pos, print_hir(h))
    &&& h is Repetition ==> (st.pos + print_hir(h).len() < s.len() ==> s[st.pos + print_hir(
        h,
    ).len()] != '?')
}

/// Reading the pattern of `h` from `st` pushes the expression that
/// `reparse` describes.
pub proof fn lemma_unit(s: Seq<char>, st: SState, h: SHir)
    requires
        unit_requires(s, st, h),
    ensures
        run(s, st) == run(s, after_unit(st, h)),
    decreases h, 1nat,
{
    match h {
        SHir::Empty => lemma_unit_empty(s, st, h),
        SHir::Literal(c) => lemma_unit_literal(s, st, c),
        SHir::Class(rs) => lemma_unit_class(s, st, rs),
        SHir::Look(l) => lemma_unit_look(s, st, l),
        SHir::Capture { .. } => lemma_unit_capture(s, st, h),
        SHir::Concat(_) => lemma_unit_concat(s, st, h),
        SHir::Alternation(hs) => {
            if hs.len() == 0 {
                assert(print_alts(hs) =~= Seq::<char>::empty());
                assert(print_hir(h) =~= seq!['(', '?', ':', ')']);
                lemma_unit_empty(s, st, h);
            } else {
                lemma_unit_alternation(s, st, h);
            }
        },
        SHir::Repetition { .. } => lemma_unit_repetition(s, st, h),
    }
}

pub proof fn lemma_unit_capture(s: Seq<char>, st: SState, h: SHir)
    requires
        unit_requires(s, st, h),
        h is Capture,
    ensures
        run(s, st) == run(s, after_unit(st, h)),
    decreases h, 0nat,
{
    let p = st.pos;
    let sub = *h->Capture_sub;
    let ps = print_hir(sub);
    assert(print_hir(h) == seq!['('] + ps + seq![')']);
    lemma_holds_split3(s, p, seq!['('], ps, seq![')']);
    lemma_holds_index(s, p, seq!['('], 0);
    lemma_holds_index(s, p + 1 + ps.len(), seq![')'], 0);
    lemma_print_first(sub);
    lemma_holds_index(s, p + 1, ps, 0);
    lemma_open_capture(s, st);
    let st1 = opened_capture(st);
    lemma_unit(s, st1, sub);
    let st2 = after_unit(st1, sub);
    lemma_close(s, st2);
    assert(st2.concat =~= seq![reparse(sub, st.caps + 1).0]);
    lemma_alt_single(reparse(sub, st.caps + 1).0);
    assert(st2.stack.drop_last() =~= st.stack);
    assert(closed(st2) == after_unit(st, h));
}

pub proof fn lemma_unit_concat(s: Seq<char>, st: SState, h: SHir)
    requires
        unit_requires(s, st, h),
        h is Concat,
    ensures
        run(s, st) == run(s, after_unit(st, h)),
    decreases h, 0nat,
{
    let p = st.pos;
    let hs = h->Concat_0;
    let ps = print_seq(hs);
    lemma_holds_split3(s, p, group_open_chars(), ps, seq![')']);
    lemma_holds_index(s, p + 3 + ps.len(), seq![')'], 0);
    lemma_open(s, st);
    let st1 = opened(st);
    lemma_seq(s, st1, hs);
    let st2 = after_seq(st1, hs);
    lemma_close(s, st2);
    let ns = reparse_seq(hs, st.caps).0;
    assert(st2.concat =~= ns);
    assert(alt_hir(Seq::empty(), ns) == concat_hir(ns)) by {
        assert(Seq::<SHir>::empty().push(concat_hir(ns)) =~= seq![concat_hir(ns)]);
    }
    assert(st2.stack.drop_last() =~= st.stack);
    assert(closed(st2) == after_unit(st, h));
}

pub proof fn lemma_unit_alternation(s: Seq<char>, st: SState, h: SHir)
    requires
        unit_requires(s, st, h),
        h is Alternation,
        h->Alternation_0.len() > 0,
    ensures
        run(s, st) == run(s, after_unit(st, h)),
    decreases h, 0nat,
{
    let p = st.pos;
    let hs = h->Alternation_0;
    let pa = print_alts(hs);
    lemma_holds_split3(s, p, group_open_chars(), pa, seq![')']);
    lemma_holds_index(s, p + 3 + pa.len(), seq![')'], 0);
    lemma_open(s, st);
    let st1 = opened(st);
    lemma_alts(s, st1, hs);
    let st2 = after_alts(st1, hs);
    lemma_close(s, st2);
    let ns = reparse_seq(hs, st.caps).0;
    assert(st2.alts =~= ns.drop_last());
    assert(st2.stack.drop_last() =~= st.stack);
    assert(closed(st2) == after_unit(st, h));
}

/// The body of a repetition (its sub-expression, wrapped when it is itself a
/// repetition) reads back as one piece.
pub proof fn lemma_rep_body(s: Seq<char>, st: SState, sub: SHir, body: Seq<char>)
    requires
        printable(sub),
        st.flags == default_flags(),
        body == (if sub is Repetition {
            group_open_chars() + print_hir(sub) + seq![')']
        } else {
            print_hir(sub)
        }),
        holds_at(s, st.pos, body),
    ensures
        run(s, st) == run(
            s,
            SState {
                pos: st.pos + body.len(),
                concat: st.concat.push(reparse(sub, st.caps).0),
                after_directive: false,
                caps: reparse(sub, st.caps).1,
                ..st
            },
        ),
    decreases sub, 2nat,
{
    let p = st.pos;
    let ps = print_hir(sub);
    let (s2, c2) = reparse(sub, st.caps);
    let st2 = SState {
        pos: p + body.len(),
        concat: st.concat.push(s2),
        after_directive: false,
        caps: c2,
        ..st
    };
    if sub is Repetition {
        lemma_holds_split3(s, p, group_open_chars(), ps, seq![')']);
        lemma_holds_index(s, p + 3 + ps.len(), seq![')'], 0);
        lemma_open(s, st);
        let st1 = opened(st);
        lemma_unit(s, st1, sub);
        let st1b = after_unit(st1, sub);
        lemma_close(s, st1b);
        assert(st1b.concat =~= seq![s2]);
        lemma_alt_single(s2);
        assert(st1b.stack.drop_last() =~= st.stack);
        assert(closed(st1b) == st2);
    } else {
        lemma_unit(s, st, sub);
        assert(after_unit(st, sub) == st2);
    }
}

pub proof fn lemma_unit_repetition(s: Seq<char>, st: SState, h: SHir)
    requires
        unit_requires(s, st, h),
        h is Repetition,
    ensures
        run(s, st) == run(s, after_unit(st, h)),
    decreases h, 0nat,
{
    let p = st.pos;
    let min = h->min;
    let max = h->max;
    let greedy = h->greedy;
    let sub = *h->Repetition_sub;
    let ps = print_hir(sub);
    let tail = op_chars(min, max) + lazy_chars(greedy);
    lemma_print_rep(min, max, greedy, sub);
    assert(h == SHir::Repetition { min, max, greedy, sub: Box::new(sub) });
    let (s2, c2) = reparse(sub, st.caps);
    let body = if sub is Repetition {
        group_open_chars() + ps + seq![')']
    } else {
        ps
    };
    lemma_holds_split(s, p, body, tail);
    lemma_rep_body(s, st, sub, body);
    let st2 = SState {
        pos: p + body.len(),
        concat: st.concat.push(s2),
        after_directive: false,
        caps: c2,
        ..st
    };
    lemma_rep_op(s, st2, min, max, greedy);
    assert(st2.concat.drop_last() =~= st.concat);
    assert(st2.concat.last() == s2);
}

/// Reading the patterns of `hs` pushes their expressions one by one.
pub proof fn lemma_seq(s: Seq<char>, st: SState, hs: Seq<SHir>)
    requires
        printable_all(hs),
        st.flags == default_flags(),
        !st.after_directive,
        holds_at(s, st.pos, print_seq(hs)),
        st.pos + print_seq(hs).len() < s.len() ==> s[st.pos + print_seq(hs).len()] != '?',
    ensures
        run(s, st) == run(s, after_seq(st, hs)),
    decreases hs, 0nat,
{
    if hs.len() == 0 {
        assert(after_seq(st, hs) == st) by {
            assert(st.concat + Seq::<SHir>::empty() =~= st.concat);
        }
    } else {
        let n = hs.len() - 1;
        let pre = hs.subrange(0, n);
        let last = hs[n];
        lemma_print_seq_last(hs);
        lemma_holds_split(s, st.pos, print_seq(pre), print_hir(last));
        lemma_print_first(last);
        lemma_holds_index(s, st.pos + print_seq(pre).len(), print_hir(last), 0);
        lemma_seq(s, st, pre);
        let stp = after_seq(st, pre);
        lemma_unit(s, stp, last);
        assert(after_unit(stp, last).concat =~= after_seq(st, hs).concat);
        assert(after_unit(stp, last) == after_seq(st, hs));
    }
}

/// Reading the patterns of `hs`, separated by `|`, leaves all but the last as
/// finished alternatives.
pub proof fn lemma_alts(s: Seq<char>, st: SState, hs: Seq<SHir>)
    requires
        hs.len() > 0,
        printable_all(hs),
        st.flags == default_flags(),
        st.concat.len() == 0,
        holds_at(s, st.pos, print_alts(hs)),
        st.pos + print_alts(hs).len() < s.len() ==> s[st.pos + print_alts(hs).len()] != '?',
    ensures
        run(s, st) == run(s, after_alts(st, hs)),
    decreases hs, 0nat,
{
    let n = hs.len() - 1;
    let pre = hs.subrange(0, n);
    let last = hs[n];
    lemma_print_seq_last(hs);
    if n == 0 {
        lemma_unit(s, st, hs[0]);
        let ns = reparse_seq(hs, st.caps).0;
        assert(pre =~= Seq::<SHir>::empty());
        assert(reparse_seq(pre, st.caps) == (Seq::<SHir>::empty(), st.caps));
        assert(ns =~= seq![reparse(hs[0], st.caps).0]);
        assert(ns.drop_last() =~= Seq::<SHir>::empty());
        assert(st.alts + ns.drop_last() =~= st.alts);
        assert(st.concat.push(ns.last()) =~= seq![ns.last()]);
        assert(after_unit(st, hs[0]) == after_alts(st, hs));
    } else {
        let pa = print_alts(pre);
        lemma_holds_split3(s, st.pos, pa, seq!['|'], print_hir(last));
        lemma_holds_index(s, st.pos + pa.len(), seq!['|'], 0);
        lemma_print_first(last);
        lemma_holds_index(s, st.pos + pa.len() + 1, print_hir(last), 0);
        assert(print_alts(hs) =~= pa + seq!['|'] + print_hir(last));
        lemma_alts(s, st, pre);
        let stp = after_alts(st, pre);
        let nsp = reparse_seq(pre, st.caps).0;
        let stq = SState {
            pos: stp.pos + 1,
            concat: Seq::empty(),
            after_directive: false,
            alts: stp.alts.push(concat_hir(stp.concat)),
            ..stp
        };
        assert(step(s, stp) == Ok::<SState, Error>(stq));
        lemma_run_step(s, stp, stq);
        lemma_alt_single(nsp.last());
        lemma_unit(s, stq, last);
        let ns = reparse_seq(hs, st.caps).0;
        assert(ns.drop_last() =~= nsp);
        assert(nsp.len() > 0);
        assert(stq.alts =~= st.alts + nsp) by {
            assert(nsp.drop_last().push(nsp.last()) =~= nsp);
        }
        assert(after_unit(stq, last).concat =~= seq![ns.last()]);
        assert(after_unit(stq, last) == after_alts(st, hs));
    }
}

// ---------------------------------------------------------------------------
// What the parser builds is printable
// ---------------------------------------------------------------------------

pub proof fn lemma_printable_all_push(hs: Seq<SHir>, x: SHir)
    ensures
        printable_all(hs.push(x)) == (printable_all(hs) && printable(x)),
{
    assert(hs.push(x).subrange(0, hs.len() as int) =~= hs);
}

pub proof fn lemma_printable_all_drop_last(hs: Seq<SHir>)
    requires
        hs.len() > 0,
        printable_all(hs),
    ensures
        printable_all(hs.drop_last()),
        printable(hs.last()),
{
    assert(hs.drop_last() =~= hs.subrange(0, hs.len() - 1));
}

pub proof fn lemma_printable_all_empty()
    ensures
        printable_all(Seq::<SHir>::empty()),
{
}

pub proof fn lemma_concat_hir_printable(hs: Seq<SHir>)
    requires
        printable_all(hs),
    ensures
        printable(concat_hir(hs)),
{
    if hs.len() == 1 {
        assert(hs.subrange(0, 0) =~= Seq::<SHir>::empty());
        assert(hs[0] == hs[hs.len() - 1]);
    }
}

pub proof fn lemma_alt_hir_printable(alts: Seq<SHir>, concat: Seq<SHir>)
    requires
        printable_all(alts),
        printable_all(concat),
    ensures
        printable(alt_hir(alts, concat)),
{
    lemma_concat_hir_printable(concat);
    lemma_printable_all_push(alts, concat_hir(concat));
    let all = alts.push(concat_hir(concat));
    if all.len() == 1 {
        assert(all[0] == all[all.len() - 1]);
    }
}

pub proof fn lemma_apply_op_canonical(op: crate::syntax::ClassOp, a: Seq<SRange>, b: Seq<SRange>)
    requires
        all_ok(a),
        all_ok(b),
    ensures
        canonical(crate::syntax::apply_op(op, a, b)),
{
    match op {
        crate::syntax::ClassOp::Intersection => {
            crate::ranges::lemma_intersect(a, b);
        },
        crate::syntax::ClassOp::Difference => {
            crate::ranges::lemma_negate_ok(b);
            crate::ranges::lemma_intersect(a, crate::ranges::negate(b));
        },
        crate::syntax::ClassOp::SymmetricDifference => {
            crate::ranges::lemma_negate_ok(b);
            crate::ranges::lemma_negate_ok(a);
            crate::ranges::lemma_intersect(a, crate::ranges::negate(b));
            crate::ranges::lemma_intersect(b, crate::ranges::negate(a));
            crate::ranges::lemma_canonical_all_ok(intersect(b, crate::ranges::negate(a)));
            crate::ranges::lemma_insert_all_canonical(
                crate::ranges::difference(a, b),
                crate::ranges::difference(b, a),
            );
        },
    }
}

pub proof fn lemma_escape_canonical(s: Seq<char>, p: int)
    ensures
        escape_at(s, p) matches Ok((Esc::Ranges(rs), _)) ==> canonical(rs),
{
    reveal(crate::syntax::letter_escape);
    if let Ok((Esc::Ranges(rs), _)) = escape_at(s, p) {
        let c = s[p + 1];
        if c == 's' || c == 'S' {
            crate::tables::lemma_unicode_canonical(crate::tables::UnicodeProp::WhiteSpace);
            crate::ranges::lemma_negate(crate::tables::unicode_ranges(crate::tables::UnicodeProp::WhiteSpace));
        } else if c == 'w' || c == 'W' {
            crate::word::lemma_word_canonical();
            crate::ranges::lemma_negate(crate::word::word_ranges());
        } else if c == 'd' || c == 'D' {
            crate::tables::lemma_unicode_canonical(crate::tables::UnicodeProp::DecimalNumber);
            crate::ranges::lemma_negate(crate::tables::unicode_ranges(crate::tables::UnicodeProp::DecimalNumber));
        } else {
            let q = p + 2;
            let name = if s[q] == '{' {
                s.subrange(q + 1, crate::syntax::find_char(s, q + 1, '}'))
            } else {
                seq![s[q]]
            };
            let prop = crate::syntax::resolve_property(name)->Ok_0.0;
            crate::tables::lemma_unicode_canonical(prop);
            crate::ranges::lemma_negate(crate::tables::unicode_ranges(prop));
        }
    }
}

pub proof fn lemma_posix_canonical(s: Seq<char>, p: int)
    ensures
        crate::syntax::posix_at(s, p) matches Some((rs, _)) ==> canonical(rs),
{
    if let Some((rs, _)) = crate::syntax::posix_at(s, p) {
        let r = p + 2;
        let neg = r < s.len() && s[r] == '^';
        let r2 = if neg {
            r + 1
        } else {
            r
        };
        let e = crate::syntax::find_char(s, r2, ':');
        let k = crate::tables::posix_by_name(s.subrange(r2, e))->Some_0;
        crate::tables::lemma_posix_canonical(k);
        crate::ranges::lemma_negate(crate::tables::posix_ranges(k));
    }
}

pub proof fn lemma_combine_canonical(
    lhs: Option<(crate::syntax::ClassOp, Seq<SRange>)>,
    cur: Seq<SRange>,
)
    requires
        canonical(cur),
        lhs matches Some((_, a)) ==> canonical(a),
    ensures
        canonical(combine(lhs, cur)),
{
    if let Some((op, a)) = lhs {
        crate::ranges::lemma_canonical_all_ok(a);
        crate::ranges::lemma_canonical_all_ok(cur);
        lemma_apply_op_canonical(op, a, cur);
    }
}

/// A class that the parser reads is canonical.
pub proof fn lemma_class_open_canonical(s: Seq<char>, p: int, f: Flags)
    ensures
        class_open(s, p, f) matches Ok((rs, _)) ==> canonical(rs),
    decreases s.len() - p, 0int,
{
    let x = f.ignore_whitespace;
    let q = skip_space(s, p + 1, x);
    let neg = 0 <= q < s.len() && s[q] == '^';
    let q2 = if neg {
        skip_space(s, q + 1, x)
    } else {
        q
    };
    if p < q2 <= s.len() {
        lemma_class_loop_canonical(s, q2, f, p, neg, None, Seq::empty(), true);
    }
}

pub proof fn lemma_class_loop_canonical(
    s: Seq<char>,
    q: int,
    f: Flags,
    open: int,
    neg: bool,
    lhs: Option<(crate::syntax::ClassOp, Seq<SRange>)>,
    cur: Seq<SRange>,
    first: bool,
)
    requires
        canonical(cur),
        lhs matches Some((_, a)) ==> canonical(a),
    ensures
        class_loop(s, q, f, open, neg, lhs, cur, first) matches Ok((rs, _)) ==> canonical(rs),
    decreases s.len() - q, 1int,
{
    let x = f.ignore_whitespace;
    let q1 = skip_space(s, q, x);
    if q1 < q || q < 0 || q1 >= s.len() {
    } else {
        let c = s[q1];
        if c == ']' && !first {
            lemma_combine_canonical(lhs, cur);
            let body = combine(lhs, cur);
            crate::fold::lemma_case_fold_canonical(body);
            let folded = if f.case_insensitive {
                crate::fold::case_fold(body)
            } else {
                body
            };
            crate::ranges::lemma_negate(folded);
        } else if c == '[' {
            lemma_posix_canonical(s, q1);
            match crate::syntax::posix_at(s, q1) {
                Some((rs, q2)) => {
                    if q < q2 <= s.len() {
                        crate::ranges::lemma_canonical_all_ok(rs);
                        crate::ranges::lemma_insert_all_canonical(cur, rs);
                        lemma_class_loop_canonical(s, q2, f, open, neg, lhs, insert_all(cur, rs), false);
                    }
                },
                None => {
                    lemma_class_open_canonical(s, q1, f);
                    match class_open(s, q1, f) {
                        Err(e) => {},
                        Ok((rs, q2)) => {
                            if q < q2 <= s.len() {
                                crate::ranges::lemma_canonical_all_ok(rs);
                        crate::ranges::lemma_insert_all_canonical(cur, rs);
                                lemma_class_loop_canonical(
                                    s,
                                    q2,
                                    f,
                                    open,
                                    neg,
                                    lhs,
                                    insert_all(cur, rs),
                                    false,
                                );
                            }
                        },
                    }
                },
            }
        } else if (c == '&' || c == '-' || c == '~') && q1 + 1 < s.len() && s[q1 + 1] == c {
            let op = if c == '&' {
                crate::syntax::ClassOp::Intersection
            } else if c == '-' {
                crate::syntax::ClassOp::Difference
            } else {
                crate::syntax::ClassOp::SymmetricDifference
            };
            lemma_combine_canonical(lhs, cur);
            lemma_class_loop_canonical(
                s,
                q1 + 2,
                f,
                open,
                neg,
                Some((op, combine(lhs, cur))),
                Seq::empty(),
                false,
            );
        } else {
            if s[q1] == '\\' {
                lemma_escape_canonical(s, q1);
            }
            match class_item_at(s, q1) {
                Err(e) => {},
                Ok((Esc::Ranges(rs), q2)) => {
                    if q < q2 <= s.len() {
                        crate::ranges::lemma_canonical_all_ok(rs);
                        crate::ranges::lemma_insert_all_canonical(cur, rs);
                        lemma_class_loop_canonical(s, q2, f, open, neg, lhs, insert_all(cur, rs), false);
                    }
                },
                Ok((Esc::Lit(lo), q2)) => {
                    let q3 = skip_space(s, q2, x);
                    if 0 <= q3 && q3 + 1 < s.len() && s[q3] == '-' && s[q3 + 1] != ']' && s[q3 + 1]
                        != '-' {
                        let q4 = skip_space(s, q3 + 1, x);
                        if q4 >= s.len() || q4 < 0 {
                        } else {
                            match class_item_at(s, q4) {
                                Ok((Esc::Lit(hi), q5)) => {
                                    if lo <= hi && q < q5 <= s.len() {
                                        crate::ranges::lemma_insert_canonical(
                                            cur,
                                            (lo as int, hi as int),
                                        );
                                        lemma_class_loop_canonical(
                                            s,
                                            q5,
                                            f,
                                            open,
                                            neg,
                                            lhs,
                                            insert(cur, (lo as int, hi as int)),
                                            false,
                                        );
                                    }
                                },
                                _ => {},
                            }
                        }
                    } else if q < q2 <= s.len() {
                        crate::ranges::lemma_insert_canonical(cur, (lo as int, lo as int));
                        lemma_class_loop_canonical(
                            s,
                            q2,
                            f,
                            open,
                            neg,
                            lhs,
                            insert(cur, (lo as int, lo as int)),
                            false,
                        );
                    }
                },
            }
        }
    }
}

pub open spec fn frames_printable(fs: Seq<SFrame>) -> bool {
    forall|i: int|
        0 <= i < fs.len() ==> printable_all(#[trigger] fs[i].concat) && printable_all(fs[i].alts)
}

/// Every piece, alternative and saved sequence of a state is printable.
pub open spec fn state_printable(st: SState) -> bool {
    &&& printable_all(st.concat)
    &&& printable_all(st.alts)
    &&& frames_printable(st.stack)
}

pub proof fn lemma_push_piece_printable(st: SState, h: SHir, q: int)
    requires
        state_printable(st),
        printable(h),
    ensures
        state_printable(push_piece(st, h, q)),
{
    lemma_printable_all_push(st.concat, h);
}

pub proof fn lemma_open_group_printable(s: Seq<char>, st: SState)
    requires
        state_printable(st),
    ensures
        open_group(s, st) matches Ok(st2) ==> state_printable(st2),
{
    if let Ok(st2) = open_group(s, st) {
        lemma_printable_all_empty();
        if st2.stack.len() > st.stack.len() {
            let fs = st2.stack;
            assert forall|i: int| 0 <= i < fs.len() implies printable_all(#[trigger] fs[i].concat)
                && printable_all(fs[i].alts) by {
                if i < st.stack.len() {
                    assert(fs[i] == st.stack[i]);
                }
            }
        }
    }
}

pub proof fn lemma_close_group_printable(st: SState)
    requires
        state_printable(st),
    ensures
        close_group(st) matches Ok(st2) ==> state_printable(st2),
{
    if let Ok(st2) = close_group(st) {
        let fr = st.stack.last();
        assert(printable_all(st.stack[st.stack.len() - 1].concat));
        lemma_alt_hir_printable(st.alts, st.concat);
        let body = alt_hir(st.alts, st.concat);
        let node = match fr.capture {
            Some(i) => SHir::Capture { index: i, sub: Box::new(body) },
            None => body,
        };
        lemma_printable_all_push(fr.concat, node);
        let fs = st2.stack;
        assert forall|i: int| 0 <= i < fs.len() implies printable_all(#[trigger] fs[i].concat)
            && printable_all(fs[i].alts) by {
            assert(fs[i] == st.stack[i]);
        }
    }
}

pub proof fn lemma_repeat_printable(s: Seq<char>, st: SState, min: u32, max: Option<u32>, q: int)
    requires
        state_printable(st),
        st.concat.len() > 0,
        max matches Some(n) ==> min <= n,
    ensures
        state_printable(repeat(s, st, min, max, q)),
{
    lemma_printable_all_drop_last(st.concat);
    let lazy = 0 <= q < s.len() && s[q] == '?';
    let greedy = lazy == st.flags.swap_greed;
    lemma_printable_all_push(
        st.concat.drop_last(),
        SHir::Repetition { min, max, greedy, sub: Box::new(st.concat.last()) },
    );
}

pub proof fn lemma_literal_printable(c: char, f: Flags)
    ensures
        printable(literal_hir(c, f)),
{
    crate::ranges::lemma_single((c as int, c as int));
    crate::fold::lemma_case_fold_ok(seq![(c as int, c as int)]);
}

/// A step keeps a state printable.
pub proof fn lemma_step_printable(s: Seq<char>, st: SState)
    requires
        state_printable(st),
        0 <= st.pos < s.len(),
    ensures
        step(s, st) matches Ok(st2) ==> state_printable(st2),
{
    let p = st.pos;
    let c = s[p];
    let f = st.flags;
    if c == '(' {
        lemma_open_group_printable(s, st);
    } else if c == ')' {
        lemma_close_group_printable(st);
    } else if c == '|' {
        lemma_concat_hir_printable(st.concat);
        lemma_printable_all_push(st.alts, concat_hir(st.concat));
        lemma_printable_all_empty();
    } else if c == '[' {
        lemma_class_open_canonical(s, p, f);
        if let Ok((rs, q)) = class_open(s, p, f) {
            crate::ranges::lemma_canonical_all_ok(rs);
            lemma_push_piece_printable(st, SHir::Class(rs), q);
        }
    } else if c == '*' || c == '+' || c == '?' || c == '{' {
        if st.concat.len() == 0 || st.after_directive {
        } else if c == '*' {
            lemma_repeat_printable(s, st, 0, None, p + 1);
        } else if c == '+' {
            lemma_repeat_printable(s, st, 1, None, p + 1);
        } else if c == '?' {
            lemma_repeat_printable(s, st, 0, Some(1), p + 1);
        } else {
            if let Ok((m, mx, q)) = count_at(s, p, f.ignore_whitespace) {
                lemma_repeat_printable(s, st, m, mx, q);
            }
        }
    } else if c == '.' {
        let d = crate::syntax::dot_ranges(f);
        crate::syntax::lemma_dot_canonical(f);
        crate::ranges::lemma_canonical_all_ok(d);
        lemma_push_piece_printable(st, SHir::Class(d), p + 1);
    } else if c == '^' || c == '$' {
        lemma_printable_all_push(st.concat, SHir::Look(crate::syntax::caret_look(f)));
        lemma_printable_all_push(st.concat, SHir::Look(crate::syntax::dollar_look(f)));
    } else if c == '\\' && p + 1 < s.len() && crate::syntax::look_escape(s[p + 1]) is Some {
        if let Ok((l, q)) = crate::syntax::look_at(s, p, f.ignore_whitespace) {
            lemma_printable_all_push(st.concat, SHir::Look(l));
        }
    } else if c == '\\' {
        lemma_escape_canonical(s, p);
        match escape_at(s, p) {
            Err(e) => {},
            Ok((Esc::Lit(l), q)) => {
                lemma_literal_printable(l, f);
                lemma_push_piece_printable(st, literal_hir(l, f), q);
            },
            Ok((Esc::Ranges(rs), q)) => {
                crate::ranges::lemma_canonical_all_ok(rs);
                crate::fold::lemma_case_fold_ok(rs);
                lemma_push_piece_printable(st, crate::syntax::class_hir(rs, f), q);
            },
        }
    } else {
        lemma_literal_printable(c, f);
        lemma_push_piece_printable(st, literal_hir(c, f), p + 1);
    }
}

/// A run from a printable state gives a printable expression.
pub proof fn lemma_run_printable(s: Seq<char>, st: SState)
    requires
        state_printable(st),
    ensures
        run(s, st) matches Ok(h) ==> printable(h),
    decreases s.len() - st.pos,
{
    if st.pos < 0 || st.pos > s.len() {
    } else {
        let p = skip_space(s, st.pos, st.flags.ignore_whitespace);
        if p < st.pos || p > s.len() {
        } else if p == s.len() {
            lemma_alt_hir_printable(st.alts, st.concat);
        } else {
            lemma_step_printable(s, SState { pos: p, ..st });
            match step(s, SState { pos: p, ..st }) {
                Err(e) => {},
                Ok(st2) => {
                    if st.pos < st2.pos <= s.len() {
                        lemma_run_printable(s, st2);
                    }
                },
            }
        }
    }
}

// ---------------------------------------------------------------------------
// The laws
// ---------------------------------------------------------------------------

/// Every expression that the parser gives is printable.
pub proof fn law_parse_printable(p: Seq<char>)
    ensures
        spec_parse(p) matches Ok(h) ==> printable(h),
{
    lemma_printable_all_empty();
    lemma_run_printable(p, initial_state());
}

/// The pattern that the printer writes for a printable expression parses, to
/// the expression that `reparse` describes.
pub proof fn law_print_then_parse(h: SHir)
    requires
        printable(h),
    ensures
        spec_parse(print_hir(h)) == Ok::<SHir, Error>(reparse(h, 0).0),
{
    let s = print_hir(h);
    let st0 = initial_state();
    assert(s.subrange(0, s.len() as int) =~= s);
    lemma_unit(s, st0, h);
    let st1 = after_unit(st0, h);
    assert(st1.concat =~= seq![reparse(h, 0).0]);
    lemma_alt_single(reparse(h, 0).0);
    assert(skip_space(s, s.len() as int, false) == s.len());
    assert(SState { pos: s.len() as int, ..st1 } == st1);
}

/// For every pattern that parses, the printed form of its expression parses too.
pub proof fn law_print_roundtrip_parses(p: Seq<char>)
    ensures
        spec_parse(p) matches Ok(h) ==> spec_parse(print_hir(h)) is Ok,
{
    law_parse_printable(p);
    if let Ok(h) = spec_parse(p) {
        law_print_then_parse(h);
    }
}

} // verus!
