//! The parser: reads a pattern into a `Hir`, and is proved to compute
//! exactly `syntax::spec_parse`.
use vstd::prelude::*;
use crate::ranges::SRange;
use crate::class::{ClassUnicode, ClassUnicodeRange, rview, insert_range, insert_all_ranges, intersect_ranges, difference_ranges, symmetric_difference_ranges, negate_ranges, lemma_rview_push};
use crate::fold::case_fold_ranges;
use crate::hir::{Hir, SHir, Class, Look, Flags, Error, ErrorKind, hir_view, hirs_view, lemma_hirs_view_push, lemma_hirs_view_drop_last, lemma_hirs_view_len};
use crate::scan::{look_escape_char, look_at_pos, name_at_pos, names_view, occurs_between, EscItem, esc_view, skip_space_at, escape_at_pos, posix_at_pos, count_at_pos};
use crate::syntax::{name_at, skip_space, Esc, ClassOp, SFrame, SState, apply_op, combine, class_item_at, class_open, class_loop, concat_hir, alt_hir, literal_hir, class_hir, dot_ranges, caret_look, dollar_look, open_capture, push_piece, set_flag, flags_at, open_group, close_group, repeat, step, finish, run, spec_parse, initial_state};

verus! {

fn apply_op_ranges(op: ClassOp, a: &Vec<ClassUnicodeRange>, b: &Vec<ClassUnicodeRange>) -> (out:
    Vec<ClassUnicodeRange>)
    ensures
        rview(out@) == apply_op(op, rview(a@), rview(b@)),
{
    match op {
        ClassOp::Intersection => intersect_ranges(a, b),
        ClassOp::Difference => difference_ranges(a, b),
        ClassOp::SymmetricDifference => symmetric_difference_ranges(a, b),
    }
}

spec fn lhs_view(lhs: Option<(ClassOp, Vec<ClassUnicodeRange>)>) -> Option<(ClassOp, Seq<SRange>)> {
    match lhs {
        None => None,
        Some((op, v)) => Some((op, rview(v@))),
    }
}

fn combine_ranges(lhs: Option<(ClassOp, Vec<ClassUnicodeRange>)>, cur: Vec<ClassUnicodeRange>) -> (out:
    Vec<ClassUnicodeRange>)
    ensures
        rview(out@) == combine(lhs_view(lhs), rview(cur@)),
{
    match lhs {
        None => cur,
        Some((op, a)) => apply_op_ranges(op, &a, &cur),
    }
}

fn class_item_at_pos(s: &[char], p: usize) -> (r: Result<(EscItem, usize), Error>)
    requires
        p < s.len(),
    ensures
        match r {
            Ok((e, q)) => class_item_at(s@, p as int) == Ok::<(Esc, int), Error>(
                (esc_view(e), q as int),
            ) && p < q <= s.len(),
            Err(e) => class_item_at(s@, p as int) == Err::<(Esc, int), Error>(e),
        },
{
    if s[p] == '\\' {
        escape_at_pos(s, p)
    } else {
        Ok((EscItem::Lit(s[p]), p + 1))
    }
}

/// What one step of the class loop gives.
enum ClassStep {
    /// The class is closed: its ranges and the position after `]`.
    Done(Vec<ClassUnicodeRange>, usize),
    /// The loop goes on from a new position with a new operand and union.
    Next(usize, Option<(ClassOp, Vec<ClassUnicodeRange>)>, Vec<ClassUnicodeRange>),
    Fail(Error),
}

/// A character item at `q1` (whose end is `q3`), possibly the start of a range.
fn class_range_step(
    s: &[char],
    q: usize,
    q1: usize,
    q3: usize,
    lo: char,
    f: Flags,
    open: usize,
    neg: bool,
    lhs: Ghost<Option<(ClassOp, Seq<SRange>)>>,
    cur: Vec<ClassUnicodeRange>,
    first: bool,
) -> (r: Result<(usize, Vec<ClassUnicodeRange>), Error>)
    requires
        q <= q1 < q3 <= s.len(),
        q1 < s.len(),
        skip_space(s@, q as int, f.ignore_whitespace) == q1,
        class_item_at(s@, q1 as int) == Ok::<(Esc, int), Error>((Esc::Lit(lo), q3 as int)),
        !(s@[q1 as int] == ']' && !first),
        s@[q1 as int] != '[',
        !((s@[q1 as int] == '&' || s@[q1 as int] == '-' || s@[q1 as int] == '~') && q1 + 1 < s.len()
            && s@[q1 + 1] == s@[q1 as int]),
    ensures
        match r {
            Ok((q2, cur2)) => class_loop(s@, q as int, f, open as int, neg, lhs@, rview(cur@), first)
                == class_loop(s@, q2 as int, f, open as int, neg, lhs@, rview(cur2@), false) && q
                < q2 <= s.len(),
            Err(e) => class_loop(s@, q as int, f, open as int, neg, lhs@, rview(cur@), first)
                == Err::<(Seq<SRange>, int), Error>(e),
        },
{
    let x = f.ignore_whitespace;
    let q4 = skip_space_at(s, q3, x);
    if q4 < s.len() - 1 && s[q4] == '-' && s[q4 + 1] != ']' && s[q4 + 1] != '-' {
        let q5 = skip_space_at(s, q4 + 1, x);
        if q5 >= s.len() {
            return Err(Error { kind: ErrorKind::ClassUnclosed, offset: open });
        }
        match class_item_at_pos(s, q5) {
            Err(e) => Err(e),
            Ok((EscItem::Ranges(_), _)) => Err(Error { kind: ErrorKind::ClassRangeLiteral, offset: q5 }),
            Ok((EscItem::Lit(hi), q6)) => {
                if lo > hi {
                    Err(Error { kind: ErrorKind::ClassRangeInvalid, offset: q1 })
                } else {
                    Ok((q6, insert_range(&cur, ClassUnicodeRange { start: lo, end: hi })))
                }
            },
        }
    } else {
        Ok((q3, insert_range(&cur, ClassUnicodeRange { start: lo, end: lo })))
    }
}

/// One step of the class loop at `q` (see `syntax::class_loop`).
fn class_step(
    s: &[char],
    q: usize,
    f: Flags,
    open: usize,
    neg: bool,
    lhs: Option<(ClassOp, Vec<ClassUnicodeRange>)>,
    cur: Vec<ClassUnicodeRange>,
    first: bool,
) -> (r: ClassStep)
    requires
        open < q <= s.len(),
    ensures
        match r {
            ClassStep::Done(v, q2) => class_loop(
                s@,
                q as int,
                f,
                open as int,
                neg,
                lhs_view(lhs),
                rview(cur@),
                first,
            ) == Ok::<(Seq<SRange>, int), Error>((rview(v@), q2 as int)) && q < q2 <= s.len(),
            ClassStep::Next(q2, lhs2, cur2) => class_loop(
                s@,
                q as int,
                f,
                open as int,
                neg,
                lhs_view(lhs),
                rview(cur@),
                first,
            ) == class_loop(s@, q2 as int, f, open as int, neg, lhs_view(lhs2), rview(cur2@), false)
                && q < q2 <= s.len(),
            ClassStep::Fail(e) => class_loop(
                s@,
                q as int,
                f,
                open as int,
                neg,
                lhs_view(lhs),
                rview(cur@),
                first,
            ) == Err::<(Seq<SRange>, int), Error>(e),
        },
    decreases s.len() - q, 1int,
{
    let x = f.ignore_whitespace;
    let q1 = skip_space_at(s, q, x);
    if q1 >= s.len() {
        return ClassStep::Fail(Error { kind: ErrorKind::ClassUnclosed, offset: open });
    }
    let c = s[q1];
    if c == ']' && !first {
        let body = combine_ranges(lhs, cur);
        let folded = if f.case_insensitive {
            case_fold_ranges(&body)
        } else {
            body
        };
        if neg {
            ClassStep::Done(negate_ranges(&folded), q1 + 1)
        } else {
            ClassStep::Done(folded, q1 + 1)
        }
    } else if c == '[' {
        match posix_at_pos(s, q1) {
            Some((rs, q3)) => ClassStep::Next(q3, lhs, insert_all_ranges(cur, &rs)),
            None => match class_open_at(s, q1, f) {
                Err(e) => ClassStep::Fail(e),
                Ok((rs, q3)) => ClassStep::Next(q3, lhs, insert_all_ranges(cur, &rs)),
            },
        }
    } else if (c == '&' || c == '-' || c == '~') && q1 < s.len() - 1 && s[q1 + 1] == c {
        let op = if c == '&' {
            ClassOp::Intersection
        } else if c == '-' {
            ClassOp::Difference
        } else {
            ClassOp::SymmetricDifference
        };
        let prev = combine_ranges(lhs, cur);
        let empty: Vec<ClassUnicodeRange> = Vec::new();
        assert(rview(empty@) =~= Seq::<SRange>::empty());
        ClassStep::Next(q1 + 2, Some((op, prev)), empty)
    } else {
        match class_item_at_pos(s, q1) {
            Err(e) => ClassStep::Fail(e),
            Ok((EscItem::Ranges(rs), q3)) => ClassStep::Next(q3, lhs, insert_all_ranges(cur, &rs)),
            Ok((EscItem::Lit(lo), q3)) => {
                let ghost lv = lhs_view(lhs);
                match class_range_step(s, q, q1, q3, lo, f, open, neg, Ghost(lv), cur, first) {
                    Err(e) => ClassStep::Fail(e),
                    Ok((q2, cur2)) => ClassStep::Next(q2, lhs, cur2),
                }
            },
        }
    }
}

/// See `syntax::class_open`.
fn class_open_at(s: &[char], p: usize, f: Flags) -> (r: Result<(Vec<ClassUnicodeRange>, usize), Error>)
    requires
        p < s.len(),
    ensures
        match r {
            Ok((v, q)) => class_open(s@, p as int, f) == Ok::<(Seq<SRange>, int), Error>(
                (rview(v@), q as int),
            ) && p < q <= s.len(),
            Err(e) => class_open(s@, p as int, f) == Err::<(Seq<SRange>, int), Error>(e),
        },
    decreases s.len() - p, 0int,
{
    let x = f.ignore_whitespace;
    let q0 = skip_space_at(s, p + 1, x);
    let neg = q0 < s.len() && s[q0] == '^';
    let q2 = if neg {
        skip_space_at(s, q0 + 1, x)
    } else {
        q0
    };
    let mut q = q2;
    let mut lhs: Option<(ClassOp, Vec<ClassUnicodeRange>)> = None;
    let mut cur: Vec<ClassUnicodeRange> = Vec::new();
    let mut first = true;
    assert(rview(cur@) =~= Seq::<SRange>::empty());
    loop
        invariant
            p < q <= s.len(),
            class_loop(s@, q as int, f, p as int, neg, lhs_view(lhs), rview(cur@), first)
                == class_open(s@, p as int, f),
        decreases s.len() - q,
    {
        match class_step(s, q, f, p, neg, lhs, cur, first) {
            ClassStep::Done(v, q3) => {
                return Ok((v, q3));
            },
            ClassStep::Fail(e) => {
                return Err(e);
            },
            ClassStep::Next(q3, lhs3, cur3) => {
                q = q3;
                lhs = lhs3;
                cur = cur3;
                first = false;
            },
        }
    }
}

/// An open group.
struct Frame {
    open: usize,
    capture: Option<usize>,
    saved: Flags,
    concat: Vec<Hir>,
    alts: Vec<Hir>,
}

spec fn capture_view(c: Option<usize>) -> Option<int> {
    match c {
        Some(i) => Some(i as int),
        None => None,
    }
}

spec fn frame_view(fr: Frame) -> SFrame {
    SFrame {
        open: fr.open as int,
        capture: capture_view(fr.capture),
        saved: fr.saved,
        concat: hirs_view(fr.concat@),
        alts: hirs_view(fr.alts@),
    }
}

spec fn frames_view(v: Seq<Frame>) -> Seq<SFrame> {
    v.map_values(|fr: Frame| frame_view(fr))
}

/// The parser's state.
struct State {
    pos: usize,
    flags: Flags,
    concat: Vec<Hir>,
    after_directive: bool,
    alts: Vec<Hir>,
    stack: Vec<Frame>,
    caps: usize,
    names: Vec<Vec<char>>,
}

spec fn state_view(st: State) -> SState {
    SState {
        pos: st.pos as int,
        flags: st.flags,
        concat: hirs_view(st.concat@),
        after_directive: st.after_directive,
        alts: hirs_view(st.alts@),
        stack: frames_view(st.stack@),
        caps: st.caps as int,
        names: names_view(st.names@),
    }
}

/// A sequence of pieces as one expression (see `syntax::concat_hir`).
fn concat_node(pieces: Vec<Hir>) -> (h: Hir)
    ensures
        hir_view(h) == concat_hir(hirs_view(pieces@)),
{
    proof {
        lemma_hirs_view_len(pieces@);
    }
    if pieces.len() == 0 {
        Hir::Empty
    } else if pieces.len() == 1 {
        let mut pieces = pieces;
        proof {
            lemma_hirs_view_drop_last(pieces@);
        }
        let h = pieces.pop().unwrap();
        h
    } else {
        Hir::Concat(pieces)
    }
}

/// See `syntax::alt_hir`.
fn alt_node(alts: Vec<Hir>, concat: Vec<Hir>) -> (h: Hir)
    ensures
        hir_view(h) == alt_hir(hirs_view(alts@), hirs_view(concat@)),
{
    let mut all = alts;
    let last = concat_node(concat);
    proof {
        lemma_hirs_view_push(all@, last);
    }
    all.push(last);
    proof {
        lemma_hirs_view_len(all@);
    }
    if all.len() == 1 {
        proof {
            lemma_hirs_view_drop_last(all@);
        }
        let h = all.pop().unwrap();
        h
    } else {
        Hir::Alternation(all)
    }
}

fn push_node(st: State, h: Hir, q: usize) -> (r: State)
    ensures
        state_view(r) == push_piece(state_view(st), hir_view(h), q as int),
        r.caps == st.caps,
{
    let mut st = st;
    proof {
        lemma_hirs_view_push(st.concat@, h);
    }
    st.concat.push(h);
    st.pos = q;
    st.after_directive = false;
    st
}

fn literal_node(c: char, f: Flags) -> (h: Hir)
    ensures
        hir_view(h) == literal_hir(c, f),
{
    if !f.case_insensitive {
        return Hir::Literal(c);
    }
    let mut v: Vec<ClassUnicodeRange> = Vec::new();
    let r = ClassUnicodeRange { start: c, end: c };
    proof {
        lemma_rview_push(v@, r);
    }
    v.push(r);
    assert(rview(v@) =~= seq![(c as int, c as int)]);
    let folded = case_fold_ranges(&v);
    if folded.len() == 1 && folded[0].start == c && folded[0].end == c {
        assert(rview(folded@) =~= seq![(c as int, c as int)]);
        Hir::Literal(c)
    } else {
        proof {
            if rview(folded@) == seq![(c as int, c as int)] {
                assert(rview(folded@)[0] == folded@[0]@);
            }
        }
        Hir::Class(Class::Unicode(ClassUnicode { ranges: folded }))
    }
}

fn class_node(rs: Vec<ClassUnicodeRange>, f: Flags) -> (h: Hir)
    ensures
        hir_view(h) == class_hir(rview(rs@), f),
{
    if f.case_insensitive {
        Hir::Class(Class::Unicode(ClassUnicode { ranges: case_fold_ranges(&rs) }))
    } else {
        Hir::Class(Class::Unicode(ClassUnicode { ranges: rs }))
    }
}

fn dot_node(f: Flags) -> (h: Hir)
    ensures
        hir_view(h) == SHir::Class(dot_ranges(f)),
{
    let mut v: Vec<ClassUnicodeRange> = Vec::new();
    if f.dot_matches_new_line {
        let r = ClassUnicodeRange { start: '\0', end: '\u{10FFFF}' };
        proof {
            lemma_rview_push(v@, r);
        }
        v.push(r);
    } else if f.crlf {
        let r1 = ClassUnicodeRange { start: '\0', end: '\t' };
        let r2 = ClassUnicodeRange { start: '\x0B', end: '\x0C' };
        let r3 = ClassUnicodeRange { start: '\x0E', end: '\u{10FFFF}' };
        proof {
            lemma_rview_push(v@, r1);
            lemma_rview_push(v@.push(r1), r2);
            lemma_rview_push(v@.push(r1).push(r2), r3);
        }
        v.push(r1);
        v.push(r2);
        v.push(r3);
    } else {
        let r1 = ClassUnicodeRange { start: '\0', end: '\t' };
        let r2 = ClassUnicodeRange { start: '\x0B', end: '\u{10FFFF}' };
        proof {
            lemma_rview_push(v@, r1);
            lemma_rview_push(v@.push(r1), r2);
        }
        v.push(r1);
        v.push(r2);
    }
    assert(rview(v@) =~= dot_ranges(f));
    Hir::Class(Class::Unicode(ClassUnicode { ranges: v }))
}

fn set_flag_exec(f: Flags, c: char, v: bool) -> (r: Flags)
    ensures
        r == set_flag(f, c, v),
{
    if c == 'i' {
        Flags { case_insensitive: v, ..f }
    } else if c == 'm' {
        Flags { multi_line: v, ..f }
    } else if c == 's' {
        Flags { dot_matches_new_line: v, ..f }
    } else if c == 'U' {
        Flags { swap_greed: v, ..f }
    } else if c == 'x' {
        Flags { ignore_whitespace: v, ..f }
    } else if c == 'R' {
        Flags { crlf: v, ..f }
    } else {
        f
    }
}

/// See `syntax::flags_at` (started with no negation and no flag seen).
fn flags_at_pos(s: &[char], q0: usize, f0: Flags) -> (r: Result<(Flags, usize, bool), Error>)
    requires
        q0 <= s.len(),
    ensures
        match r {
            Ok((f, t, d)) => flags_at(s@, q0 as int, f0, false, false, 0) == Ok::<
                (Flags, int, bool),
                Error,
            >((f, t as int, d)) && q0 <= t < s.len(),
            Err(e) => flags_at(s@, q0 as int, f0, false, false, 0) == Err::<
                (Flags, int, bool),
                Error,
            >(e),
        },
{
    let mut q = q0;
    let mut f = f0;
    let mut negating = false;
    let mut pending = false;
    let mut count: usize = 0;
    loop
        invariant
            q0 <= q <= s.len(),
            count <= q - q0,
            flags_at(s@, q as int, f, negating, pending, count as int) == flags_at(
                s@,
                q0 as int,
                f0,
                false,
                false,
                0,
            ),
        decreases s.len() - q,
    {
        if q >= s.len() {
            return Err(Error { kind: ErrorKind::FlagUnexpectedEof, offset: q });
        }
        let c = s[q];
        if c == ':' || c == ')' {
            if pending {
                return Err(Error { kind: ErrorKind::FlagDanglingNegation, offset: q - 1 });
            } else if c == ')' && count == 0 {
                return Err(Error { kind: ErrorKind::FlagEmpty, offset: q });
            } else {
                return Ok((f, q, c == ')'));
            }
        } else if c == '-' {
            if negating {
                return Err(Error { kind: ErrorKind::FlagRepeatedNegation, offset: q });
            }
            negating = true;
            pending = true;
            count = count + 1;
            q = q + 1;
        } else if !(c == 'i' || c == 'm' || c == 's' || c == 'U' || c == 'x' || c == 'R' || c
            == 'u') {
            return Err(Error { kind: ErrorKind::FlagUnrecognized, offset: q });
        } else if occurs_between(s, q - count, q, c) {
            return Err(Error { kind: ErrorKind::FlagDuplicate, offset: q });
        } else if c == 'u' && negating {
            return Err(Error { kind: ErrorKind::Unsupported, offset: q });
        } else {
            f = set_flag_exec(f, c, !negating);
            pending = false;
            count = count + 1;
            q = q + 1;
        }
    }
}

spec fn state_ok(st: State, n: int) -> bool {
    &&& st.pos <= n
    &&& st.caps <= st.pos
}

proof fn lemma_frames_view_push(v: Seq<Frame>, fr: Frame)
    ensures
        frames_view(v.push(fr)) == frames_view(v).push(frame_view(fr)),
{
    assert(frames_view(v.push(fr)) =~= frames_view(v).push(frame_view(fr)));
}

proof fn lemma_frames_view_drop_last(v: Seq<Frame>)
    requires
        v.len() > 0,
    ensures
        frames_view(v.drop_last()) == frames_view(v).drop_last(),
        frames_view(v).last() == frame_view(v.last()),
        frames_view(v).len() == v.len(),
{
    assert(frames_view(v.drop_last()) =~= frames_view(v).drop_last());
}

/// See `syntax::open_capture`.
fn open_capture_exec(st: State, q: usize) -> (r: State)
    requires
        st.caps <= st.pos < q,
    ensures
        state_view(r) == open_capture(state_view(st), q as int),
        r.pos == q,
        r.caps == st.caps + 1,
{
    let p = st.pos;
    let State { pos: _, flags, concat, after_directive: _, alts, stack, caps, names } = st;
    let fr = Frame { open: p, capture: Some(caps), saved: flags, concat, alts };
    let mut stack = stack;
    proof {
        lemma_frames_view_push(stack@, fr);
    }
    stack.push(fr);
    let st2 = State {
        pos: q,
        flags,
        concat: Vec::new(),
        after_directive: false,
        alts: Vec::new(),
        stack,
        caps: caps + 1,
        names,
    };
    assert(hirs_view(st2.concat@) =~= Seq::<SHir>::empty());
    assert(hirs_view(st2.alts@) =~= Seq::<SHir>::empty());
    st2
}

/// A named group whose name starts at `n0`.
fn open_named_exec(s: &[char], st: State, n0: usize) -> (r: Result<State, Error>)
    requires
        st.pos < n0 <= s.len(),
        state_ok(st, s.len() as int),
    ensures
        match r {
            Ok(st2) => (match name_at(s@, n0 as int, state_view(st).names) {
                Ok((n, t)) => state_view(st2) == SState {
                    names: state_view(st).names.push(n),
                    ..open_capture(state_view(st), t)
                },
                Err(_) => false,
            }) && st.pos < st2.pos <= s.len() && state_ok(st2, s.len() as int),
            Err(e) => name_at(s@, n0 as int, state_view(st).names) == Err::<(Seq<char>, int), Error>(e),
        },
{
    match name_at_pos(s, n0, &st.names) {
        Err(e) => Err(e),
        Ok((nm, t)) => {
            let ghost before = state_view(st);
            let ghost nv = nm@;
            let mut st2 = open_capture_exec(st, t);
            let mut names = Vec::new();
            std::mem::swap(&mut names, &mut st2.names);
            assert(names_view(names@.push(nm)) =~= names_view(names@).push(nv));
            names.push(nm);
            st2.names = names;
            assert(state_view(st2) =~= SState { names: before.names.push(nv), ..open_capture(before, t as int) });
            Ok(st2)
        },
    }
}

/// See `syntax::open_group`.
#[verifier::rlimit(30)]
fn open_group_exec(s: &[char], st: State) -> (r: Result<State, Error>)
    requires
        st.pos < s.len(),
        state_ok(st, s.len() as int),
    ensures
        match r {
            Ok(st2) => open_group(s@, state_view(st)) == Ok::<SState, Error>(state_view(st2))
                && st.pos < st2.pos <= s.len() && state_ok(st2, s.len() as int),
            Err(e) => open_group(s@, state_view(st)) == Err::<SState, Error>(e),
        },
{
    let p = st.pos;
    let mut st = st;
    if p < s.len() - 1 && s[p + 1] == '?' {
        let q = p + 2;
        if q < s.len() && ((s[q] == '=' || s[q] == '!') || (q + 1 < s.len() && s[q] == '<' && (s[q
            + 1] == '=' || s[q + 1] == '!'))) {
            return Err(Error { kind: ErrorKind::UnsupportedLookAround, offset: p });
        }
        if q < s.len() && s[q] == '<' {
            return open_named_exec(s, st, q + 1);
        }
        if q < s.len() && q + 1 < s.len() && s[q] == 'P' && s[q + 1] == '<' {
            return open_named_exec(s, st, q + 2);
        }
        match flags_at_pos(s, q, st.flags) {
            Err(e) => Err(e),
            Ok((f2, t, directive)) => {
                if directive {
                    st.pos = t + 1;
                    st.flags = f2;
                    st.after_directive = true;
                    Ok(st)
                } else {
                    let State { pos: _, flags, concat, after_directive: _, alts, stack, caps, names } =
                        st;
                    let fr = Frame { open: p, capture: None, saved: flags, concat, alts };
                    let mut stack = stack;
                    proof {
                        lemma_frames_view_push(stack@, fr);
                    }
                    stack.push(fr);
                    let st2 = State {
                        pos: t + 1,
                        flags: f2,
                        concat: Vec::new(),
                        after_directive: false,
                        alts: Vec::new(),
                        stack,
                        caps,
                        names,
                    };
                    assert(hirs_view(st2.concat@) =~= Seq::<SHir>::empty());
                    assert(hirs_view(st2.alts@) =~= Seq::<SHir>::empty());
                    Ok(st2)
                }
            },
        }
    } else {
        Ok(open_capture_exec(st, p + 1))
    }
}

/// See `syntax::close_group`.
fn close_group_exec(st: State) -> (r: Result<State, Error>)
    requires
        st.pos < usize::MAX,
    ensures
        match r {
            Ok(st2) => close_group(state_view(st)) == Ok::<SState, Error>(state_view(st2))
                && st2.pos == st.pos + 1 && st2.caps == st.caps,
            Err(e) => close_group(state_view(st)) == Err::<SState, Error>(e),
        },
{
    let mut st = st;
    if st.stack.len() == 0 {
        return Err(Error { kind: ErrorKind::GroupUnopened, offset: st.pos });
    }
    proof {
        lemma_frames_view_drop_last(st.stack@);
    }
    let fr = st.stack.pop().unwrap();
    let State { pos, flags: _, concat, after_directive: _, alts, stack, caps, names } = st;
    let body = alt_node(alts, concat);
    let node = match fr.capture {
        Some(i) => Hir::Capture { index: i, sub: Box::new(body) },
        None => body,
    };
    let mut outer = fr.concat;
    proof {
        lemma_hirs_view_push(outer@, node);
    }
    outer.push(node);
    let r = State {
        pos: pos + 1,
        flags: fr.saved,
        concat: outer,
        after_directive: false,
        alts: fr.alts,
        stack,
        caps,
        names,
    };
    Ok(r)
}

/// See `syntax::repeat`.
fn repeat_exec(s: &[char], st: State, min: u32, max: Option<u32>, q: usize) -> (r: State)
    requires
        st.concat.len() > 0,
        q <= s.len(),
    ensures
        state_view(r) == repeat(s@, state_view(st), min, max, q as int),
        q <= r.pos <= s.len(),
        r.caps == st.caps,
{
    let mut st = st;
    let lazy = q < s.len() && s[q] == '?';
    let q2 = if lazy {
        q + 1
    } else {
        q
    };
    let greedy = lazy == st.flags.swap_greed;
    proof {
        lemma_hirs_view_drop_last(st.concat@);
    }
    let sub = st.concat.pop().unwrap();
    let node = Hir::Repetition { min, max, greedy, sub: Box::new(sub) };
    proof {
        lemma_hirs_view_push(st.concat@, node);
    }
    st.concat.push(node);
    st.pos = q2;
    st.after_directive = false;
    st
}

/// See `syntax::step`.
fn step_exec(s: &[char], st: State) -> (r: Result<State, Error>)
    requires
        st.pos < s.len(),
        state_ok(st, s.len() as int),
    ensures
        match r {
            Ok(st2) => step(s@, state_view(st)) == Ok::<SState, Error>(state_view(st2)) && st.pos
                < st2.pos <= s.len() && state_ok(st2, s.len() as int),
            Err(e) => step(s@, state_view(st)) == Err::<SState, Error>(e),
        },
{
    let p = st.pos;
    let c = s[p];
    let f = st.flags;
    if c == '(' {
        open_group_exec(s, st)
    } else if c == ')' {
        close_group_exec(st)
    } else if c == '|' {
        let State { pos: _, flags, concat, after_directive: _, alts, stack, caps, names } = st;
        let node = concat_node(concat);
        let mut alts = alts;
        proof {
            lemma_hirs_view_push(alts@, node);
        }
        alts.push(node);
        let st2 = State {
            pos: p + 1,
            flags,
            concat: Vec::new(),
            after_directive: false,
            alts,
            stack,
            caps,
            names,
        };
        assert(hirs_view(st2.concat@) =~= Seq::<SHir>::empty());
        Ok(st2)
    } else if c == '[' {
        match class_open_at(s, p, f) {
            Err(e) => Err(e),
            Ok((rs, q)) => Ok(
                push_node(st, Hir::Class(Class::Unicode(ClassUnicode { ranges: rs })), q),
            ),
        }
    } else if c == '*' || c == '+' || c == '?' || c == '{' {
        proof {
            lemma_hirs_view_len(st.concat@);
        }
        if st.concat.len() == 0 || st.after_directive {
            Err(Error { kind: ErrorKind::RepetitionMissing, offset: p })
        } else if c == '*' {
            Ok(repeat_exec(s, st, 0, None, p + 1))
        } else if c == '+' {
            Ok(repeat_exec(s, st, 1, None, p + 1))
        } else if c == '?' {
            Ok(repeat_exec(s, st, 0, Some(1), p + 1))
        } else {
            match count_at_pos(s, p, f.ignore_whitespace) {
                Err(e) => Err(e),
                Ok((m, mx, q)) => Ok(repeat_exec(s, st, m, mx, q)),
            }
        }
    } else if c == '.' {
        Ok(push_node(st, dot_node(f), p + 1))
    } else if c == '^' {
        let l = if !f.multi_line {
            Look::Start
        } else if f.crlf {
            Look::StartCRLF
        } else {
            Look::StartLF
        };
        Ok(push_node(st, Hir::Look(l), p + 1))
    } else if c == '$' {
        let l = if !f.multi_line {
            Look::End
        } else if f.crlf {
            Look::EndCRLF
        } else {
            Look::EndLF
        };
        Ok(push_node(st, Hir::Look(l), p + 1))
    } else if c == '\\' && p + 1 < s.len() && look_escape_char(s[p + 1]).is_some() {
        match look_at_pos(s, p, f.ignore_whitespace) {
            Err(e) => Err(e),
            Ok((l, q)) => Ok(push_node(st, Hir::Look(l), q)),
        }
    } else if c == '\\' {
        match escape_at_pos(s, p) {
            Err(e) => Err(e),
            Ok((EscItem::Lit(l), q)) => Ok(push_node(st, literal_node(l, f), q)),
            Ok((EscItem::Ranges(rs), q)) => Ok(push_node(st, class_node(rs, f), q)),
        }
    } else {
        Ok(push_node(st, literal_node(c, f), p + 1))
    }
}

/// See `syntax::finish`.
fn finish_exec(st: State) -> (r: Result<Hir, Error>)
    ensures
        match r {
            Ok(h) => finish(state_view(st)) == Ok::<SHir, Error>(hir_view(h)),
            Err(e) => finish(state_view(st)) == Err::<SHir, Error>(e),
        },
{
    if st.stack.len() > 0 {
        proof {
            lemma_frames_view_drop_last(st.stack@);
        }
        let open = st.stack[st.stack.len() - 1].open;
        Err(Error { kind: ErrorKind::GroupUnclosed, offset: open })
    } else {
        Ok(alt_node(st.alts, st.concat))
    }
}

/// The model of a parse result.
pub open spec fn result_view(r: Result<Hir, Error>) -> Result<SHir, Error> {
    match r {
        Ok(h) => Ok(hir_view(h)),
        Err(e) => Err(e),
    }
}

/// Parses a pattern given as characters.
pub fn parse_chars(s: &[char]) -> (r: Result<Hir, Error>)
    ensures
        result_view(r) == spec_parse(s@),
{
    let mut st = State {
        pos: 0,
        flags: Flags::new(),
        concat: Vec::new(),
        after_directive: false,
        alts: Vec::new(),
        stack: Vec::new(),
        caps: 0,
        names: Vec::new(),
    };
    assert(state_view(st) =~= initial_state()) by {
        assert(names_view(st.names@) =~= Seq::<Seq<char>>::empty());
        assert(hirs_view(st.concat@) =~= Seq::<SHir>::empty());
        assert(frames_view(st.stack@) =~= Seq::<SFrame>::empty());
    }
    loop
        invariant
            state_ok(st, s.len() as int),
            run(s@, state_view(st)) == spec_parse(s@),
        decreases s.len() - st.pos,
    {
        let p = skip_space_at(s, st.pos, st.flags.ignore_whitespace);
        if p == s.len() {
            let ghost before = state_view(st);
            st.pos = p;
            assert(state_view(st) == SState { pos: p as int, ..before });
            return finish_exec(st);
        }
        let ghost before = state_view(st);
        st.pos = p;
        assert(state_view(st) == SState { pos: p as int, ..before });
        match step_exec(s, st) {
            Err(e) => {
                return Err(e);
            },
            Ok(st2) => {
                st = st2;
            },
        }
    }
}

/// The characters of a string.
pub fn str_chars(s: &str) -> (v: Vec<char>)
    ensures
        v@ == s@,
{
    let mut v: Vec<char> = Vec::new();
    broadcast use vstd::string::group_string_axioms;

    for c in it: s.chars()
        invariant
            it.seq() == s@,
            v.len() == it.index(),
            v@ == s@.take(v.len() as int),
    {
        assert(s@.take(v.len() + 1) =~= s@.take(v.len() as int).push(c));
        v.push(c);
    }
    assert(s@.take(v.len() as int) =~= s@);
    v
}

/// Parses a pattern into an expression; the result is exactly `spec_parse`
/// of the pattern's characters.
pub fn parse(pattern: &str) -> (r: Result<Hir, Error>)
    ensures
        result_view(r) == spec_parse(pattern@),
{
    let v = str_chars(pattern);
    parse_chars(v.as_slice())
}

} // verus!
