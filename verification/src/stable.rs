//! Printing an expression that the parser built, and parsing the pattern
//! again, gives back the same expression: the parser's expressions have
//! canonical classes, sequences and alternations of at least two parts, and
//! captures numbered in the order of their `(`, and on such expressions the
//! parser undoes the printer exactly.
use vstd::prelude::*;
use crate::ranges::{SRange, canonical, range_ok, succ, insert, insert_all, intersect, intersect_acc, clip};
use crate::hir::{SHir, Error};
use crate::syntax::{
    SState, SFrame, run, step, skip_space, class_open, escape_at, Esc, push_piece, open_group,
    close_group, count_at, repeat, concat_hir, alt_hir, literal_hir, class_hir, dot_ranges,
    spec_parse, initial_state,
};
use crate::print::print_hir;
use crate::roundtrip::{
    reparse, reparse_seq, reparse_class, law_parse_printable, law_print_then_parse,
    lemma_class_open_canonical, lemma_escape_canonical,
};

verus! {

// ---------------------------------------------------------------------------
// Canonical classes are rebuilt unchanged
// ---------------------------------------------------------------------------

proof fn lemma_succ_above(x: int)
    ensures
        x < succ(x),
{
}

/// In a canonical class every range ends more than one scalar value before
/// each later range starts.
proof fn lemma_canonical_gap(s: Seq<SRange>, j: int)
    requires
        canonical(s),
        0 < j < s.len(),
    ensures
        succ(s[0].1) < s[j].0,
    decreases j,
{
    if j > 1 {
        let t = s.drop_first();
        assert(canonical(t));
        lemma_canonical_gap(t, j - 1);
        assert(range_ok(t[0]));
        lemma_succ_above(s[1].1);
    }
}

proof fn lemma_canonical_take(s: Seq<SRange>, k: int)
    requires
        canonical(s),
        0 <= k <= s.len(),
    ensures
        canonical(s.take(k)),
    decreases s.len(),
{
    if k > 0 {
        let t = s.take(k);
        lemma_canonical_take(s.drop_first(), k - 1);
        assert(t.drop_first() =~= s.drop_first().take(k - 1));
        if t.len() > 1 {
            assert(t[1] == s[1]);
        }
    }
}

/// A range that lies beyond every range of a canonical class is added at its end.
proof fn lemma_insert_last(a: Seq<SRange>, r: SRange)
    requires
        canonical(a.push(r)),
    ensures
        insert(a, r) == a.push(r),
    decreases a.len(),
{
    let s = a.push(r);
    if a.len() == 0 {
        assert(seq![r] =~= a.push(r));
    } else {
        lemma_canonical_gap(s, a.len() as int);
        assert(s[a.len() as int] == r);
        assert(s.drop_first() =~= a.drop_first().push(r));
        lemma_insert_last(a.drop_first(), r);
        assert(seq![a[0]] + a.drop_first().push(r) =~= a.push(r));
    }
}

proof fn lemma_insert_all_append(a: Seq<SRange>, b: Seq<SRange>)
    requires
        canonical(a + b),
    ensures
        insert_all(a, b) == a + b,
    decreases b.len(),
{
    if b.len() == 0 {
        assert(a + b =~= a);
    } else {
        lemma_canonical_take(a + b, a.len() as int + 1);
        assert((a + b).take(a.len() as int + 1) =~= a.push(b[0]));
        lemma_insert_last(a, b[0]);
        assert(a.push(b[0]) + b.drop_first() =~= a + b);
        lemma_insert_all_append(a.push(b[0]), b.drop_first());
    }
}

/// The parser rebuilds a printed canonical class unchanged.
pub proof fn lemma_reparse_class(rs: Seq<SRange>)
    requires
        canonical(rs),
    ensures
        reparse_class(rs) == rs,
{
    if rs.len() == 0 {
        let a = seq![(0x61int, 0x61int)];
        let b = seq![(0x62int, 0x62int)];
        assert(b.drop_first() =~= Seq::<SRange>::empty());
        assert(clip(a[0], b.drop_first()) == Seq::<SRange>::empty());
        assert(clip(a[0], b) == Seq::<SRange>::empty());
        assert(insert_all(Seq::<SRange>::empty(), clip(a[0], b)) == Seq::<SRange>::empty());
        assert(a.drop_first() =~= Seq::<SRange>::empty());
        assert(intersect_acc(a.drop_first(), b, Seq::<SRange>::empty()) == Seq::<SRange>::empty());
        assert(intersect(a, b) == Seq::<SRange>::empty());
    } else {
        assert(Seq::<SRange>::empty() + rs =~= rs);
        lemma_insert_all_append(Seq::empty(), rs);
    }
}

// ---------------------------------------------------------------------------
// The expressions that the parser builds
// ---------------------------------------------------------------------------

/// The number of capture groups in an expression.
pub open spec fn ncaps(h: SHir) -> int
    decreases h,
{
    match h {
        SHir::Repetition { min, max, greedy, sub } => ncaps(*sub),
        SHir::Capture { index, sub } => 1 + ncaps(*sub),
        SHir::Concat(hs) => ncaps_seq(hs),
        SHir::Alternation(hs) => ncaps_seq(hs),
        _ => 0,
    }
}

pub open spec fn ncaps_seq(hs: Seq<SHir>) -> int
    decreases hs,
{
    if hs.len() == 0 {
        0
    } else {
        ncaps_seq(hs.subrange(0, hs.len() - 1)) + ncaps(hs[hs.len() - 1])
    }
}

/// `h` has the shape of the parser's expressions (canonical classes, sequences
/// and alternations of at least two parts), and its captures are numbered in
/// order from `c`.
pub open spec fn settled(h: SHir, c: int) -> bool
    decreases h,
{
    match h {
        SHir::Class(rs) => canonical(rs),
        SHir::Repetition { min, max, greedy, sub } => settled(*sub, c),
        SHir::Capture { index, sub } => index == c && settled(*sub, c + 1),
        SHir::Concat(hs) => hs.len() >= 2 && settled_seq(hs, c),
        SHir::Alternation(hs) => hs.len() >= 2 && settled_seq(hs, c),
        _ => true,
    }
}

/// Each expression of `hs` is settled, its captures numbered after those of
/// the expressions before it, from `c` on.
pub open spec fn settled_seq(hs: Seq<SHir>, c: int) -> bool
    decreases hs,
{
    hs.len() == 0 || (settled_seq(hs.subrange(0, hs.len() - 1), c) && settled(
        hs[hs.len() - 1],
        c + ncaps_seq(hs.subrange(0, hs.len() - 1)),
    ))
}

/// `reparse` leaves a settled expression as it is.
pub proof fn lemma_reparse_settled(h: SHir, c: int)
    requires
        settled(h, c),
    ensures
        reparse(h, c) == (h, c + ncaps(h)),
    decreases h,
{
    match h {
        SHir::Class(rs) => {
            lemma_reparse_class(rs);
        },
        SHir::Repetition { min, max, greedy, sub } => {
            lemma_reparse_settled(*sub, c);
        },
        SHir::Capture { index, sub } => {
            lemma_reparse_settled(*sub, c + 1);
        },
        SHir::Concat(hs) => {
            lemma_reparse_seq_settled(hs, c);
        },
        SHir::Alternation(hs) => {
            lemma_reparse_seq_settled(hs, c);
            let last = hs.last();
            assert(concat_hir(seq![last]) == last);
            assert(hs.drop_last().push(concat_hir(seq![last])) =~= hs);
        },
        _ => {},
    }
}

pub proof fn lemma_reparse_seq_settled(hs: Seq<SHir>, c: int)
    requires
        settled_seq(hs, c),
    ensures
        reparse_seq(hs, c) == (hs, c + ncaps_seq(hs)),
    decreases hs,
{
    if hs.len() > 0 {
        let init = hs.subrange(0, hs.len() - 1);
        lemma_reparse_seq_settled(init, c);
        lemma_reparse_settled(hs[hs.len() - 1], c + ncaps_seq(init));
        assert(init.push(hs[hs.len() - 1]) =~= hs);
    }
}

// ---------------------------------------------------------------------------
// Sequences of settled expressions
// ---------------------------------------------------------------------------

proof fn lemma_settled_push(hs: Seq<SHir>, x: SHir, c: int)
    ensures
        settled_seq(hs.push(x), c) == (settled_seq(hs, c) && settled(x, c + ncaps_seq(hs))),
        ncaps_seq(hs.push(x)) == ncaps_seq(hs) + ncaps(x),
{
    assert(hs.push(x).subrange(0, hs.len() as int) =~= hs);
}

proof fn lemma_settled_drop_last(hs: Seq<SHir>, c: int)
    requires
        hs.len() > 0,
        settled_seq(hs, c),
    ensures
        settled_seq(hs.drop_last(), c),
        settled(hs.last(), c + ncaps_seq(hs.drop_last())),
        ncaps_seq(hs) == ncaps_seq(hs.drop_last()) + ncaps(hs.last()),
{
    assert(hs.drop_last() =~= hs.subrange(0, hs.len() - 1));
}

proof fn lemma_concat_hir_settled(hs: Seq<SHir>, c: int)
    requires
        settled_seq(hs, c),
    ensures
        settled(concat_hir(hs), c),
        ncaps(concat_hir(hs)) == ncaps_seq(hs),
{
    if hs.len() == 1 {
        assert(hs.subrange(0, 0) =~= Seq::<SHir>::empty());
        assert(hs[0] == hs[hs.len() - 1]);
    }
}

proof fn lemma_alt_hir_settled(alts: Seq<SHir>, concat: Seq<SHir>, c: int)
    requires
        settled_seq(alts, c),
        settled_seq(concat, c + ncaps_seq(alts)),
    ensures
        settled(alt_hir(alts, concat), c),
        ncaps(alt_hir(alts, concat)) == ncaps_seq(alts) + ncaps_seq(concat),
{
    lemma_concat_hir_settled(concat, c + ncaps_seq(alts));
    lemma_settled_push(alts, concat_hir(concat), c);
    let all = alts.push(concat_hir(concat));
    if all.len() == 1 {
        assert(all[0] == all[all.len() - 1]);
        assert(alts.len() == 0);
    }
}

// ---------------------------------------------------------------------------
// The parser keeps its state settled
// ---------------------------------------------------------------------------

/// The next capture index after the groups of a stack of open groups.
pub open spec fn frames_next(fs: Seq<SFrame>) -> int
    decreases fs.len(),
{
    if fs.len() == 0 {
        0
    } else {
        let f = fs.last();
        let c = frames_next(fs.drop_last()) + ncaps_seq(f.alts) + ncaps_seq(f.concat);
        if f.capture is Some {
            c + 1
        } else {
            c
        }
    }
}

/// The saved sequences of each open group are settled, numbered in the order
/// of the pattern, and each capturing group has the next index after them.
pub open spec fn frames_settled(fs: Seq<SFrame>) -> bool
    decreases fs.len(),
{
    fs.len() == 0 || {
        let f = fs.last();
        let c = frames_next(fs.drop_last());
        &&& frames_settled(fs.drop_last())
        &&& settled_seq(f.alts, c)
        &&& settled_seq(f.concat, c + ncaps_seq(f.alts))
        &&& (f.capture matches Some(k) ==> k == c + ncaps_seq(f.alts) + ncaps_seq(f.concat))
    }
}

/// Everything that a state holds is settled, numbered in the order of the
/// pattern, and the state's next capture index follows all of it.
pub open spec fn state_settled(st: SState) -> bool {
    let c = frames_next(st.stack);
    &&& frames_settled(st.stack)
    &&& settled_seq(st.alts, c)
    &&& settled_seq(st.concat, c + ncaps_seq(st.alts))
    &&& st.caps == c + ncaps_seq(st.alts) + ncaps_seq(st.concat)
}

proof fn lemma_push_piece_settled(st: SState, h: SHir, q: int)
    requires
        state_settled(st),
        settled(h, st.caps),
        ncaps(h) == 0,
    ensures
        state_settled(push_piece(st, h, q)),
{
    lemma_settled_push(st.concat, h, frames_next(st.stack) + ncaps_seq(st.alts));
}

proof fn lemma_open_group_settled(s: Seq<char>, st: SState)
    requires
        state_settled(st),
    ensures
        open_group(s, st) matches Ok(st2) ==> state_settled(st2),
{
    if let Ok(st2) = open_group(s, st) {
        if st2.stack.len() > st.stack.len() {
            assert(st2.stack.drop_last() =~= st.stack);
        }
    }
}

proof fn lemma_close_group_settled(st: SState)
    requires
        state_settled(st),
    ensures
        close_group(st) matches Ok(st2) ==> state_settled(st2),
{
    if let Ok(st2) = close_group(st) {
        let fs = st.stack;
        let fr = fs.last();
        let c0 = frames_next(fs.drop_last());
        let cf = c0 + ncaps_seq(fr.alts) + ncaps_seq(fr.concat);
        let cin = frames_next(fs);
        lemma_alt_hir_settled(st.alts, st.concat, cin);
        let body = alt_hir(st.alts, st.concat);
        let node = match fr.capture {
            Some(i) => SHir::Capture { index: i, sub: Box::new(body) },
            None => body,
        };
        assert(settled(node, cf));
        assert(ncaps(node) == st.caps - cf);
        lemma_settled_push(fr.concat, node, c0 + ncaps_seq(fr.alts));
    }
}

proof fn lemma_repeat_settled(s: Seq<char>, st: SState, min: u32, max: Option<u32>, q: int)
    requires
        state_settled(st),
        st.concat.len() > 0,
    ensures
        state_settled(repeat(s, st, min, max, q)),
{
    let c = frames_next(st.stack) + ncaps_seq(st.alts);
    lemma_settled_drop_last(st.concat, c);
    let lazy = 0 <= q < s.len() && s[q] == '?';
    let greedy = lazy == st.flags.swap_greed;
    lemma_settled_push(
        st.concat.drop_last(),
        SHir::Repetition { min, max, greedy, sub: Box::new(st.concat.last()) },
        c,
    );
}

proof fn lemma_literal_settled(ch: char, f: crate::hir::Flags, c: int)
    ensures
        settled(literal_hir(ch, f), c),
        ncaps(literal_hir(ch, f)) == 0,
{
    crate::ranges::lemma_single((ch as int, ch as int));
    crate::fold::lemma_case_fold_canonical(seq![(ch as int, ch as int)]);
}

proof fn lemma_class_hir_settled(rs: Seq<SRange>, f: crate::hir::Flags, c: int)
    requires
        canonical(rs),
    ensures
        settled(class_hir(rs, f), c),
        ncaps(class_hir(rs, f)) == 0,
{
    crate::fold::lemma_case_fold_canonical(rs);
}

/// A step keeps a state settled.
proof fn lemma_step_settled(s: Seq<char>, st: SState)
    requires
        state_settled(st),
        0 <= st.pos < s.len(),
    ensures
        step(s, st) matches Ok(st2) ==> state_settled(st2),
{
    let p = st.pos;
    let ch = s[p];
    let f = st.flags;
    let c = frames_next(st.stack);
    if ch == '(' {
        lemma_open_group_settled(s, st);
    } else if ch == ')' {
        lemma_close_group_settled(st);
    } else if ch == '|' {
        lemma_concat_hir_settled(st.concat, c + ncaps_seq(st.alts));
        lemma_settled_push(st.alts, concat_hir(st.concat), c);
    } else if ch == '[' {
        lemma_class_open_canonical(s, p, f);
        if let Ok((rs, q)) = class_open(s, p, f) {
            lemma_push_piece_settled(st, SHir::Class(rs), q);
        }
    } else if ch == '*' || ch == '+' || ch == '?' || ch == '{' {
        if st.concat.len() == 0 || st.after_directive {
        } else if ch == '*' {
            lemma_repeat_settled(s, st, 0, None, p + 1);
        } else if ch == '+' {
            lemma_repeat_settled(s, st, 1, None, p + 1);
        } else if ch == '?' {
            lemma_repeat_settled(s, st, 0, Some(1), p + 1);
        } else {
            if let Ok((m, mx, q)) = count_at(s, p, f.ignore_whitespace) {
                lemma_repeat_settled(s, st, m, mx, q);
            }
        }
    } else if ch == '.' {
        let d = dot_ranges(f);
        crate::syntax::lemma_dot_canonical(f);
        lemma_push_piece_settled(st, SHir::Class(d), p + 1);
    } else if ch == '^' || ch == '$' {
        let cc = c + ncaps_seq(st.alts);
        lemma_settled_push(st.concat, SHir::Look(crate::syntax::caret_look(f)), cc);
        lemma_settled_push(st.concat, SHir::Look(crate::syntax::dollar_look(f)), cc);
    } else if ch == '\\' && p + 1 < s.len() && crate::syntax::look_escape(s[p + 1]) is Some {
        if let Ok((l, q)) = crate::syntax::look_at(s, p, f.ignore_whitespace) {
            lemma_push_piece_settled(st, SHir::Look(l), q);
        }
    } else if ch == '\\' {
        lemma_escape_canonical(s, p);
        match escape_at(s, p) {
            Err(e) => {},
            Ok((Esc::Lit(l), q)) => {
                lemma_literal_settled(l, f, st.caps);
                lemma_push_piece_settled(st, literal_hir(l, f), q);
            },
            Ok((Esc::Ranges(rs), q)) => {
                lemma_class_hir_settled(rs, f, st.caps);
                lemma_push_piece_settled(st, class_hir(rs, f), q);
            },
        }
    } else {
        lemma_literal_settled(ch, f, st.caps);
        lemma_push_piece_settled(st, literal_hir(ch, f), p + 1);
    }
}

/// A run from a settled state gives an expression settled from 0.
proof fn lemma_run_settled(s: Seq<char>, st: SState)
    requires
        state_settled(st),
    ensures
        run(s, st) matches Ok(h) ==> settled(h, 0),
    decreases s.len() - st.pos,
{
    if st.pos < 0 || st.pos > s.len() {
    } else {
        let p = skip_space(s, st.pos, st.flags.ignore_whitespace);
        if p < st.pos || p > s.len() {
        } else if p == s.len() {
            lemma_alt_hir_settled(st.alts, st.concat, frames_next(st.stack));
        } else {
            lemma_step_settled(s, SState { pos: p, ..st });
            match step(s, SState { pos: p, ..st }) {
                Err(e) => {},
                Ok(st2) => {
                    if st.pos < st2.pos <= s.len() {
                        lemma_run_settled(s, st2);
                    }
                },
            }
        }
    }
}

// ---------------------------------------------------------------------------
// The laws
// ---------------------------------------------------------------------------

/// Every expression that the parser gives is settled: canonical classes,
/// sequences and alternations of at least two parts, captures numbered from 0
/// in the order of their `(`.
pub proof fn law_parse_settled(p: Seq<char>)
    ensures
        spec_parse(p) matches Ok(h) ==> settled(h, 0),
{
    lemma_run_settled(p, initial_state());
}

/// Parsing undoes printing on the parser's own expressions: for every pattern
/// that parses, the printed form of its expression parses to that same
/// expression.
pub proof fn law_parse_print_parse(p: Seq<char>)
    ensures
        spec_parse(p) matches Ok(h) ==> spec_parse(print_hir(h)) == Ok::<SHir, Error>(h),
{
    law_parse_printable(p);
    law_parse_settled(p);
    if let Ok(h) = spec_parse(p) {
        law_print_then_parse(h);
        lemma_reparse_settled(h, 0);
    }
}

} // verus!
