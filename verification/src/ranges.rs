//! The mathematical model of a Unicode character class: a sequence of
//! inclusive code point ranges, and the set operations on it.
//!
//! A class is normalized ("canonical") when its ranges are valid, sorted, and
//! separated by at least one scalar value. Surrogate code points are not
//! characters, so the ranges ending at U+D7FF and starting at U+E000 count as
//! adjacent.
use vstd::prelude::*;

verus! {

/// An inclusive range of code points.
pub type SRange = (int, int);

/// A Unicode scalar value: at most U+10FFFF and not a surrogate.
pub open spec fn valid_cp(x: int) -> bool {
    0 <= x <= 0x10FFFF && !(0xD800 <= x <= 0xDFFF)
}

/// The scalar value that follows `x` (U+10FFFF is followed by 0x110000).
pub open spec fn succ(x: int) -> int {
    if x == 0xD7FF {
        0xE000
    } else {
        x + 1
    }
}

/// The scalar value that precedes `x`.
pub open spec fn pred(x: int) -> int {
    if x == 0xE000 {
        0xD7FF
    } else {
        x - 1
    }
}

pub open spec fn range_ok(r: SRange) -> bool {
    valid_cp(r.0) && valid_cp(r.1) && r.0 <= r.1
}

pub open spec fn in_range(r: SRange, c: int) -> bool {
    r.0 <= c <= r.1
}

/// Every range is valid (non-empty, with scalar value bounds).
pub open spec fn all_ok(rs: Seq<SRange>) -> bool
    decreases rs.len(),
{
    rs.len() == 0 || (range_ok(rs[0]) && all_ok(rs.drop_first()))
}

/// Valid, sorted, and with a gap of at least one scalar value between ranges.
pub open spec fn canonical(rs: Seq<SRange>) -> bool
    decreases rs.len(),
{
    rs.len() == 0 || {
        &&& range_ok(rs[0])
        &&& (rs.len() == 1 || succ(rs[0].1) < rs[1].0)
        &&& canonical(rs.drop_first())
    }
}

/// Membership of a code point in a class.
pub open spec fn contains(rs: Seq<SRange>, c: int) -> bool
    decreases rs.len(),
{
    rs.len() > 0 && (in_range(rs[0], c) || contains(rs.drop_first(), c))
}

pub open spec fn min(a: int, b: int) -> int {
    if a <= b {
        a
    } else {
        b
    }
}

pub open spec fn max(a: int, b: int) -> int {
    if a >= b {
        a
    } else {
        b
    }
}

/// Adds one range to a class, merging it with the ranges it overlaps or touches.
pub open spec fn insert(rs: Seq<SRange>, r: SRange) -> Seq<SRange>
    decreases rs.len(),
{
    if rs.len() == 0 {
        seq![r]
    } else if succ(rs[0].1) < r.0 {
        seq![rs[0]] + insert(rs.drop_first(), r)
    } else if succ(r.1) < rs[0].0 {
        seq![r] + rs
    } else {
        insert(rs.drop_first(), (min(rs[0].0, r.0), max(rs[0].1, r.1)))
    }
}

/// Adds the ranges of `add` to `rs`, in order.
pub open spec fn insert_all(rs: Seq<SRange>, add: Seq<SRange>) -> Seq<SRange>
    decreases add.len(),
{
    if add.len() == 0 {
        rs
    } else {
        insert_all(insert(rs, add[0]), add.drop_first())
    }
}

/// The union of two classes.
pub open spec fn union(a: Seq<SRange>, b: Seq<SRange>) -> Seq<SRange> {
    insert_all(a, b)
}

/// The non-empty intersections of `r` with each range of `b`.
pub open spec fn clip(r: SRange, b: Seq<SRange>) -> Seq<SRange>
    decreases b.len(),
{
    if b.len() == 0 {
        Seq::empty()
    } else {
        let lo = max(r.0, b[0].0);
        let hi = min(r.1, b[0].1);
        let rest = clip(r, b.drop_first());
        if lo <= hi {
            seq![(lo, hi)] + rest
        } else {
            rest
        }
    }
}

pub open spec fn intersect_acc(a: Seq<SRange>, b: Seq<SRange>, acc: Seq<SRange>) -> Seq<SRange>
    decreases a.len(),
{
    if a.len() == 0 {
        acc
    } else {
        intersect_acc(a.drop_first(), b, insert_all(acc, clip(a[0], b)))
    }
}

/// The intersection of two classes.
pub open spec fn intersect(a: Seq<SRange>, b: Seq<SRange>) -> Seq<SRange> {
    intersect_acc(a, b, Seq::empty())
}

/// The scalar values from `start` on that no range of `rs` covers.
pub open spec fn negate_from(rs: Seq<SRange>, start: int) -> Seq<SRange>
    decreases rs.len(),
{
    if rs.len() == 0 {
        if start <= 0x10FFFF {
            seq![(start, 0x10FFFF)]
        } else {
            Seq::empty()
        }
    } else {
        let rest = negate_from(rs.drop_first(), succ(rs[0].1));
        if start < rs[0].0 {
            seq![(start, pred(rs[0].0))] + rest
        } else {
            rest
        }
    }
}

/// The complement of a class among all scalar values.
pub open spec fn negate(rs: Seq<SRange>) -> Seq<SRange> {
    negate_from(rs, 0)
}

/// The class difference `a` minus `b`.
pub open spec fn difference(a: Seq<SRange>, b: Seq<SRange>) -> Seq<SRange> {
    intersect(a, negate(b))
}

/// The symmetric difference of two classes.
pub open spec fn symmetric_difference(a: Seq<SRange>, b: Seq<SRange>) -> Seq<SRange> {
    union(difference(a, b), difference(b, a))
}

// ---------------------------------------------------------------------------
// Lemmas
// ---------------------------------------------------------------------------

pub proof fn lemma_single(x: SRange)
    ensures
        all_ok(seq![x]) == range_ok(x),
        canonical(seq![x]) == range_ok(x),
        forall|c: int| #[trigger] contains(seq![x], c) == in_range(x, c),
{
    let e = Seq::<SRange>::empty();
    assert(seq![x].drop_first() =~= e);
    assert(all_ok(e));
    assert(canonical(e));
    assert(forall|c: int| !contains(e, c));
    assert forall|c: int| #[trigger] contains(seq![x], c) == in_range(x, c) by {
        assert(seq![x][0] == x);
        assert(seq![x].drop_first() =~= e);
        assert(!contains(seq![x].drop_first(), c));
        assert(seq![x].len() == 1);
    }
}

/// The facts about a range put in front of a sequence.
pub proof fn lemma_cons(x: SRange, t: Seq<SRange>)
    ensures
        (seq![x] + t).len() == t.len() + 1,
        (seq![x] + t)[0] == x,
        (seq![x] + t).drop_first() == t,
        t.len() > 0 ==> (seq![x] + t)[1] == t[0],
{
    assert((seq![x] + t).drop_first() =~= t);
}

pub proof fn lemma_canonical_all_ok(rs: Seq<SRange>)
    requires
        canonical(rs),
    ensures
        all_ok(rs),
    decreases rs.len(),
{
    if rs.len() > 0 {
        lemma_canonical_all_ok(rs.drop_first());
    }
}

pub proof fn lemma_all_ok_index(rs: Seq<SRange>, i: int)
    requires
        all_ok(rs),
        0 <= i < rs.len(),
    ensures
        range_ok(rs[i]),
    decreases rs.len(),
{
    if i > 0 {
        lemma_all_ok_index(rs.drop_first(), i - 1);
    }
}

pub proof fn lemma_all_ok_concat(a: Seq<SRange>, b: Seq<SRange>)
    requires
        all_ok(a),
        all_ok(b),
    ensures
        all_ok(a + b),
    decreases a.len(),
{
    if a.len() > 0 {
        lemma_all_ok_concat(a.drop_first(), b);
        assert((a + b).drop_first() =~= a.drop_first() + b);
    } else {
        assert(a + b =~= b);
    }
}

pub proof fn lemma_contains_concat(a: Seq<SRange>, b: Seq<SRange>, c: int)
    ensures
        contains(a + b, c) == (contains(a, c) || contains(b, c)),
    decreases a.len(),
{
    if a.len() > 0 {
        lemma_contains_concat(a.drop_first(), b, c);
        assert((a + b).drop_first() =~= a.drop_first() + b);
    } else {
        assert(a + b =~= b);
    }
}

/// Every code point of a canonical class is at least its first range's start.
pub proof fn lemma_contains_lower(rs: Seq<SRange>, c: int)
    requires
        canonical(rs),
        contains(rs, c),
    ensures
        rs[0].0 <= c,
    decreases rs.len(),
{
    if !in_range(rs[0], c) {
        lemma_contains_lower(rs.drop_first(), c);
    }
}

/// `insert` keeps a class canonical, and its first start is the smaller of the
/// two first starts.
pub proof fn lemma_insert_canonical(rs: Seq<SRange>, r: SRange)
    requires
        canonical(rs),
        range_ok(r),
    ensures
        canonical(insert(rs, r)),
        insert(rs, r).len() > 0,
        rs.len() == 0 ==> insert(rs, r)[0].0 == r.0,
        rs.len() > 0 ==> insert(rs, r)[0].0 == min(rs[0].0, r.0),
    decreases rs.len(),
{
    if rs.len() == 0 {
        lemma_single(r);
    } else if succ(rs[0].1) < r.0 {
        let t = rs.drop_first();
        lemma_cons(rs[0], insert(t, r));
        lemma_insert_canonical(t, r);
    } else if succ(r.1) < rs[0].0 {
        lemma_cons(r, rs);
    } else {
        let t = rs.drop_first();
        let m = (min(rs[0].0, r.0), max(rs[0].1, r.1));
        lemma_insert_canonical(t, m);
    }
}

/// Inserting a range adds exactly its scalar values.
pub proof fn lemma_insert_contains(rs: Seq<SRange>, r: SRange, c: int)
    requires
        all_ok(rs),
        range_ok(r),
        valid_cp(c),
    ensures
        contains(insert(rs, r), c) == (contains(rs, c) || in_range(r, c)),
    decreases rs.len(),
{
    if rs.len() == 0 {
        lemma_single(r);
    } else if succ(rs[0].1) < r.0 {
        let t = rs.drop_first();
        lemma_cons(rs[0], insert(t, r));
        lemma_insert_contains(t, r, c);
    } else if succ(r.1) < rs[0].0 {
        lemma_cons(r, rs);
    } else {
        let t = rs.drop_first();
        let m = (min(rs[0].0, r.0), max(rs[0].1, r.1));
        lemma_insert_contains(t, m, c);
    }
}

pub proof fn lemma_insert_ok(rs: Seq<SRange>, r: SRange)
    requires
        all_ok(rs),
        range_ok(r),
    ensures
        all_ok(insert(rs, r)),
    decreases rs.len(),
{
    if rs.len() == 0 {
        lemma_single(r);
    } else if succ(rs[0].1) < r.0 {
        let t = rs.drop_first();
        lemma_cons(rs[0], insert(t, r));
        lemma_insert_ok(t, r);
    } else if succ(r.1) < rs[0].0 {
        lemma_cons(r, rs);
    } else {
        let t = rs.drop_first();
        let m = (min(rs[0].0, r.0), max(rs[0].1, r.1));
        lemma_insert_ok(t, m);
    }
}

pub proof fn lemma_insert_all_canonical(rs: Seq<SRange>, add: Seq<SRange>)
    requires
        canonical(rs),
        all_ok(add),
    ensures
        canonical(insert_all(rs, add)),
    decreases add.len(),
{
    if add.len() > 0 {
        lemma_insert_canonical(rs, add[0]);
        lemma_insert_all_canonical(insert(rs, add[0]), add.drop_first());
    }
}

pub proof fn lemma_insert_all_ok(rs: Seq<SRange>, add: Seq<SRange>)
    requires
        all_ok(rs),
        all_ok(add),
    ensures
        all_ok(insert_all(rs, add)),
    decreases add.len(),
{
    if add.len() > 0 {
        lemma_insert_ok(rs, add[0]);
        lemma_insert_all_ok(insert(rs, add[0]), add.drop_first());
    }
}

/// The union of classes holds the scalar values of either.
pub proof fn lemma_insert_all_contains(rs: Seq<SRange>, add: Seq<SRange>, c: int)
    requires
        all_ok(rs),
        all_ok(add),
        valid_cp(c),
    ensures
        contains(insert_all(rs, add), c) == (contains(rs, c) || contains(add, c)),
    decreases add.len(),
{
    if add.len() > 0 {
        lemma_insert_contains(rs, add[0], c);
        lemma_insert_ok(rs, add[0]);
        lemma_insert_all_contains(insert(rs, add[0]), add.drop_first(), c);
    }
}

pub proof fn lemma_clip_ok(r: SRange, b: Seq<SRange>)
    requires
        range_ok(r),
        all_ok(b),
    ensures
        all_ok(clip(r, b)),
    decreases b.len(),
{
    if b.len() > 0 {
        lemma_clip_ok(r, b.drop_first());
        let lo = max(r.0, b[0].0);
        let hi = min(r.1, b[0].1);
        if lo <= hi {
            lemma_cons((lo, hi), clip(r, b.drop_first()));
        }
    }
}

pub proof fn lemma_clip_contains(r: SRange, b: Seq<SRange>, c: int)
    ensures
        contains(clip(r, b), c) == (in_range(r, c) && contains(b, c)),
    decreases b.len(),
{
    if b.len() > 0 {
        lemma_clip_contains(r, b.drop_first(), c);
        let lo = max(r.0, b[0].0);
        let hi = min(r.1, b[0].1);
        if lo <= hi {
            lemma_cons((lo, hi), clip(r, b.drop_first()));
        }
    }
}

pub proof fn lemma_intersect_acc(a: Seq<SRange>, b: Seq<SRange>, acc: Seq<SRange>)
    requires
        all_ok(a),
        all_ok(b),
        canonical(acc),
    ensures
        canonical(intersect_acc(a, b, acc)),
        forall|c: int|
            valid_cp(c) ==> #[trigger] contains(intersect_acc(a, b, acc), c) == (contains(acc, c)
                || (contains(a, c) && contains(b, c))),
    decreases a.len(),
{
    if a.len() > 0 {
        let cl = clip(a[0], b);
        lemma_clip_ok(a[0], b);
        lemma_insert_all_canonical(acc, cl);
        lemma_canonical_all_ok(acc);
        lemma_intersect_acc(a.drop_first(), b, insert_all(acc, cl));
        assert forall|c: int| valid_cp(c) implies #[trigger] contains(intersect_acc(a, b, acc), c)
            == (contains(acc, c) || (contains(a, c) && contains(b, c))) by {
            lemma_insert_all_contains(acc, cl, c);
            lemma_clip_contains(a[0], b, c);
        }
    }
}

/// The intersection is canonical and holds the scalar values of both.
pub proof fn lemma_intersect(a: Seq<SRange>, b: Seq<SRange>)
    requires
        all_ok(a),
        all_ok(b),
    ensures
        canonical(intersect(a, b)),
        forall|c: int|
            valid_cp(c) ==> #[trigger] contains(intersect(a, b), c) == (contains(a, c) && contains(
                b,
                c,
            )),
{
    lemma_intersect_acc(a, b, Seq::empty());
}

pub proof fn lemma_negate_from_ok(rs: Seq<SRange>, start: int)
    requires
        all_ok(rs),
        0 <= start,
        start <= 0x10FFFF ==> valid_cp(start),
    ensures
        all_ok(negate_from(rs, start)),
    decreases rs.len(),
{
    if rs.len() == 0 {
        lemma_single((start, 0x10FFFF));
    } else {
        lemma_negate_from_ok(rs.drop_first(), succ(rs[0].1));
        let rest = negate_from(rs.drop_first(), succ(rs[0].1));
        if start < rs[0].0 {
            lemma_cons((start, pred(rs[0].0)), rest);
        }
    }
}

pub proof fn lemma_negate_from_canonical(rs: Seq<SRange>, start: int)
    requires
        canonical(rs),
        0 <= start,
        start <= 0x10FFFF ==> valid_cp(start),
        rs.len() > 0 ==> start <= rs[0].0,
    ensures
        canonical(negate_from(rs, start)),
        negate_from(rs, start).len() > 0 ==> negate_from(rs, start)[0].0 >= start,
    decreases rs.len(),
{
    if rs.len() == 0 {
        lemma_single((start, 0x10FFFF));
    } else {
        lemma_negate_from_canonical(rs.drop_first(), succ(rs[0].1));
        let rest = negate_from(rs.drop_first(), succ(rs[0].1));
        if start < rs[0].0 {
            lemma_cons((start, pred(rs[0].0)), rest);
        }
    }
}

pub proof fn lemma_negate_from_contains(rs: Seq<SRange>, start: int, c: int)
    requires
        canonical(rs),
        0 <= start,
        rs.len() > 0 ==> start <= rs[0].0,
        valid_cp(c),
    ensures
        contains(negate_from(rs, start), c) == (start <= c && !contains(rs, c)),
    decreases rs.len(),
{
    if rs.len() == 0 {
        lemma_single((start, 0x10FFFF));
    } else {
        let t = rs.drop_first();
        lemma_negate_from_contains(t, succ(rs[0].1), c);
        let rest = negate_from(t, succ(rs[0].1));
        if contains(t, c) {
            lemma_contains_lower(t, c);
        }
        if start < rs[0].0 {
            lemma_cons((start, pred(rs[0].0)), rest);
        }
    }
}

/// The complement of a canonical class is canonical and holds exactly the
/// scalar values that the class does not.
pub proof fn lemma_negate(rs: Seq<SRange>)
    requires
        canonical(rs),
    ensures
        canonical(negate(rs)),
        forall|c: int| valid_cp(c) ==> #[trigger] contains(negate(rs), c) == !contains(rs, c),
{
    if rs.len() > 0 {
        assert(range_ok(rs[0]));
    }
    lemma_negate_from_canonical(rs, 0);
    assert forall|c: int| valid_cp(c) implies #[trigger] contains(negate(rs), c) == !contains(
        rs,
        c,
    ) by {
        lemma_negate_from_contains(rs, 0, c);
    }
}

pub proof fn lemma_negate_ok(rs: Seq<SRange>)
    requires
        all_ok(rs),
    ensures
        all_ok(negate(rs)),
{
    lemma_negate_from_ok(rs, 0);
}

/// The union of canonical classes is canonical and holds the values of either.
pub proof fn lemma_union(a: Seq<SRange>, b: Seq<SRange>)
    requires
        canonical(a),
        canonical(b),
    ensures
        canonical(union(a, b)),
        forall|c: int|
            valid_cp(c) ==> #[trigger] contains(union(a, b), c) == (contains(a, c) || contains(
                b,
                c,
            )),
{
    lemma_canonical_all_ok(a);
    lemma_canonical_all_ok(b);
    lemma_insert_all_canonical(a, b);
    assert forall|c: int| valid_cp(c) implies #[trigger] contains(union(a, b), c) == (contains(a, c)
        || contains(b, c)) by {
        lemma_insert_all_contains(a, b, c);
    }
}

/// The difference of canonical classes is canonical and holds the values of
/// the first that the second lacks.
pub proof fn lemma_difference(a: Seq<SRange>, b: Seq<SRange>)
    requires
        canonical(a),
        canonical(b),
    ensures
        canonical(difference(a, b)),
        forall|c: int|
            valid_cp(c) ==> #[trigger] contains(difference(a, b), c) == (contains(a, c)
                && !contains(b, c)),
{
    lemma_negate(b);
    lemma_canonical_all_ok(a);
    lemma_canonical_all_ok(negate(b));
    lemma_intersect(a, negate(b));
}

/// The symmetric difference of canonical classes is canonical and holds the
/// values that exactly one of them holds.
pub proof fn lemma_symmetric_difference(a: Seq<SRange>, b: Seq<SRange>)
    requires
        canonical(a),
        canonical(b),
    ensures
        canonical(symmetric_difference(a, b)),
        forall|c: int|
            valid_cp(c) ==> #[trigger] contains(symmetric_difference(a, b), c) == (contains(a, c)
                != contains(b, c)),
{
    lemma_difference(a, b);
    lemma_difference(b, a);
    lemma_union(difference(a, b), difference(b, a));
}

} // verus!
