//! Unicode character classes: ranges of `char`, and the set operations on
//! them, each proved equal to its model in `ranges`.
use vstd::prelude::*;
use crate::ranges::{
    SRange, valid_cp, succ, min, max, insert, insert_all, clip, intersect, intersect_acc,
    negate, negate_from, difference, symmetric_difference,
};

verus! {

/// An inclusive range of characters.
#[derive(Clone, Copy, Debug, PartialEq, Eq, Structural)]
pub struct ClassUnicodeRange {
    pub start: char,
    pub end: char,
}

impl View for ClassUnicodeRange {
    type V = SRange;

    open spec fn view(&self) -> SRange {
        (self.start as int, self.end as int)
    }
}

impl ClassUnicodeRange {
    /// The first character of the range.
    pub fn start(&self) -> (r: char)
        ensures
            r == self.start,
    {
        self.start
    }

    /// The last character of the range.
    pub fn end(&self) -> (r: char)
        ensures
            r == self.end,
    {
        self.end
    }
}

/// The model of a sequence of ranges.
pub open spec fn rview(v: Seq<ClassUnicodeRange>) -> Seq<SRange> {
    v.map_values(|r: ClassUnicodeRange| r@)
}

/// A set of characters, given as ranges.
#[derive(Debug)]
pub struct ClassUnicode {
    pub ranges: Vec<ClassUnicodeRange>,
}

impl View for ClassUnicode {
    type V = Seq<SRange>;

    open spec fn view(&self) -> Seq<SRange> {
        rview(self.ranges@)
    }
}

impl ClassUnicode {
    /// The ranges of the class.
    pub fn ranges(&self) -> (r: &[ClassUnicodeRange])
        ensures
            rview(r@) == self@,
    {
        self.ranges.as_slice()
    }
}

pub proof fn lemma_rview_push(v: Seq<ClassUnicodeRange>, x: ClassUnicodeRange)
    ensures
        rview(v.push(x)) == rview(v).push(x@),
{
    assert(rview(v.push(x)) =~= rview(v).push(x@));
}

pub proof fn lemma_rview_skip(v: Seq<ClassUnicodeRange>, i: int)
    requires
        0 <= i < v.len(),
    ensures
        rview(v).skip(i).len() > 0,
        rview(v).skip(i)[0] == v[i]@,
        rview(v).skip(i).drop_first() == rview(v).skip(i + 1),
{
    assert(rview(v).skip(i).drop_first() =~= rview(v).skip(i + 1));
}

/// `char::from_u32`: gives back the character whose code point is `i` when
/// `i` is a Unicode scalar value (at most 0x10FFFF and not a surrogate), and
/// `None` for every other `i`.
#[verifier::external_body]
pub(crate) fn char_from_u32(i: u32) -> (r: Option<char>)
    ensures
        r is Some <==> valid_cp(i as int),
        r matches Some(c) ==> c as int == i as int,
{
    char::from_u32(i)
}

/// The character with a given scalar value.
pub fn scalar_char(i: u32) -> (c: char)
    requires
        valid_cp(i as int),
    ensures
        c as int == i as int,
{
    match char_from_u32(i) {
        Some(c) => c,
        None => '\0',
    }
}

/// `succ(a) < b`.
pub fn succ_lt(a: char, b: char) -> (r: bool)
    ensures
        r == (succ(a as int) < b as int),
{
    let av = a as u32;
    let s: u32 = if av == 0xD7FF {
        0xE000
    } else {
        av + 1
    };
    s < (b as u32)
}

pub fn char_min(a: char, b: char) -> (r: char)
    ensures
        r as int == min(a as int, b as int),
{
    if a <= b {
        a
    } else {
        b
    }
}

pub fn char_max(a: char, b: char) -> (r: char)
    ensures
        r as int == max(a as int, b as int),
{
    if a >= b {
        a
    } else {
        b
    }
}

/// Adds one range to a class (see `ranges::insert`).
pub fn insert_range(rs: &Vec<ClassUnicodeRange>, r: ClassUnicodeRange) -> (out: Vec<
    ClassUnicodeRange,
>)
    ensures
        rview(out@) == insert(rview(rs@), r@),
{
    let mut out: Vec<ClassUnicodeRange> = Vec::new();
    let mut cur = r;
    let mut i: usize = 0;
    let ghost whole = insert(rview(rs@), r@);
    assert(rview(rs@).skip(0) =~= rview(rs@));
    assert(rview(out@) + insert(rview(rs@).skip(0), cur@) =~= whole);
    while i < rs.len()
        invariant
            0 <= i <= rs.len(),
            rview(out@) + insert(rview(rs@).skip(i as int), cur@) == whole,
            whole == insert(rview(rs@), r@),
        decreases rs.len() - i,
    {
        let x = rs[i];
        proof {
            lemma_rview_skip(rs@, i as int);
        }
        if succ_lt(x.end, cur.start) {
            proof {
                lemma_rview_push(out@, x);
                assert(rview(out@.push(x)) + insert(rview(rs@).skip(i + 1), cur@) =~= rview(out@)
                    + insert(rview(rs@).skip(i as int), cur@));
            }
            out.push(x);
            i = i + 1;
        } else if succ_lt(cur.end, x.start) {
            let ghost tail = rview(rs@).skip(i as int);
            proof {
                lemma_rview_push(out@, cur);
                assert(rview(out@.push(cur)) + tail =~= rview(out@) + insert(tail, cur@));
            }
            out.push(cur);
            let mut j: usize = i;
            while j < rs.len()
                invariant
                    i <= j <= rs.len(),
                    tail == rview(rs@).skip(i as int),
                    whole == insert(rview(rs@), r@),
                    rview(out@) + rview(rs@).skip(j as int) == whole,
                decreases rs.len() - j,
            {
                proof {
                    lemma_rview_skip(rs@, j as int);
                    lemma_rview_push(out@, rs@[j as int]);
                    assert(rview(out@.push(rs@[j as int])) + rview(rs@).skip(j + 1) =~= rview(out@)
                        + rview(rs@).skip(j as int));
                }
                out.push(rs[j]);
                j = j + 1;
            }
            assert(rview(rs@).skip(j as int) =~= Seq::<SRange>::empty());
            assert(rview(out@) =~= whole);
            return out;
        } else {
            cur = ClassUnicodeRange { start: char_min(x.start, cur.start), end: char_max(x.end, cur.end) };
            i = i + 1;
        }
    }
    proof {
        assert(rview(rs@).skip(i as int) =~= Seq::<SRange>::empty());
        lemma_rview_push(out@, cur);
        assert(rview(out@.push(cur)) =~= whole);
    }
    out.push(cur);
    out
}

/// Adds all ranges of `add` to `rs` (see `ranges::insert_all`).
pub fn insert_all_ranges(rs: Vec<ClassUnicodeRange>, add: &Vec<ClassUnicodeRange>) -> (out: Vec<
    ClassUnicodeRange,
>)
    ensures
        rview(out@) == insert_all(rview(rs@), rview(add@)),
{
    let mut acc = rs;
    let mut i: usize = 0;
    let ghost whole = insert_all(rview(rs@), rview(add@));
    assert(rview(add@).skip(0) =~= rview(add@));
    while i < add.len()
        invariant
            0 <= i <= add.len(),
            insert_all(rview(acc@), rview(add@).skip(i as int)) == whole,
        decreases add.len() - i,
    {
        proof {
            lemma_rview_skip(add@, i as int);
        }
        acc = insert_range(&acc, add[i]);
        i = i + 1;
    }
    assert(rview(add@).skip(i as int) =~= Seq::<SRange>::empty());
    acc
}

/// The non-empty intersections of `r` with the ranges of `b` (see `ranges::clip`).
pub fn clip_ranges(r: ClassUnicodeRange, b: &Vec<ClassUnicodeRange>) -> (out: Vec<
    ClassUnicodeRange,
>)
    ensures
        rview(out@) == clip(r@, rview(b@)),
{
    let mut out: Vec<ClassUnicodeRange> = Vec::new();
    let mut i: usize = 0;
    let ghost whole = clip(r@, rview(b@));
    assert(rview(b@).skip(0) =~= rview(b@));
    assert(rview(out@) + clip(r@, rview(b@).skip(0)) =~= whole);
    while i < b.len()
        invariant
            0 <= i <= b.len(),
            rview(out@) + clip(r@, rview(b@).skip(i as int)) == whole,
        decreases b.len() - i,
    {
        proof {
            lemma_rview_skip(b@, i as int);
        }
        let x = b[i];
        let lo = char_max(r.start, x.start);
        let hi = char_min(r.end, x.end);
        if lo <= hi {
            let y = ClassUnicodeRange { start: lo, end: hi };
            proof {
                lemma_rview_push(out@, y);
                assert(rview(out@.push(y)) + clip(r@, rview(b@).skip(i + 1)) =~= rview(out@) + clip(
                    r@,
                    rview(b@).skip(i as int),
                ));
            }
            out.push(y);
        }
        i = i + 1;
    }
    assert(rview(b@).skip(i as int) =~= Seq::<SRange>::empty());
    assert(rview(out@) =~= whole);
    out
}

/// The intersection of two classes (see `ranges::intersect`).
pub fn intersect_ranges(a: &Vec<ClassUnicodeRange>, b: &Vec<ClassUnicodeRange>) -> (out: Vec<
    ClassUnicodeRange,
>)
    ensures
        rview(out@) == intersect(rview(a@), rview(b@)),
{
    let mut acc: Vec<ClassUnicodeRange> = Vec::new();
    let mut i: usize = 0;
    let ghost whole = intersect(rview(a@), rview(b@));
    assert(rview(a@).skip(0) =~= rview(a@));
    assert(rview(acc@) =~= Seq::<SRange>::empty());
    while i < a.len()
        invariant
            0 <= i <= a.len(),
            intersect_acc(rview(a@).skip(i as int), rview(b@), rview(acc@)) == whole,
        decreases a.len() - i,
    {
        proof {
            lemma_rview_skip(a@, i as int);
        }
        let cl = clip_ranges(a[i], b);
        acc = insert_all_ranges(acc, &cl);
        i = i + 1;
    }
    assert(rview(a@).skip(i as int) =~= Seq::<SRange>::empty());
    acc
}

/// The complement of a class (see `ranges::negate`).
pub fn negate_ranges(rs: &Vec<ClassUnicodeRange>) -> (out: Vec<ClassUnicodeRange>)
    ensures
        rview(out@) == negate(rview(rs@)),
{
    let mut out: Vec<ClassUnicodeRange> = Vec::new();
    let mut start: u32 = 0;
    let mut i: usize = 0;
    let ghost whole = negate(rview(rs@));
    assert(rview(rs@).skip(0) =~= rview(rs@));
    assert(rview(out@) + negate_from(rview(rs@).skip(0), 0) =~= whole);
    while i < rs.len()
        invariant
            0 <= i <= rs.len(),
            start <= 0x110000,
            start <= 0x10FFFF ==> valid_cp(start as int),
            rview(out@) + negate_from(rview(rs@).skip(i as int), start as int) == whole,
        decreases rs.len() - i,
    {
        proof {
            lemma_rview_skip(rs@, i as int);
        }
        let x = rs[i];
        let xs = x.start as u32;
        let xe = x.end as u32;
        let next: u32 = if xe == 0xD7FF {
            0xE000
        } else {
            xe + 1
        };
        if start < xs {
            let p: u32 = if xs == 0xE000 {
                0xD7FF
            } else {
                xs - 1
            };
            let y = ClassUnicodeRange { start: scalar_char(start), end: scalar_char(p) };
            proof {
                lemma_rview_push(out@, y);
                assert(rview(out@.push(y)) + negate_from(rview(rs@).skip(i + 1), next as int)
                    =~= rview(out@) + negate_from(rview(rs@).skip(i as int), start as int));
            }
            out.push(y);
        }
        start = next;
        i = i + 1;
    }
    assert(rview(rs@).skip(i as int) =~= Seq::<SRange>::empty());
    if start <= 0x10FFFF {
        let y = ClassUnicodeRange { start: scalar_char(start), end: '\u{10FFFF}' };
        proof {
            lemma_rview_push(out@, y);
        }
        out.push(y);
    }
    assert(rview(out@) =~= whole);
    out
}

/// The difference `a` minus `b` (see `ranges::difference`).
pub fn difference_ranges(a: &Vec<ClassUnicodeRange>, b: &Vec<ClassUnicodeRange>) -> (out: Vec<
    ClassUnicodeRange,
>)
    ensures
        rview(out@) == difference(rview(a@), rview(b@)),
{
    let nb = negate_ranges(b);
    intersect_ranges(a, &nb)
}

/// The symmetric difference of `a` and `b` (see `ranges::symmetric_difference`).
pub fn symmetric_difference_ranges(a: &Vec<ClassUnicodeRange>, b: &Vec<ClassUnicodeRange>) -> (out:
    Vec<ClassUnicodeRange>)
    ensures
        rview(out@) == symmetric_difference(rview(a@), rview(b@)),
{
    let d1 = difference_ranges(a, b);
    let d2 = difference_ranges(b, a);
    insert_all_ranges(d1, &d2)
}

} // verus!
