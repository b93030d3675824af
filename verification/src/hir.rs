//! The high-level intermediate representation of a regular expression, its
//! mathematical model, parser flags and parse errors.
use vstd::prelude::*;
use crate::ranges::SRange;
use crate::class::ClassUnicode;

verus! {

/// A zero-width assertion.
#[derive(Clone, Copy, Debug, PartialEq, Eq, Structural)]
pub enum Look {
    /// The start of the haystack (`^`).
    Start,
    /// The end of the haystack (`$`).
    End,
    /// The start of a line (`^` in multi-line mode).
    StartLF,
    /// The end of a line (`$` in multi-line mode).
    EndLF,
    /// A Unicode word boundary (`\b`).
    WordUnicode,
    /// Not a Unicode word boundary (`\B`).
    WordUnicodeNegate,
    /// The start of a Unicode word (`\<`).
    WordStartUnicode,
    /// The end of a Unicode word (`\>`).
    WordEndUnicode,
    /// The start of a Unicode word, or a word character after a non-word one
    /// (`\b{start-half}`).
    WordStartHalfUnicode,
    /// The end of a Unicode word, or a non-word character after a word one
    /// (`\b{end-half}`).
    WordEndHalfUnicode,
    /// The start of a line, where `\r\n`, `\r` and `\n` end lines (`^` under `m` and `R`).
    StartCRLF,
    /// The end of a line, where `\r\n`, `\r` and `\n` end lines (`$` under `m` and `R`).
    EndCRLF,
}

/// A character class. Every class built here is a Unicode class: the parser
/// always works in Unicode mode.
#[derive(Debug)]
pub enum Class {
    Unicode(ClassUnicode),
}

/// A regular expression.
#[derive(Debug)]
pub enum Hir {
    /// Matches the empty string.
    Empty,
    /// Matches one character.
    Literal(char),
    /// Matches one character of a class.
    Class(Class),
    /// A zero-width assertion.
    Look(Look),
    /// `sub` repeated at least `min` and at most `max` (unbounded when `None`) times.
    Repetition { min: u32, max: Option<u32>, greedy: bool, sub: Box<Hir> },
    /// A capturing group with its index (in the order of the opening parentheses).
    Capture { index: usize, sub: Box<Hir> },
    /// A sequence.
    Concat(Vec<Hir>),
    /// A choice.
    Alternation(Vec<Hir>),
}

/// The model of a `Hir`: classes become their ranges, vectors sequences.
pub enum SHir {
    Empty,
    Literal(char),
    Class(Seq<SRange>),
    Look(Look),
    Repetition { min: u32, max: Option<u32>, greedy: bool, sub: Box<SHir> },
    Capture { index: int, sub: Box<SHir> },
    Concat(Seq<SHir>),
    Alternation(Seq<SHir>),
}

pub open spec fn hirs_view(s: Seq<Hir>) -> Seq<SHir>
    decreases s,
{
    if s.len() == 0 {
        Seq::empty()
    } else {
        hirs_view(s.subrange(0, s.len() - 1)).push(hir_view(s[s.len() - 1]))
    }
}

pub open spec fn hir_view(h: Hir) -> SHir
    decreases h,
{
    match h {
        Hir::Empty => SHir::Empty,
        Hir::Literal(c) => SHir::Literal(c),
        Hir::Class(Class::Unicode(c)) => SHir::Class(c@),
        Hir::Look(l) => SHir::Look(l),
        Hir::Repetition { min, max, greedy, sub } => SHir::Repetition {
            min,
            max,
            greedy,
            sub: Box::new(hir_view(*sub)),
        },
        Hir::Capture { index, sub } => SHir::Capture {
            index: index as int,
            sub: Box::new(hir_view(*sub)),
        },
        Hir::Concat(v) => SHir::Concat(hirs_view(v@)),
        Hir::Alternation(v) => SHir::Alternation(hirs_view(v@)),
    }
}

impl View for Hir {
    type V = SHir;

    open spec fn view(&self) -> SHir {
        hir_view(*self)
    }
}

pub proof fn lemma_hirs_view_push(s: Seq<Hir>, h: Hir)
    ensures
        hirs_view(s.push(h)) == hirs_view(s).push(hir_view(h)),
        hirs_view(s).len() == s.len(),
{
    assert(s.push(h).subrange(0, s.len() as int) =~= s);
    lemma_hirs_view_len(s);
}

pub proof fn lemma_hirs_view_len(s: Seq<Hir>)
    ensures
        hirs_view(s).len() == s.len(),
    decreases s.len(),
{
    if s.len() > 0 {
        lemma_hirs_view_len(s.subrange(0, s.len() - 1));
    }
}

pub proof fn lemma_hirs_view_drop_last(s: Seq<Hir>)
    requires
        s.len() > 0,
    ensures
        hirs_view(s.drop_last()) == hirs_view(s).drop_last(),
        hirs_view(s).last() == hir_view(s.last()),
        hirs_view(s).len() == s.len(),
{
    assert(s.drop_last() =~= s.subrange(0, s.len() - 1));
    lemma_hirs_view_len(s);
    lemma_hirs_view_len(s.drop_last());
    assert(hirs_view(s).drop_last() =~= hirs_view(s.drop_last()));
}

/// The parser's flags.
#[derive(Clone, Copy, Debug, PartialEq, Eq, Structural)]
pub struct Flags {
    /// `i`: letters match either ASCII case.
    pub case_insensitive: bool,
    /// `m`: `^` and `$` match at line boundaries.
    pub multi_line: bool,
    /// `s`: `.` matches a line feed too.
    pub dot_matches_new_line: bool,
    /// `U`: the meaning of lazy and greedy repetition is swapped.
    pub swap_greed: bool,
    /// `x`: whitespace and `#` comments in the pattern are ignored.
    pub ignore_whitespace: bool,
    /// `R`: `\r` ends lines too, for `^`, `$` and `.`.
    pub crlf: bool,
}

pub open spec fn default_flags() -> Flags {
    Flags {
        case_insensitive: false,
        multi_line: false,
        dot_matches_new_line: false,
        swap_greed: false,
        ignore_whitespace: false,
        crlf: false,
    }
}

impl Flags {
    /// All flags off.
    pub fn new() -> (f: Flags)
        ensures
            f == default_flags(),
    {
        Flags {
            case_insensitive: false,
            multi_line: false,
            dot_matches_new_line: false,
            swap_greed: false,
            ignore_whitespace: false,
            crlf: false,
        }
    }
}

/// The kinds of parse errors.
#[derive(Clone, Copy, Debug, PartialEq, Eq, Structural)]
pub enum ErrorKind {
    /// A range in a class whose start is after its end.
    ClassRangeInvalid,
    /// An escape inside a class that stands for no set of characters, such as `\b`.
    ClassEscapeInvalid,
    /// A range in a class with a bound that is not a single character.
    ClassRangeLiteral,
    /// A class without its closing `]`.
    ClassUnclosed,
    /// A counted repetition without its number.
    DecimalEmpty,
    /// A number that does not fit in 32 bits.
    DecimalInvalid,
    /// A hexadecimal escape with empty braces, `\x{}`.
    EscapeHexEmpty,
    /// A hexadecimal escape that names no scalar value.
    EscapeHexInvalid,
    /// A hexadecimal escape with a character that is no hexadecimal digit.
    EscapeHexInvalidDigit,
    /// A `\` at the end of the pattern, or an escape that the pattern ends in.
    EscapeUnexpectedEof,
    /// An escape that means nothing.
    EscapeUnrecognized,
    /// A `-` in a flag group that no flag follows.
    FlagDanglingNegation,
    /// A flag that a group names twice, as in `(?ii)`.
    FlagDuplicate,
    /// A flag group without flags, `(?)`.
    FlagEmpty,
    /// A second `-` in a flag group.
    FlagRepeatedNegation,
    /// A flag group that the pattern ends in.
    FlagUnexpectedEof,
    /// A flag that does not exist.
    FlagUnrecognized,
    /// A group name that is used twice.
    GroupNameDuplicate,
    /// A group name without characters, `(?P<>a)`.
    GroupNameEmpty,
    /// A group name with a character that names may not hold.
    GroupNameInvalid,
    /// A group name without its `>`.
    GroupNameUnexpectedEof,
    /// A `(` without its `)`.
    GroupUnclosed,
    /// A `)` without its `(`.
    GroupUnopened,
    /// A counted repetition whose maximum is below its minimum.
    RepetitionCountInvalid,
    /// A counted repetition without its `}`.
    RepetitionCountUnclosed,
    /// A repetition operator with nothing to repeat.
    RepetitionMissing,
    /// A special word boundary without its `}`.
    SpecialWordBoundaryUnclosed,
    /// A special word boundary with a name other than `start`, `end`,
    /// `start-half` and `end-half`.
    SpecialWordBoundaryUnrecognized,
    /// A pattern that ends after the `{` of `\b{`.
    SpecialWordOrRepetitionUnexpectedEof,
    /// A Unicode property name that is not known.
    UnicodePropertyNotFound,
    /// A Unicode property value that is not known.
    UnicodePropertyValueNotFound,
    /// A look-around group, `(?=`, `(?!`, `(?<=` or `(?<!`.
    UnsupportedLookAround,
    /// Syntax that this parser knows and leaves out: back-references such
    /// as `\1`, turning Unicode mode off with `(?-u)`, and the properties
    /// with values `Age`, `Grapheme_Cluster_Break`, `Word_Break` and
    /// `Sentence_Break` (as in `\p{age=3.0}`).
    Unsupported,
}

/// A parse error: its kind and the index (in characters) where it was found.
#[derive(Clone, Copy, Debug, PartialEq, Eq, Structural)]
pub struct Error {
    pub kind: ErrorKind,
    pub offset: usize,
}

impl Error {
    /// The kind of the error.
    pub fn kind(&self) -> (k: ErrorKind)
        ensures
            k == self.kind,
    {
        self.kind
    }
}

} // verus!
