//! The decisions of the property runner: which tool and property a name
//! denotes, the witness each property is run on, how outcomes are merged, the
//! inputs that the generators map bytes to, the message of a tool's status,
//! and the JSON line that reports a run.
use vstd::prelude::*;
use crate::etna::{
    PropertyResult, property_blank_class_correct, property_print_roundtrip_parses,
    property_named_neq_complements, property_directive_rep_rejected,
};
use crate::hir::SHir;
use crate::print::{print_hir, decimal_chars, empty_class_chars, push_str_chars, push_decimal};
use vstd::string::StringExecFns;
use crate::parse::str_chars;
use crate::tables::chars_eq;
use crate::roundtrip::law_print_then_parse;

verus! {

/// The properties that the runner knows.
#[derive(Clone, Copy, Debug, PartialEq, Eq, Structural)]
pub enum Property {
    BlankClassCorrect,
    PrintRoundtripParses,
    NamedNeqComplements,
    DirectiveRepRejected,
}

/// The name by which the runner knows a property.
pub open spec fn property_name(p: Property) -> Seq<char> {
    match p {
        Property::BlankClassCorrect => "BlankClassCorrect"@,
        Property::PrintRoundtripParses => "PrintRoundtripParses"@,
        Property::NamedNeqComplements => "NamedNeqComplements"@,
        Property::DirectiveRepRejected => "DirectiveRepRejected"@,
    }
}

/// Whether `name` spells `word`.
fn is_word(name: &Vec<char>, word: &str) -> (r: bool)
    ensures
        r == (name@ == word@),
{
    let w = str_chars(word);
    chars_eq(name.as_slice(), w.as_slice())
}

/// The property that a name denotes.
pub fn property_from_name(name: &str) -> (r: Option<Property>)
    ensures
        match r {
            Some(p) => name@ == property_name(p),
            None => forall|p: Property| name@ != property_name(p),
        },
{
    let n = str_chars(name);
    if is_word(&n, "BlankClassCorrect") {
        Some(Property::BlankClassCorrect)
    } else if is_word(&n, "PrintRoundtripParses") {
        Some(Property::PrintRoundtripParses)
    } else if is_word(&n, "NamedNeqComplements") {
        Some(Property::NamedNeqComplements)
    } else if is_word(&n, "DirectiveRepRejected") {
        Some(Property::DirectiveRepRejected)
    } else {
        None
    }
}

/// What a run is asked to check: every property, or one.
#[derive(Clone, Copy, Debug, PartialEq, Eq, Structural)]
pub enum Selection {
    All,
    One(Property),
}

/// The selection that a name denotes: `All`, or the name of a property.
pub fn selection_from_name(name: &str) -> (r: Option<Selection>)
    ensures
        match r {
            Some(Selection::All) => name@ == "All"@,
            Some(Selection::One(p)) => name@ == property_name(p) && name@ != "All"@,
            None => name@ != "All"@ && forall|p: Property| name@ != property_name(p),
        },
{
    let n = str_chars(name);
    if is_word(&n, "All") {
        Some(Selection::All)
    } else {
        match property_from_name(name) {
            Some(p) => Some(Selection::One(p)),
            None => None,
        }
    }
}

/// The property-testing tools that the runner drives.
#[derive(Clone, Copy, Debug, PartialEq, Eq, Structural)]
pub enum Tool {
    Etna,
    Proptest,
    Quickcheck,
    Crabcheck,
    Hegel,
}

/// The name by which the runner knows a tool.
pub open spec fn tool_name(t: Tool) -> Seq<char> {
    match t {
        Tool::Etna => "etna"@,
        Tool::Proptest => "proptest"@,
        Tool::Quickcheck => "quickcheck"@,
        Tool::Crabcheck => "crabcheck"@,
        Tool::Hegel => "hegel"@,
    }
}

/// The tool that a name denotes.
pub fn tool_from_name(name: &str) -> (r: Option<Tool>)
    ensures
        match r {
            Some(t) => name@ == tool_name(t),
            None => forall|t: Tool| name@ != tool_name(t),
        },
{
    let n = str_chars(name);
    if is_word(&n, "etna") {
        Some(Tool::Etna)
    } else if is_word(&n, "proptest") {
        Some(Tool::Proptest)
    } else if is_word(&n, "quickcheck") {
        Some(Tool::Quickcheck)
    } else if is_word(&n, "crabcheck") {
        Some(Tool::Crabcheck)
    } else if is_word(&n, "hegel") {
        Some(Tool::Hegel)
    } else {
        None
    }
}

/// The message for a property name that a tool does not know.
pub fn unknown_property_message(tool: &str, property: &str) -> (m: String)
    ensures
        m@ == "Unknown property for "@ + tool@ + ": "@ + property@,
{
    let mut m = String::new();
    m.append("Unknown property for ");
    m.append(tool);
    m.append(": ");
    m.append(property);
    m
}

/// The message for a tool name that the runner does not know.
pub fn unknown_tool_message(tool: &str) -> (m: String)
    ensures
        m@ == "Unknown tool: "@ + tool@,
{
    let mut m = String::new();
    m.append("Unknown tool: ");
    m.append(tool);
    m
}

/// The properties in the order in which `All` runs them.
pub fn all_properties() -> (v: Vec<Property>)
    ensures
        v@ == seq![
            Property::BlankClassCorrect,
            Property::PrintRoundtripParses,
            Property::NamedNeqComplements,
            Property::DirectiveRepRejected,
        ],
{
    let mut v: Vec<Property> = Vec::new();
    v.push(Property::BlankClassCorrect);
    v.push(Property::PrintRoundtripParses);
    v.push(Property::NamedNeqComplements);
    v.push(Property::DirectiveRepRejected);
    assert(v@ =~= seq![
        Property::BlankClassCorrect,
        Property::PrintRoundtripParses,
        Property::NamedNeqComplements,
        Property::DirectiveRepRejected,
    ]);
    v
}

/// A passed or discarded check is no failure; a failed one gives its message.
pub fn to_err(r: PropertyResult) -> (out: Result<(), String>)
    ensures
        match r {
            PropertyResult::Fail(m) => out == Err::<(), String>(m),
            _ => out is Ok,
        },
{
    match r {
        PropertyResult::Pass | PropertyResult::Discard => Ok(()),
        PropertyResult::Fail(m) => Err(m),
    }
}

/// What a property check gives to a runner that counts discards apart:
/// `Some(true)` for a pass, `Some(false)` for a failure, `None` for a discard.
pub fn verdict(r: &PropertyResult) -> (out: Option<bool>)
    ensures
        out == match r {
            PropertyResult::Pass => Some(true),
            PropertyResult::Fail(_) => Some(false),
            PropertyResult::Discard => None::<bool>,
        },
{
    match r {
        PropertyResult::Pass => Some(true),
        PropertyResult::Fail(_) => Some(false),
        PropertyResult::Discard => None,
    }
}

/// Runs a property on the one witness that the `etna` tool checks.
pub fn run_witness(p: Property) -> (r: Result<(), String>)
    ensures
        r is Ok,
{
    match p {
        Property::BlankClassCorrect => to_err(property_blank_class_correct('\n')),
        Property::PrintRoundtripParses => {
            let pattern = "[a&&b]".to_string();
            proof {
                reveal_strlit("[a&&b]");
                assert("[a&&b]"@ =~= empty_class_chars());
                assert(print_hir(SHir::Class(Seq::empty())) == empty_class_chars());
                law_print_then_parse(SHir::Class(Seq::empty()));
            }
            to_err(property_print_roundtrip_parses(pattern))
        },
        Property::NamedNeqComplements => to_err(property_named_neq_complements(' ')),
        Property::DirectiveRepRejected => to_err(property_directive_rep_rejected(0, 1)),
    }
}

/// The number of inputs a run tried and the time it took.
#[derive(Clone, Copy, Debug)]
pub struct Metrics {
    pub inputs: u64,
    pub elapsed_us: u128,
}

impl Default for Metrics {
    fn default() -> (m: Metrics)
        ensures
            m.inputs == 0,
            m.elapsed_us == 0,
    {
        Metrics { inputs: 0, elapsed_us: 0 }
    }
}

impl Metrics {
    /// The metrics of two runs together.
    pub fn combine(self, other: Metrics) -> (m: Metrics)
        requires
            self.inputs + other.inputs <= u64::MAX,
            self.elapsed_us + other.elapsed_us <= u128::MAX,
        ensures
            m.inputs == self.inputs + other.inputs,
            m.elapsed_us == self.elapsed_us + other.elapsed_us,
    {
        Metrics { inputs: self.inputs + other.inputs, elapsed_us: self.elapsed_us + other.elapsed_us }
    }
}

/// Adds one run to the outcome of the runs so far: the metrics add up and the
/// first failure is kept.
pub fn merge_outcome(
    status: Result<(), String>,
    total: Metrics,
    r: Result<(), String>,
    m: Metrics,
) -> (out: (Result<(), String>, Metrics))
    requires
        total.inputs + m.inputs <= u64::MAX,
        total.elapsed_us + m.elapsed_us <= u128::MAX,
    ensures
        out.1.inputs == total.inputs + m.inputs,
        out.1.elapsed_us == total.elapsed_us + m.elapsed_us,
        out.0 == (if r is Err && status is Ok {
            r
        } else {
            status
        }),
{
    let total = total.combine(m);
    if r.is_err() && status.is_ok() {
        (r, total)
    } else {
        (status, total)
    }
}

/// How a run of a tool that reports a status ended.
pub enum RunStatus {
    /// Every test passed.
    Finished,
    /// A test failed on these arguments.
    Failed { arguments: Vec<String> },
    /// The tool stopped with an error.
    Aborted { error: String },
    /// The run took too long.
    TimedOut,
    /// Too many inputs were discarded.
    GaveUp { passed: u64, discarded: u64 },
}

/// The views of a sequence of strings.
pub open spec fn string_views(v: Seq<String>) -> Seq<Seq<char>> {
    v.map_values(|s: String| s@)
}

/// Strings joined by single spaces.
pub open spec fn joined(args: Seq<Seq<char>>) -> Seq<char>
    decreases args.len(),
{
    if args.len() == 0 {
        Seq::empty()
    } else if args.len() == 1 {
        args[0]
    } else {
        joined(args.drop_last()) + seq![' '] + args.last()
    }
}

/// The failure message of a status, or `None` when the run passed.
pub open spec fn status_message(s: RunStatus) -> Option<Seq<char>> {
    match s {
        RunStatus::Finished => None,
        RunStatus::Failed { arguments } => Some("("@ + joined(string_views(arguments@)) + ")"@),
        RunStatus::Aborted { error } => Some("aborted: "@ + error@),
        RunStatus::TimedOut => Some("timed out"@),
        RunStatus::GaveUp { passed, discarded } => Some(
            "gave up: passed="@ + decimal_chars(passed as nat) + ", discarded="@ + decimal_chars(
                discarded as nat,
            ),
        ),
    }
}

/// The arguments of a failed test, in brackets and separated by spaces.
fn arguments_message(arguments: &Vec<String>) -> (m: String)
    ensures
        m@ == "("@ + joined(string_views(arguments@)) + ")"@,
{
    let ghost views = string_views(arguments@);
    let mut out = String::new();
    out.append("(");
    let mut i: usize = 0;
    assert(views.take(0) =~= Seq::<Seq<char>>::empty());
    while i < arguments.len()
        invariant
            i <= arguments.len(),
            views == string_views(arguments@),
            out@ == "("@ + joined(views.take(i as int)),
        decreases arguments.len() - i,
    {
        let ghost before = out@;
        assert(views.take(i + 1).drop_last() =~= views.take(i as int));
        assert(views.take(i + 1).last() == arguments@[i as int]@);
        if i > 0 {
            out.push(' ');
        } else {
            assert(views.take(1) =~= seq![views[0]]);
        }
        out.append(arguments[i].as_str());
        assert(out@ =~= "("@ + joined(views.take(i + 1)));
        i += 1;
    }
    assert(views.take(i as int) =~= views);
    out.append(")");
    out
}

/// The outcome that a status stands for: `Ok` when the run passed, else the
/// failure message.
pub fn run_status_outcome(s: &RunStatus) -> (r: Result<(), String>)
    ensures
        match r {
            Ok(()) => status_message(*s) is None,
            Err(m) => status_message(*s) == Some(m@),
        },
{
    match s {
        RunStatus::Finished => Ok(()),
        RunStatus::Failed { arguments } => Err(arguments_message(arguments)),
        RunStatus::Aborted { error } => {
            let mut m = String::new();
            m.append("aborted: ");
            m.append(error.as_str());
            Err(m)
        },
        RunStatus::TimedOut => {
            let mut m = String::new();
            m.append("timed out");
            Err(m)
        },
        RunStatus::GaveUp { passed, discarded } => {
            let mut m = String::new();
            m.append("gave up: passed=");
            push_decimal(&mut m, *passed as u128);
            m.append(", discarded=");
            push_decimal(&mut m, *discarded as u128);
            Err(m)
        },
    }
}

/// What a tool puts before the message of a failed property.
pub open spec fn failure_prefix() -> Seq<char> {
    "Property test failed: "@
}

/// A failure message without the prefix that a tool puts before it.
pub open spec fn failure_text_chars(msg: Seq<char>) -> Seq<char> {
    if failure_prefix().is_prefix_of(msg) {
        msg.skip(failure_prefix().len() as int)
    } else {
        msg
    }
}

/// A failure message without the `Property test failed: ` that a tool puts
/// before it.
pub fn failure_text(msg: &str) -> (r: String)
    ensures
        r@ == failure_text_chars(msg@),
{
    let m = str_chars(msg);
    let pre = str_chars("Property test failed: ");
    let mut k: usize = 0;
    if pre.len() <= m.len() {
        let mut i: usize = 0;
        let mut same = true;
        while i < pre.len()
            invariant
                i <= pre.len() <= m.len(),
                same == (forall|t: int| 0 <= t < i ==> pre@[t] == m@[t]),
            decreases pre.len() - i,
        {
            if pre[i] != m[i] {
                same = false;
            }
            i += 1;
        }
        if same {
            k = pre.len();
            assert(pre@ =~= m@.subrange(0, pre.len() as int));
        } else {
            assert(!pre@.is_prefix_of(m@)) by {
                if pre@.is_prefix_of(m@) {
                    assert forall|t: int| 0 <= t < pre.len() implies pre@[t] == m@[t] by {
                        assert(pre@[t] == m@.subrange(0, pre.len() as int)[t]);
                    }
                }
            }
        }
    }
    let mut out = String::new();
    let mut j: usize = k;
    assert(m@.subrange(k as int, k as int) =~= Seq::<char>::empty());
    while j < m.len()
        invariant
            k <= j <= m.len(),
            out@ == m@.subrange(k as int, j as int),
        decreases m.len() - j,
    {
        assert(m@.subrange(k as int, j + 1) =~= m@.subrange(k as int, j as int).push(m@[j as int]));
        out.push(m[j]);
        j += 1;
    }
    assert(m@.skip(k as int) =~= m@.subrange(k as int, m.len() as int));
    assert(m@.skip(0) =~= m@);
    out
}

/// The characters that a generated byte stands for: ASCII letters, whitespace
/// and punctuation, Unicode separators, and a few letters beyond ASCII.
pub open spec fn byte_char(b: u8) -> char {
    let k = b % 16;
    if k == 0 {
        ' '
    } else if k == 1 {
        '\t'
    } else if k == 2 {
        '\n'
    } else if k == 3 {
        '\u{00A0}'
    } else if k == 4 {
        '\u{1680}'
    } else if k == 5 {
        '\u{2028}'
    } else if k == 6 {
        '\u{2029}'
    } else if k == 7 {
        'A'
    } else if k == 8 {
        'a'
    } else if k == 9 {
        '0'
    } else if k == 10 {
        '!'
    } else if k == 11 {
        'ä'
    } else if k == 12 {
        'Ω'
    } else if k == 13 {
        '香'
    } else if k == 14 {
        '\u{1F600}'
    } else {
        '\0'
    }
}

/// The character that a generated byte stands for.
pub fn map_byte_to_unicode_char(b: u8) -> (c: char)
    ensures
        c == byte_char(b),
{
    match b % 16 {
        0 => ' ',
        1 => '\t',
        2 => '\n',
        3 => '\u{00A0}',
        4 => '\u{1680}',
        5 => '\u{2028}',
        6 => '\u{2029}',
        7 => 'A',
        8 => 'a',
        9 => '0',
        10 => '!',
        11 => 'ä',
        12 => 'Ω',
        13 => '香',
        14 => '\u{1F600}',
        _ => '\0',
    }
}

/// The lowercase letter that a generated byte stands for.
pub open spec fn byte_letter(b: u8) -> char {
    ('a' as int + (b % 26) as int) as char
}

/// The patterns that a shape byte and two letter bytes stand for; most of
/// them parse to an empty class.
pub open spec fn empty_class_pattern_chars(shape: u8, b1: u8, b2: u8) -> Seq<char> {
    let c1 = byte_letter(b1);
    let c2 = byte_letter(b2);
    let k = shape % 5;
    if k == 0 {
        seq!['[', c1, '&', '&', c2, ']']
    } else if k == 1 {
        seq!['[', c1, '-', c2, '-', '-', c1, '-', c2, ']']
    } else if k == 2 {
        seq!['[', c1, c2, ']']
    } else if k == 3 {
        seq!['\\', 'P', '{', 'a', 'n', 'y', '}']
    } else {
        seq!['(', c1, '|', c2, ')', '{', '2', '}']
    }
}

/// A pattern built from a shape byte and two letter bytes.
pub fn empty_class_pattern(shape: u8, b1: u8, b2: u8) -> (s: String)
    ensures
        s@ == empty_class_pattern_chars(shape, b1, b2),
{
    let c1 = ('a' as u8 + b1 % 26) as char;
    let c2 = ('a' as u8 + b2 % 26) as char;
    assert(c1 == byte_letter(b1) && c2 == byte_letter(b2));
    let mut s = String::new();
    let k = shape % 5;
    if k == 0 {
        let w: [char; 6] = ['[', c1, '&', '&', c2, ']'];
        push_str_chars(&mut s, &w);
    } else if k == 1 {
        let w: [char; 10] = ['[', c1, '-', c2, '-', '-', c1, '-', c2, ']'];
        push_str_chars(&mut s, &w);
    } else if k == 2 {
        let w: [char; 4] = ['[', c1, c2, ']'];
        push_str_chars(&mut s, &w);
    } else if k == 3 {
        let w: [char; 7] = ['\\', 'P', '{', 'a', 'n', 'y', '}'];
        push_str_chars(&mut s, &w);
    } else {
        let w: [char; 8] = ['(', c1, '|', c2, ')', '{', '2', '}'];
        push_str_chars(&mut s, &w);
    }
    assert(s@ =~= empty_class_pattern_chars(shape, b1, b2));
    s
}

/// A lowercase hexadecimal digit.
pub open spec fn hex_digit(d: int) -> char {
    if d < 10 {
        ('0' as int + d) as char
    } else {
        ('a' as int + d - 10) as char
    }
}

/// A character as written inside a JSON string.
pub open spec fn json_char(c: char) -> Seq<char> {
    if c == '"' {
        seq!['\\', '"']
    } else if c == '\\' {
        seq!['\\', '\\']
    } else if c == '\n' {
        seq!['\\', 'n']
    } else if c == '\r' {
        seq!['\\', 'r']
    } else if c == '\t' {
        seq!['\\', 't']
    } else if (c as int) < 0x20 {
        seq!['\\', 'u', '0', '0', hex_digit(c as int / 16), hex_digit(c as int % 16)]
    } else {
        seq![c]
    }
}

pub open spec fn json_chars(cs: Seq<char>) -> Seq<char>
    decreases cs.len(),
{
    if cs.len() == 0 {
        Seq::empty()
    } else {
        json_chars(cs.drop_last()) + json_char(cs.last())
    }
}

/// A string as a JSON string literal.
pub open spec fn json_string(cs: Seq<char>) -> Seq<char> {
    seq!['"'] + json_chars(cs) + seq!['"']
}

fn hex_char(d: u32) -> (c: char)
    requires
        d < 16,
    ensures
        c == hex_digit(d as int),
{
    if d < 10 {
        ('0' as u8 + d as u8) as char
    } else {
        ('a' as u8 + (d - 10) as u8) as char
    }
}

fn push_json_char(out: &mut String, c: char)
    ensures
        final(out)@ == old(out)@ + json_char(c),
{
    let ghost o = out@;
    if c == '"' {
        out.push('\\');
        out.push('"');
    } else if c == '\\' {
        out.push('\\');
        out.push('\\');
    } else if c == '\n' {
        out.push('\\');
        out.push('n');
    } else if c == '\r' {
        out.push('\\');
        out.push('r');
    } else if c == '\t' {
        out.push('\\');
        out.push('t');
    } else if (c as u32) < 0x20 {
        let v = c as u32;
        out.push('\\');
        out.push('u');
        out.push('0');
        out.push('0');
        out.push(hex_char(v / 16));
        out.push(hex_char(v % 16));
    } else {
        out.push(c);
    }
    assert(out@ =~= o + json_char(c));
}

/// A string as a JSON string literal.
pub fn json_str(s: &str) -> (out: String)
    ensures
        out@ == json_string(s@),
{
    let cs = str_chars(s);
    let mut out = String::new();
    out.push('"');
    let mut i: usize = 0;
    assert(cs@.subrange(0, 0) =~= Seq::<char>::empty());
    while i < cs.len()
        invariant
            i <= cs.len(),
            out@ == seq!['"'] + json_chars(cs@.subrange(0, i as int)),
        decreases cs.len() - i,
    {
        assert(cs@.subrange(0, i + 1).drop_last() =~= cs@.subrange(0, i as int));
        push_json_char(&mut out, cs[i]);
        assert(out@ =~= seq!['"'] + json_chars(cs@.subrange(0, i + 1)));
        i += 1;
    }
    out.push('"');
    assert(cs@.subrange(0, i as int) =~= s@);
    assert(out@ =~= json_string(s@));
    out
}

/// An optional string as a JSON value: the string literal, or `null`.
pub open spec fn json_option(o: Option<&str>) -> Seq<char> {
    match o {
        Some(s) => json_string(s@),
        None => "null"@,
    }
}

/// The JSON object that reports one run of a tool on a property.
pub open spec fn json_line_chars(
    tool: Seq<char>,
    property: Seq<char>,
    status: Seq<char>,
    inputs: nat,
    elapsed_us: nat,
    counterexample: Option<&str>,
    error: Option<&str>,
) -> Seq<char> {
    "{\"status\":"@ + json_string(status) + ",\"tests\":"@ + decimal_chars(inputs)
        + ",\"discards\":0,\"time\":"@ + json_string(decimal_chars(elapsed_us) + "us"@)
        + ",\"counterexample\":"@ + json_option(counterexample) + ",\"error\":"@
        + json_option(error) + ",\"tool\":"@ + json_string(tool) + ",\"property\":"@
        + json_string(property) + "}"@
}

fn push_json_option(out: &mut String, o: Option<&str>)
    ensures
        final(out)@ == old(out)@ + json_option(o),
{
    match o {
        Some(s) => {
            let j = json_str(s);
            out.append(j.as_str());
        },
        None => {
            out.append("null");
        },
    }
}

/// The JSON line that reports one run of a tool on a property.
pub fn json_line(
    tool: &str,
    property: &str,
    status: &str,
    metrics: Metrics,
    counterexample: Option<&str>,
    error: Option<&str>,
) -> (out: String)
    ensures
        out@ == json_line_chars(
            tool@,
            property@,
            status@,
            metrics.inputs as nat,
            metrics.elapsed_us as nat,
            counterexample,
            error,
        ),
{
    let mut out = String::new();
    out.append("{\"status\":");
    out.append(json_str(status).as_str());
    out.append(",\"tests\":");
    push_decimal(&mut out, metrics.inputs as u128);
    out.append(",\"discards\":0,\"time\":");
    let mut t = String::new();
    push_decimal(&mut t, metrics.elapsed_us);
    t.append("us");
    out.append(json_str(t.as_str()).as_str());
    out.append(",\"counterexample\":");
    push_json_option(&mut out, counterexample);
    out.append(",\"error\":");
    push_json_option(&mut out, error);
    out.append(",\"tool\":");
    out.append(json_str(tool).as_str());
    out.append(",\"property\":");
    out.append(json_str(property).as_str());
    out.append("}");
    assert(out@ =~= json_line_chars(
        tool@,
        property@,
        status@,
        metrics.inputs as nat,
        metrics.elapsed_us as nat,
        counterexample,
        error,
    ));
    out
}

} // verus!
