//! The laws of the runner's JSON output: a string written by `json_str` is a
//! JSON string literal that decodes to the string itself, and the report line
//! of `json_line` holds no control character, so no line break.
use vstd::prelude::*;
use crate::syntax::{hex_val, is_hex, hex_value};
use crate::print::{decimal_chars, digit_char};
use crate::runner::{hex_digit, json_char, json_chars, json_string, json_option, json_line_chars};

verus! {

/// `c` prepended to a decoded text, when there is one.
pub open spec fn prepend(c: char, o: Option<Seq<char>>) -> Option<Seq<char>> {
    match o {
        Some(t) => Some(seq![c] + t),
        None => None,
    }
}

/// The character of a one-letter JSON escape `\e`, if `e` is one.
pub open spec fn json_escape_char(e: char) -> Option<char> {
    if e == '"' || e == '\\' || e == '/' {
        Some(e)
    } else if e == 'n' {
        Some('\n')
    } else if e == 'r' {
        Some('\r')
    } else if e == 't' {
        Some('\t')
    } else if e == 'b' {
        Some('\x08')
    } else if e == 'f' {
        Some('\x0C')
    } else {
        None
    }
}

/// The text that the body of a JSON string literal (what stands between its
/// quotes) stands for, or `None` when the body is not valid: an unescaped `"`,
/// a control character, or a broken escape.
pub open spec fn json_decode(cs: Seq<char>) -> Option<Seq<char>>
    decreases cs.len(),
{
    if cs.len() == 0 {
        Some(Seq::empty())
    } else if cs[0] == '\\' {
        if cs.len() < 2 {
            None
        } else if cs[1] == 'u' {
            if cs.len() >= 6 && is_hex(cs[2]) && is_hex(cs[3]) && is_hex(cs[4]) && is_hex(cs[5]) {
                prepend(hex_value(cs.subrange(2, 6)) as char, json_decode(cs.skip(6)))
            } else {
                None
            }
        } else {
            match json_escape_char(cs[1]) {
                Some(c) => prepend(c, json_decode(cs.skip(2))),
                None => None,
            }
        }
    } else if cs[0] == '"' || (cs[0] as int) < 0x20 {
        None
    } else {
        prepend(cs[0], json_decode(cs.skip(1)))
    }
}

/// No character of `cs` is a control character (below U+0020).
pub open spec fn control_free(cs: Seq<char>) -> bool {
    forall|i: int| 0 <= i < cs.len() ==> (cs[i] as int) >= 0x20
}

proof fn lemma_control_free_concat(a: Seq<char>, b: Seq<char>)
    requires
        control_free(a),
        control_free(b),
    ensures
        control_free(a + b),
{
    assert forall|i: int| 0 <= i < (a + b).len() implies ((a + b)[i] as int) >= 0x20 by {
        if i < a.len() {
            assert((a + b)[i] == a[i]);
        } else {
            assert((a + b)[i] == b[i - a.len()]);
        }
    }
}

proof fn lemma_hex_digit(d: int)
    requires
        0 <= d < 16,
    ensures
        is_hex(hex_digit(d)),
        hex_val(hex_digit(d)) == d,
        (hex_digit(d) as int) >= 0x20,
{
}

/// One escaped character decodes to itself.
proof fn lemma_decode_char(c: char, rest: Seq<char>)
    ensures
        json_decode(json_char(c) + rest) == prepend(c, json_decode(rest)),
        control_free(json_char(c)),
{
    let w = json_char(c);
    let cs = w + rest;
    if c == '"' || c == '\\' || c == '\n' || c == '\r' || c == '\t' {
        assert(cs[0] == '\\' && cs[1] == w[1]);
        assert(cs.skip(2) =~= rest);
    } else if (c as int) < 0x20 {
        let v = c as int;
        lemma_hex_digit(v / 16);
        lemma_hex_digit(v % 16);
        assert(cs[0] == '\\' && cs[1] == 'u');
        assert(cs[2] == '0' && cs[3] == '0');
        assert(cs[4] == hex_digit(v / 16) && cs[5] == hex_digit(v % 16));
        let ds = cs.subrange(2, 6);
        assert(ds.drop_last().drop_last().drop_last().drop_last() =~= Seq::<char>::empty());
        assert(ds.drop_last().drop_last().drop_last().last() == '0');
        assert(ds.drop_last().drop_last().last() == '0');
        assert(ds.drop_last().last() == hex_digit(v / 16));
        assert(ds.last() == hex_digit(v % 16));
        let d1 = ds.drop_last().drop_last().drop_last();
        assert(hex_value(d1.drop_last()) == 0);
        assert(hex_val('0') == 0);
        assert(hex_value(d1) == 0);
        assert(hex_value(ds.drop_last().drop_last()) == 0);
        assert(hex_value(ds.drop_last()) == v / 16);
        assert(hex_value(ds) == v);
        assert((v as char) == c);
        assert(cs.skip(6) =~= rest);
    } else {
        assert(cs[0] == c);
        assert(cs.skip(1) =~= rest);
    }
}

/// The escaped characters of `cs` decode to `cs`.
proof fn lemma_decode_chars(cs: Seq<char>, rest: Seq<char>)
    ensures
        json_decode(json_chars(cs) + rest) == (match json_decode(rest) {
            Some(t) => Some(cs + t),
            None => None::<Seq<char>>,
        }),
        control_free(json_chars(cs)),
    decreases cs.len(),
{
    if cs.len() == 0 {
        assert(json_chars(cs) + rest =~= rest);
        if let Some(t) = json_decode(rest) {
            assert(cs + t =~= t);
        }
    } else {
        let init = cs.drop_last();
        let last = cs.last();
        lemma_decode_char(last, rest);
        lemma_decode_chars(init, json_char(last) + rest);
        assert(json_chars(cs) + rest =~= json_chars(init) + (json_char(last) + rest));
        if let Some(t) = json_decode(rest) {
            assert(init + (seq![last] + t) =~= cs + t);
        }
        lemma_control_free_concat(json_chars(init), json_char(last));
    }
}

/// A string that `json_str` writes is a JSON string literal: it starts and ends
/// with `"`, holds no control character, and its body decodes to the string.
pub proof fn law_json_string_decodes(s: Seq<char>)
    ensures
        json_string(s).len() >= 2,
        json_string(s)[0] == '"',
        json_string(s).last() == '"',
        control_free(json_string(s)),
        json_decode(json_string(s).subrange(1, json_string(s).len() - 1)) == Some(s),
{
    let j = json_string(s);
    lemma_decode_chars(s, Seq::empty());
    assert(json_chars(s) + Seq::<char>::empty() =~= json_chars(s));
    assert(s + Seq::<char>::empty() =~= s);
    assert(j.subrange(1, j.len() - 1) =~= json_chars(s));
    lemma_control_free_concat(seq!['"'], json_chars(s));
    lemma_control_free_concat(seq!['"'] + json_chars(s), seq!['"']);
}

/// Two strings that `json_str` writes alike are the same string.
pub proof fn law_json_string_injective(a: Seq<char>, b: Seq<char>)
    requires
        json_string(a) == json_string(b),
    ensures
        a == b,
{
    law_json_string_decodes(a);
    law_json_string_decodes(b);
}

proof fn lemma_decimal_control_free(n: nat)
    ensures
        control_free(decimal_chars(n)),
    decreases n,
{
    if n >= 10 {
        lemma_decimal_control_free(n / 10);
        lemma_control_free_concat(decimal_chars(n / 10), seq![digit_char((n % 10) as int)]);
    }
}

proof fn lemma_json_option_control_free(o: Option<&str>)
    ensures
        control_free(json_option(o)),
{
    match o {
        Some(s) => law_json_string_decodes(s@),
        None => {
            reveal_strlit("null");
        },
    }
}

/// The report line of a run holds no control character, and so neither a line
/// feed nor a carriage return: it is one line.
pub proof fn law_json_line_one_line(
    tool: Seq<char>,
    property: Seq<char>,
    status: Seq<char>,
    inputs: nat,
    elapsed_us: nat,
    counterexample: Option<&str>,
    error: Option<&str>,
)
    ensures
        control_free(
            json_line_chars(tool, property, status, inputs, elapsed_us, counterexample, error),
        ),
        forall|i: int|
            #![auto]
            0 <= i < json_line_chars(tool, property, status, inputs, elapsed_us, counterexample, error).len()
                ==> json_line_chars(tool, property, status, inputs, elapsed_us, counterexample, error)[i]
                != '\n' && json_line_chars(tool, property, status, inputs, elapsed_us, counterexample, error)[i]
                != '\r',
{
    reveal_strlit("{\"status\":");
    reveal_strlit(",\"tests\":");
    reveal_strlit(",\"discards\":0,\"time\":");
    reveal_strlit("us");
    reveal_strlit(",\"counterexample\":");
    reveal_strlit(",\"error\":");
    reveal_strlit(",\"tool\":");
    reveal_strlit(",\"property\":");
    reveal_strlit("}");
    law_json_string_decodes(status);
    law_json_string_decodes(tool);
    law_json_string_decodes(property);
    lemma_decimal_control_free(inputs);
    lemma_decimal_control_free(elapsed_us);
    law_json_string_decodes(decimal_chars(elapsed_us) + "us"@);
    lemma_json_option_control_free(counterexample);
    lemma_json_option_control_free(error);
    let p1 = "{\"status\":"@ + json_string(status);
    lemma_control_free_concat("{\"status\":"@, json_string(status));
    let p2 = p1 + ",\"tests\":"@;
    lemma_control_free_concat(p1, ",\"tests\":"@);
    let p3 = p2 + decimal_chars(inputs);
    lemma_control_free_concat(p2, decimal_chars(inputs));
    let p4 = p3 + ",\"discards\":0,\"time\":"@;
    lemma_control_free_concat(p3, ",\"discards\":0,\"time\":"@);
    let p5 = p4 + json_string(decimal_chars(elapsed_us) + "us"@);
    lemma_control_free_concat(p4, json_string(decimal_chars(elapsed_us) + "us"@));
    let p6 = p5 + ",\"counterexample\":"@;
    lemma_control_free_concat(p5, ",\"counterexample\":"@);
    let p7 = p6 + json_option(counterexample);
    lemma_control_free_concat(p6, json_option(counterexample));
    let p8 = p7 + ",\"error\":"@;
    lemma_control_free_concat(p7, ",\"error\":"@);
    let p9 = p8 + json_option(error);
    lemma_control_free_concat(p8, json_option(error));
    let p10 = p9 + ",\"tool\":"@;
    lemma_control_free_concat(p9, ",\"tool\":"@);
    let p11 = p10 + json_string(tool);
    lemma_control_free_concat(p10, json_string(tool));
    let p12 = p11 + ",\"property\":"@;
    lemma_control_free_concat(p11, ",\"property\":"@);
    let p13 = p12 + json_string(property);
    lemma_control_free_concat(p12, json_string(property));
    lemma_control_free_concat(p13, "}"@);
    let line = json_line_chars(tool, property, status, inputs, elapsed_us, counterexample, error);
    assert(line == p13 + "}"@);
    assert forall|i: int| 0 <= i < line.len() implies #[trigger] line[i] != '\n' && line[i] != '\r' by {
        assert((line[i] as int) >= 0x20);
    }
}

} // verus!
