# regex_etna

A regular-expression parser and printer, verified with Verus, together with four properties of the
parser and printer and the pure parts of a runner that checks them under
property-testing tools.

## Layout

- `src/ranges.rs` — the mathematical model of character classes (sorted,
  merged ranges of scalar values) and the set operations on it, with their laws.
- `src/class.rs` — executable classes, each operation proved equal to its model.
- `src/hir.rs` — the expression type, its model, flags and errors.
- `src/tables.rs`, `src/gencat.rs`, `src/script.rs`, `src/word.rs`,
  `src/boolprop.rs` with `src/bool_data_*.rs` — the POSIX classes and the
  Unicode 16.0 tables: `White_Space`, the general categories, the scripts, the
  boolean properties (`Alphabetic`, `Emoji`, ...) with the names of all
  properties, and the word characters of `\w`.
- `src/fold.rs` — Unicode simple case folding, which the `i` flag applies.
- `src/syntax.rs` — the parser's specification: a machine that reads the pattern
  left to right.
- `src/scan.rs`, `src/parse.rs` — the executable parser, proved to follow the
  specification exactly (`parse` returns what `spec_parse` says, errors included).
- `src/print.rs` — the printer and its specification.
- `src/roundtrip.rs` — every printable expression's pattern parses again.
- `src/stable.rs` — parsing undoes printing on the parser's own expressions.
- `src/laws.rs` — the laws behind the properties: `[[:blank:]]`, `\p{gc=Z}` and
  `\p{gc!=Z}`, and repetitions with nothing to repeat.
- `src/etna.rs` — the properties, each proved to pass on every input in its domain.
- `src/runner.rs` — name resolution, witnesses, outcome merging, input mapping,
  status messages and the JSON report line; `src/json.rs` — its JSON laws.
- `app/main.rs` — the command-line runner that drives proptest, quickcheck,
  crabcheck and hegel.
- `tests/` — the property witnesses and tests of the parser, printer, classes and
  runner.
