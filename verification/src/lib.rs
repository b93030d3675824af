//! A verified subset of a regular expression parser and printer, together with
//! the properties that the parser and printer are checked against.
pub mod ranges;
pub mod class;
pub mod hir;
pub mod tables;
pub mod syntax;
pub mod scan;
pub mod parse;
pub mod print;
pub mod laws;
pub mod etna;
pub mod roundtrip;
pub mod runner;
pub mod stable;
pub mod json;
pub mod word;
pub mod gencat;
pub mod fold;
pub mod script;
pub mod boolprop;
pub mod scx;
pub mod posixlaws;
pub mod asciilaws;
pub mod bool_data_0;
pub mod bool_data_1;
pub mod bool_data_2;
pub mod bool_data_3;
