//! A parser for an XML-like vector-graphics markup: a mode-sensitive lexer,
//! a state machine that builds a provisional tree, and a schema pass that
//! turns it into a validated, typed document which can be written back out.
pub mod bytes;
pub mod token;
pub mod lexer;
pub mod element;
pub mod text;
pub mod keywords;
pub mod units;
pub mod values;
pub mod path;
pub mod attribute;
pub mod parser;
pub mod arena;
pub mod document;
pub mod colors;
pub mod laws;
