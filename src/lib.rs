//! Parser combinators: small parsers over an input stream, and combinators
//! that build larger parsers from them, each with a contract over the items
//! of the stream.

mod combinator;
mod env;
mod laws;
mod parser;
mod primitive;
mod repeat;
mod sep_by;
mod stream;

pub use combinator::{and_then, optional, AndThen, Optional, ParserExt};
pub use env::Env;
pub use laws::{
    answers_once, many1_needs_one, many_of_failing_is_identity, optional_never_fails, satisfy_reads_one,
};
pub use parser::{char, digit, is_decimal_digit, FnParser, Parser};
pub use primitive::{satisfy, space, starts_with, string, whitespace, Satisfy, StringP};
pub use repeat::{chain, consumes, many, many1, many_accepts, many_append, Many, Many1};
pub use sep_by::{sep_by, sep_chain, sep_consumes, sep_stops, sep_then, SepBy};
pub use stream::{chars_left, Error, ParseResult, Stream};
