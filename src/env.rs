use vstd::prelude::*;
use crate::parser::Parser;
use crate::stream::{Error, ParseResult, Stream};

verus! {

/// Threads one input through several parses in turn: each `with` runs a
/// parser on the held input and keeps what it left; the first failure is
/// handed back at once.
pub struct Env<I> {
    input: I,
}

impl<I: Stream> View for Env<I> {
    type V = Seq<I::Item>;

    closed spec fn view(&self) -> Seq<I::Item> {
        self.input.items()
    }
}

impl<I: Stream> Env<I> {
    /// Starts a sequence of parses on `input`.
    pub fn new(input: I) -> (r: Env<I>)
        ensures
            r@ == input.items(),
    {
        Env { input }
    }

    /// Runs `parser` on the held input. On success the held input becomes what
    /// the parser left and its output is returned; on failure nothing changes.
    pub fn with<P, O>(&mut self, parser: P) -> (r: Result<O, Error>)
        where
            P: Parser<Input = I, Output = O>,
        requires
            parser.ready(),
        ensures
            match r {
                Ok(out) => parser.accepts(old(self)@, out, final(self)@),
                Err(_) => parser.rejects(old(self)@) && *final(self) == *old(self),
            },
    {
        match parser.parse(self.input.duplicate()) {
            Ok((out, rest)) => {
                self.input = rest;
                Ok(out)
            },
            Err(e) => Err(e),
        }
    }

    /// Ends the sequence: succeeds with `output` and the held input.
    pub fn result<O>(self, output: O) -> (r: ParseResult<O, I>)
        ensures
            r is Ok,
            r matches Ok((out, rest)) ==> out == output && rest.items() == self@,
    {
        Ok((output, self.input))
    }
}

} // verus!
