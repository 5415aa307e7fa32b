use vstd::prelude::*;
use crate::parser::Parser;
use crate::stream::{Error, ParseResult, Stream};

verus! {

/// Runs the first parser, then the second on what the first left, and
/// succeeds with both outputs.
#[derive(Clone)]
pub struct AndThen<P1, P2>(pub P1, pub P2);

/// Builds the parser that runs `p1` and then `p2`.
pub fn and_then<P1: Parser, P2: Parser<Input = P1::Input>>(p1: P1, p2: P2) -> (r: AndThen<P1, P2>)
    ensures
        r.0 == p1,
        r.1 == p2,
{
    AndThen(p1, p2)
}

impl<P1: Parser, P2: Parser<Input = P1::Input>> Parser for AndThen<P1, P2> {
    type Input = P1::Input;

    type Output = (P1::Output, P2::Output);

    open spec fn ready(&self) -> bool {
        self.0.ready() && self.1.ready()
    }

    open spec fn accepts(
        &self,
        s: Seq<<P1::Input as Stream>::Item>,
        out: (P1::Output, P2::Output),
        rest: Seq<<P1::Input as Stream>::Item>,
    ) -> bool {
        exists|mid: Seq<<P1::Input as Stream>::Item>|
            #[trigger] self.0.accepts(s, out.0, mid) && self.1.accepts(mid, out.1, rest)
    }

    open spec fn rejects(&self, s: Seq<<P1::Input as Stream>::Item>) -> bool {
        ||| self.0.rejects(s)
        ||| exists|a: P1::Output, mid: Seq<<P1::Input as Stream>::Item>|
            #[trigger] self.0.accepts(s, a, mid) && self.1.rejects(mid)
    }

    fn parse(&self, input: P1::Input) -> (r: ParseResult<(P1::Output, P2::Output), P1::Input>) {
        let (a, rest) = match self.0.parse(input) {
            Ok(v) => v,
            Err(e) => {
                return Err(e);
            },
        };
        let ghost mid = rest.items();
        assert(self.0.accepts(input.items(), a, mid));
        let (b, rest) = match self.1.parse(rest) {
            Ok(v) => v,
            Err(e) => {
                return Err(e);
            },
        };
        assert(self.0.accepts(input.items(), (a, b).0, mid));
        Ok(((a, b), rest))
    }
}

/// Chaining for every parser: `p.and_then(q)` runs `p` and then `q`.
pub trait ParserExt: Sized {
    fn and_then<P2: Parser>(self, p: P2) -> (r: AndThen<Self, P2>)
        ensures
            r.0 == self,
            r.1 == p,
    ;
}

impl<P: Parser> ParserExt for P {
    fn and_then<P2: Parser>(self, p: P2) -> (r: AndThen<Self, P2>) {
        AndThen(self, p)
    }
}

/// Tries a parser; where it fails, succeeds with `None` and gives back the
/// input as it was.
#[derive(Clone)]
pub struct Optional<P>(pub P);

/// Builds the parser that tries `parser` and never fails.
pub fn optional<P: Parser>(parser: P) -> (r: Optional<P>)
    ensures
        r.0 == parser,
{
    Optional(parser)
}

impl<P: Parser> Parser for Optional<P> {
    type Input = P::Input;

    type Output = Option<P::Output>;

    open spec fn ready(&self) -> bool {
        self.0.ready()
    }

    open spec fn accepts(
        &self,
        s: Seq<<P::Input as Stream>::Item>,
        out: Option<P::Output>,
        rest: Seq<<P::Input as Stream>::Item>,
    ) -> bool {
        match out {
            Some(x) => self.0.accepts(s, x, rest),
            None => self.0.rejects(s) && rest == s,
        }
    }

    open spec fn rejects(&self, s: Seq<<P::Input as Stream>::Item>) -> bool {
        false
    }

    fn parse(&self, input: P::Input) -> (r: ParseResult<Option<P::Output>, P::Input>) {
        match self.0.parse(input.duplicate()) {
            Ok((x, rest)) => Ok((Some(x), rest)),
            Err(_) => Ok((None, input)),
        }
    }
}

} // verus!
