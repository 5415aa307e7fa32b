use vstd::prelude::*;
use std::marker::PhantomData;
use crate::stream::{Error, ParseResult, Stream};

verus! {

/// A parser: a function from an input stream to an output and the remaining
/// stream, or failure.
///
/// Its meaning is given over the items of the stream: `accepts` holds of each
/// success that a run may give, `rejects` of inputs on which a run may fail.
pub trait Parser {
    type Input: Stream;

    type Output;

    /// Holds when the parser may be run (every predicate it holds can be called).
    spec fn ready(&self) -> bool;

    /// On items `s`, a run may succeed with `out` and leave items `rest`.
    spec fn accepts(
        &self,
        s: Seq<<Self::Input as Stream>::Item>,
        out: Self::Output,
        rest: Seq<<Self::Input as Stream>::Item>,
    ) -> bool;

    /// On items `s`, a run may fail.
    spec fn rejects(&self, s: Seq<<Self::Input as Stream>::Item>) -> bool;

    fn parse(&self, input: Self::Input) -> (r: ParseResult<Self::Output, Self::Input>)
        requires
            self.ready(),
        ensures
            match r {
                Ok((out, rest)) => self.accepts(input.items(), out, rest.items()),
                Err(_) => self.rejects(input.items()),
            },
    ;
}

impl<'a, P: Parser> Parser for &'a P {
    type Input = P::Input;

    type Output = P::Output;

    open spec fn ready(&self) -> bool {
        (**self).ready()
    }

    open spec fn accepts(
        &self,
        s: Seq<<P::Input as Stream>::Item>,
        out: P::Output,
        rest: Seq<<P::Input as Stream>::Item>,
    ) -> bool {
        (**self).accepts(s, out, rest)
    }

    open spec fn rejects(&self, s: Seq<<P::Input as Stream>::Item>) -> bool {
        (**self).rejects(s)
    }

    fn parse(&self, input: P::Input) -> (r: ParseResult<P::Output, P::Input>) {
        (**self).parse(input)
    }
}

/// Turns a function or closure from a stream to a parse result into a parser:
/// it may succeed with what the function may return.
pub struct FnParser<I, O, F> {
    pub f: F,
    pub marker: PhantomData<(I, O)>,
}

impl<I: Stream, O, F: Fn(I) -> ParseResult<O, I>> FnParser<I, O, F> {
    pub fn new(f: F) -> (r: Self)
        ensures
            r.f == f,
    {
        FnParser { f, marker: PhantomData }
    }
}

impl<I: Stream, O, F: Fn(I) -> ParseResult<O, I>> Parser for FnParser<I, O, F> {
    type Input = I;

    type Output = O;

    open spec fn ready(&self) -> bool {
        forall|i: I| call_requires(self.f, (i,))
    }

    open spec fn accepts(&self, s: Seq<I::Item>, out: O, rest: Seq<I::Item>) -> bool {
        exists|i: I, j: I|
            #![trigger call_ensures(self.f, (i,), Ok::<(O, I), Error>((out, j)))]
            i.items() == s && j.items() == rest && call_ensures(
                self.f,
                (i,),
                Ok::<(O, I), Error>((out, j)),
            )
    }

    open spec fn rejects(&self, s: Seq<I::Item>) -> bool {
        exists|i: I, e: Error|
            #![trigger call_ensures(self.f, (i,), Err::<(O, I), Error>(e))]
            i.items() == s && call_ensures(self.f, (i,), Err::<(O, I), Error>(e))
    }

    fn parse(&self, input: I) -> (r: ParseResult<O, I>) {
        let ghost start = input;
        let r = (self.f)(input);
        proof {
            if r is Ok {
                let (out, rest) = r->Ok_0;
                assert(call_ensures(self.f, (start,), Ok::<(O, I), Error>((out, rest))));
            } else {
                assert(call_ensures(self.f, (start,), Err::<(O, I), Error>(r->Err_0)));
            }
        }
        r
    }
}

/// Reads one character, whatever it is; fails only at the end of the input.
pub fn char<I: Stream<Item = char>>(input: I) -> (r: ParseResult<char, I>)
    ensures
        r is Err <==> input.items().len() == 0,
        r matches Ok((c, rest)) ==> c == input.items()[0] && rest.items()
            == input.items().drop_first(),
{
    input.uncons()
}

/// A decimal digit, `'0'` to `'9'`.
pub open spec fn is_decimal_digit(c: char) -> bool {
    '0' <= c <= '9'
}

/// Reads one decimal digit.
pub fn digit<I: Stream<Item = char>>(input: I) -> (r: ParseResult<char, I>)
    ensures
        r is Ok <==> input.items().len() > 0 && is_decimal_digit(input.items()[0]),
        r matches Ok((c, rest)) ==> c == input.items()[0] && rest.items()
            == input.items().drop_first(),
{
    match input.uncons() {
        Ok((c, rest)) => {
            if '0' <= c && c <= '9' {
                Ok((c, rest))
            } else {
                Err(Error)
            }
        },
        Err(err) => Err(err),
    }
}

} // verus!
