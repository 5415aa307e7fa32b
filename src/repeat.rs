use vstd::prelude::*;
use crate::parser::Parser;
use crate::stream::{Error, ParseResult, Stream};

verus! {

/// Every success of `p` leaves strictly fewer items than it was given, so
/// that repeating it comes to an end.
pub open spec fn consumes<P: Parser>(p: P) -> bool {
    forall|s: Seq<<P::Input as Stream>::Item>, out: P::Output, rest: Seq<<P::Input as Stream>::Item>|
        #[trigger] p.accepts(s, out, rest) ==> rest.len() < s.len()
}

/// `trail` holds the items before and after each run of `p`: run on
/// `trail[i]`, it may give `outs[i]` and leave `trail[i + 1]`.
pub open spec fn chain<P: Parser>(
    p: P,
    outs: Seq<P::Output>,
    trail: Seq<Seq<<P::Input as Stream>::Item>>,
) -> bool {
    &&& trail.len() == outs.len() + 1
    &&& forall|i: int|
        0 <= i < outs.len() ==> #[trigger] p.accepts(trail[i], outs[i], trail[i + 1])
}

/// Repeating `p` on `s` until it fails may give `outs` and leave `rest`.
pub open spec fn many_accepts<P: Parser>(
    p: P,
    s: Seq<<P::Input as Stream>::Item>,
    outs: Seq<P::Output>,
    rest: Seq<<P::Input as Stream>::Item>,
) -> bool {
    &&& exists|trail: Seq<Seq<<P::Input as Stream>::Item>>|
        #[trigger] chain(p, outs, trail) && trail[0] == s && trail.last() == rest
    &&& p.rejects(rest)
}

/// Runs `parser` again and again on `input` until it fails, appending each
/// output to `vec`; succeeds with what the last success left. A failed
/// attempt consumes nothing.
pub fn many_append<P: Parser>(parser: &P, input: P::Input, vec: &mut Vec<P::Output>) -> (r:
    ParseResult<(), P::Input>)
    requires
        parser.ready(),
        consumes(*parser),
    ensures
        r is Ok,
        final(vec)@.len() >= old(vec)@.len(),
        final(vec)@.subrange(0, old(vec)@.len() as int) == old(vec)@,
        r matches Ok((_, rest)) ==> many_accepts(
            *parser,
            input.items(),
            final(vec)@.skip(old(vec)@.len() as int),
            rest.items(),
        ),
{
    let ghost s0 = input.items();
    let ghost n0 = vec@.len() as int;
    let mut cur = input;
    let ghost mut trail = seq![s0];
    proof {
        assert(vec@.skip(n0) =~= Seq::<P::Output>::empty());
    }
    loop
        invariant
            parser.ready(),
            consumes(*parser),
            s0 == input.items(),
            n0 == old(vec)@.len(),
            vec@.len() >= n0,
            vec@.subrange(0, n0) == old(vec)@,
            chain(*parser, vec@.skip(n0), trail),
            trail[0] == s0,
            trail.last() == cur.items(),
        ensures
            vec@.len() >= n0,
            vec@.subrange(0, n0) == old(vec)@,
            chain(*parser, vec@.skip(n0), trail),
            trail[0] == s0,
            trail.last() == cur.items(),
            parser.rejects(cur.items()),
        decreases cur.items().len(),
    {
        match parser.parse(cur.duplicate()) {
            Ok((x, rest)) => {
                let ghost outs = vec@.skip(n0);
                vec.push(x);
                proof {
                    assert(vec@.skip(n0) =~= outs.push(x));
                    assert(vec@.subrange(0, n0) =~= old(vec)@);
                    let t2 = trail.push(rest.items());
                    assert forall|i: int| 0 <= i < vec@.skip(n0).len() implies #[trigger] parser.accepts(
                        t2[i],
                        vec@.skip(n0)[i],
                        t2[i + 1],
                    ) by {
                        if i < outs.len() {
                            assert(parser.accepts(trail[i], outs[i], trail[i + 1]));
                        }
                    }
                    trail = t2;
                }
                cur = rest;
            },
            Err(_) => {
                break ;
            },
        }
    }
    Ok(((), cur))
}

/// Runs a parser zero or more times, until it fails; never fails itself.
#[derive(Clone)]
pub struct Many<P> {
    pub parser: P,
}

/// Builds the parser that repeats `p` zero or more times.
pub fn many<P: Parser>(p: P) -> (r: Many<P>)
    ensures
        r.parser == p,
{
    Many { parser: p }
}

impl<P: Parser> Parser for Many<P> {
    type Input = P::Input;

    type Output = Vec<P::Output>;

    open spec fn ready(&self) -> bool {
        self.parser.ready() && consumes(self.parser)
    }

    open spec fn accepts(
        &self,
        s: Seq<<P::Input as Stream>::Item>,
        out: Vec<P::Output>,
        rest: Seq<<P::Input as Stream>::Item>,
    ) -> bool {
        many_accepts(self.parser, s, out@, rest)
    }

    open spec fn rejects(&self, s: Seq<<P::Input as Stream>::Item>) -> bool {
        false
    }

    fn parse(&self, input: P::Input) -> (r: ParseResult<Vec<P::Output>, P::Input>) {
        let mut result: Vec<P::Output> = Vec::new();
        match many_append(&self.parser, input, &mut result) {
            Ok((_, rest)) => {
                assert(result@.skip(0) =~= result@);
                Ok((result, rest))
            },
            Err(e) => Err(e),
        }
    }
}

/// Runs a parser one or more times, until it fails; fails only where the
/// first run fails.
#[derive(Clone)]
pub struct Many1<P> {
    pub parser: P,
}

/// Builds the parser that repeats `p` one or more times.
pub fn many1<P: Parser>(p: P) -> (r: Many1<P>)
    ensures
        r.parser == p,
{
    Many1 { parser: p }
}

impl<P: Parser> Parser for Many1<P> {
    type Input = P::Input;

    type Output = Vec<P::Output>;

    open spec fn ready(&self) -> bool {
        self.parser.ready() && consumes(self.parser)
    }

    open spec fn accepts(
        &self,
        s: Seq<<P::Input as Stream>::Item>,
        out: Vec<P::Output>,
        rest: Seq<<P::Input as Stream>::Item>,
    ) -> bool {
        &&& out@.len() > 0
        &&& exists|mid: Seq<<P::Input as Stream>::Item>|
            #[trigger] self.parser.accepts(s, out@[0], mid) && many_accepts(
                self.parser,
                mid,
                out@.drop_first(),
                rest,
            )
    }

    open spec fn rejects(&self, s: Seq<<P::Input as Stream>::Item>) -> bool {
        self.parser.rejects(s)
    }

    fn parse(&self, input: P::Input) -> (r: ParseResult<Vec<P::Output>, P::Input>) {
        let (first, rest) = match self.parser.parse(input) {
            Ok(v) => v,
            Err(e) => {
                return Err(e);
            },
        };
        let ghost mid = rest.items();
        let ghost head = first;
        let mut result = vec![first];
        match many_append(&self.parser, rest, &mut result) {
            Ok((_, rest)) => {
                assert(result@.skip(1) =~= result@.drop_first());
                assert(self.parser.accepts(input.items(), result@[0], mid));
                Ok((result, rest))
            },
            Err(e) => Err(e),
        }
    }
}

} // verus!
