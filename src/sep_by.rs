use vstd::prelude::*;
use crate::parser::Parser;
use crate::stream::{Error, ParseResult, Stream};

verus! {

/// On `s`, the separator and then `p` may run in turn, `p` giving `out` and
/// leaving `rest`.
pub open spec fn sep_then<P: Parser, S: Parser<Input = P::Input>>(
    p: P,
    sep: S,
    s: Seq<<P::Input as Stream>::Item>,
    out: P::Output,
    rest: Seq<<P::Input as Stream>::Item>,
) -> bool {
    exists|x: S::Output, mid: Seq<<P::Input as Stream>::Item>|
        #[trigger] sep.accepts(s, x, mid) && p.accepts(mid, out, rest)
}

/// On `s`, the separator may fail, or succeed and leave what `p` may fail on.
pub open spec fn sep_stops<P: Parser, S: Parser<Input = P::Input>>(
    p: P,
    sep: S,
    s: Seq<<P::Input as Stream>::Item>,
) -> bool {
    ||| sep.rejects(s)
    ||| exists|x: S::Output, mid: Seq<<P::Input as Stream>::Item>|
        #[trigger] sep.accepts(s, x, mid) && p.rejects(mid)
}

/// `trail` holds the items before and after each separator-then-item step.
pub open spec fn sep_chain<P: Parser, S: Parser<Input = P::Input>>(
    p: P,
    sep: S,
    outs: Seq<P::Output>,
    trail: Seq<Seq<<P::Input as Stream>::Item>>,
) -> bool {
    &&& trail.len() == outs.len() + 1
    &&& forall|i: int|
        0 <= i < outs.len() ==> #[trigger] sep_then(p, sep, trail[i], outs[i], trail[i + 1])
}

/// Every separator-then-item step leaves strictly fewer items than it was given.
pub open spec fn sep_consumes<P: Parser, S: Parser<Input = P::Input>>(p: P, sep: S) -> bool {
    forall|s: Seq<<P::Input as Stream>::Item>, out: P::Output, rest: Seq<<P::Input as Stream>::Item>|
        #[trigger] sep_then(p, sep, s, out, rest) ==> rest.len() < s.len()
}

/// Items read by `p`, separated by what `sep` reads; never fails, and gives
/// no items where `p` fails at once.
#[derive(Clone)]
pub struct SepBy<P, S> {
    pub parser: P,
    pub separator: S,
}

/// Builds the parser of `parser` items separated by `separator`.
pub fn sep_by<P: Parser, S: Parser<Input = P::Input>>(parser: P, separator: S) -> (r: SepBy<P, S>)
    ensures
        r.parser == parser,
        r.separator == separator,
{
    SepBy { parser, separator }
}

impl<P: Parser, S: Parser<Input = P::Input>> Parser for SepBy<P, S> {
    type Input = P::Input;

    type Output = Vec<P::Output>;

    open spec fn ready(&self) -> bool {
        &&& self.parser.ready()
        &&& self.separator.ready()
        &&& sep_consumes(self.parser, self.separator)
    }

    open spec fn accepts(
        &self,
        s: Seq<<P::Input as Stream>::Item>,
        out: Vec<P::Output>,
        rest: Seq<<P::Input as Stream>::Item>,
    ) -> bool {
        if out@.len() == 0 {
            self.parser.rejects(s) && rest == s
        } else {
            exists|trail: Seq<Seq<<P::Input as Stream>::Item>>|
                #[trigger] sep_chain(self.parser, self.separator, out@.drop_first(), trail)
                    && self.parser.accepts(s, out@[0], trail[0]) && trail.last() == rest
                    && sep_stops(self.parser, self.separator, rest)
        }
    }

    open spec fn rejects(&self, s: Seq<<P::Input as Stream>::Item>) -> bool {
        false
    }

    fn parse(&self, input: P::Input) -> (r: ParseResult<Vec<P::Output>, P::Input>) {
        let mut result: Vec<P::Output> = Vec::new();
        let (first, mut cur) = match self.parser.parse(input.duplicate()) {
            Ok(v) => v,
            Err(_) => {
                return Ok((result, input));
            },
        };
        let ghost head = first;
        let ghost mut trail = seq![cur.items()];
        result.push(first);
        proof {
            assert(result@.drop_first() =~= Seq::<P::Output>::empty());
        }
        loop
            invariant
                self.parser.ready(),
                self.separator.ready(),
                sep_consumes(self.parser, self.separator),
                result@.len() >= 1,
                result@[0] == head,
                self.parser.accepts(input.items(), head, trail[0]),
                sep_chain(self.parser, self.separator, result@.drop_first(), trail),
                trail.last() == cur.items(),
            ensures
                result@.len() >= 1,
                result@[0] == head,
                self.parser.accepts(input.items(), head, trail[0]),
                sep_chain(self.parser, self.separator, result@.drop_first(), trail),
                trail.last() == cur.items(),
                sep_stops(self.parser, self.separator, cur.items()),
            decreases cur.items().len(),
        {
            let ghost before = cur.items();
            match self.separator.parse(cur.duplicate()) {
                Ok((x, mid)) => {
                    let ghost after_sep = mid.items();
                    let ghost sep_out = x;
                    match self.parser.parse(mid) {
                        Ok((y, rest)) => {
                            let ghost outs = result@.drop_first();
                            proof {
                                assert(self.separator.accepts(before, sep_out, after_sep));
                                assert(sep_then(self.parser, self.separator, before, y, rest.items()));
                            }
                            result.push(y);
                            proof {
                                let t2 = trail.push(rest.items());
                                assert(result@.drop_first() =~= outs.push(y));
                                assert forall|i: int|
                                    0 <= i < result@.drop_first().len() implies #[trigger] sep_then(
                                    self.parser,
                                    self.separator,
                                    t2[i],
                                    result@.drop_first()[i],
                                    t2[i + 1],
                                ) by {
                                    if i < outs.len() {
                                        assert(sep_then(self.parser, self.separator, trail[i], outs[i], trail[i + 1]));
                                    }
                                }
                                trail = t2;
                            }
                            cur = rest;
                        },
                        Err(_) => {
                            assert(self.separator.accepts(before, sep_out, after_sep));
                            break ;
                        },
                    }
                },
                Err(_) => {
                    break ;
                },
            }
        }
        Ok((result, cur))
    }
}

} // verus!
