use vstd::prelude::*;
use crate::combinator::Optional;
use crate::parser::Parser;
use crate::primitive::Satisfy;
use crate::repeat::{chain, many_accepts, Many, Many1};
use crate::stream::Stream;

verus! {

/// A predicate that answers one way for each character.
pub open spec fn answers_once<Pred: Fn(char) -> bool>(pred: Pred) -> bool {
    forall|c: char, a: bool, b: bool|
        #![trigger call_ensures(pred, (c,), a), call_ensures(pred, (c,), b)]
        call_ensures(pred, (c,), a) && call_ensures(pred, (c,), b) ==> a == b
}

/// Where the next item satisfies the predicate, `satisfy` succeeds with that
/// item and consumes exactly it, and cannot fail; where the input is empty or
/// the next item does not satisfy it, `satisfy` fails and cannot succeed.
pub proof fn satisfy_reads_one<I: Stream<Item = char>, Pred: Fn(char) -> bool>(
    p: Satisfy<I, Pred>,
    s: Seq<char>,
)
    requires
        answers_once(p.pred),
    ensures
        s.len() > 0 && call_ensures(p.pred, (s[0],), true) ==> {
            &&& p.accepts(s, s[0], s.drop_first())
            &&& forall|out: char, rest: Seq<char>|
                #[trigger] p.accepts(s, out, rest) ==> out == s[0] && rest == s.drop_first()
            &&& !p.rejects(s)
        },
        s.len() == 0 || call_ensures(p.pred, (s[0],), false) ==> {
            &&& p.rejects(s)
            &&& forall|out: char, rest: Seq<char>| !#[trigger] p.accepts(s, out, rest)
        },
{
    if s.len() > 0 && call_ensures(p.pred, (s[0],), true) {
        if call_ensures(p.pred, (s[0],), false) {
            assert(false);
        }
    }
}

/// `optional(p)` never fails: it either succeeds as `p` does, or gives `None`
/// with the input unchanged, and only where `p` may fail.
pub proof fn optional_never_fails<P: Parser>(
    p: Optional<P>,
    s: Seq<<P::Input as Stream>::Item>,
)
    ensures
        !p.rejects(s),
        forall|out: Option<P::Output>, rest: Seq<<P::Input as Stream>::Item>|
            #[trigger] p.accepts(s, out, rest) ==> match out {
                Some(x) => p.0.accepts(s, x, rest),
                None => p.0.rejects(s) && rest == s,
            },
{
}

/// Where `p` cannot succeed on `s`, `many(p)` gives no outputs and leaves `s`
/// as it was, on every run.
pub proof fn many_of_failing_is_identity<P: Parser>(
    p: Many<P>,
    s: Seq<<P::Input as Stream>::Item>,
)
    requires
        forall|out: P::Output, rest: Seq<<P::Input as Stream>::Item>|
            !#[trigger] p.parser.accepts(s, out, rest),
    ensures
        !p.rejects(s),
        forall|outs: Vec<P::Output>, rest: Seq<<P::Input as Stream>::Item>|
            #[trigger] p.accepts(s, outs, rest) ==> outs@.len() == 0 && rest == s,
{
    assert forall|outs: Vec<P::Output>, rest: Seq<<P::Input as Stream>::Item>|
        #[trigger] p.accepts(s, outs, rest) implies outs@.len() == 0 && rest == s by {
        let trail = choose|trail: Seq<Seq<<P::Input as Stream>::Item>>|
            #[trigger] chain(p.parser, outs@, trail) && trail[0] == s && trail.last() == rest;
        if outs@.len() > 0 {
            let i: int = 0;
            assert(p.parser.accepts(trail[i], outs@[i], trail[i + 1]));
        }
    }
}

/// Where `p` cannot succeed on `s`, `many1(p)` cannot succeed either; where
/// `p` may fail there, so may `many1(p)`.
pub proof fn many1_needs_one<P: Parser>(p: Many1<P>, s: Seq<<P::Input as Stream>::Item>)
    requires
        forall|out: P::Output, rest: Seq<<P::Input as Stream>::Item>|
            !#[trigger] p.parser.accepts(s, out, rest),
    ensures
        forall|outs: Vec<P::Output>, rest: Seq<<P::Input as Stream>::Item>|
            !#[trigger] p.accepts(s, outs, rest),
        p.parser.rejects(s) ==> p.rejects(s),
{
}

} // verus!
