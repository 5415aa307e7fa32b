use vstd::prelude::*;
use std::marker::PhantomData;
use crate::parser::Parser;
use crate::stream::{Error, ParseResult, Stream};

verus! {

/// Reads one character and succeeds with it when `pred` holds of it.
pub struct Satisfy<I, Pred> {
    pub pred: Pred,
    pub marker: PhantomData<I>,
}

impl<I, Pred: Clone> Clone for Satisfy<I, Pred> {
    fn clone(&self) -> (r: Self) {
        Satisfy { pred: self.pred.clone(), marker: PhantomData }
    }
}

/// Builds the parser that reads one character satisfying `pred`.
pub fn satisfy<I: Stream<Item = char>, Pred: Fn(char) -> bool>(pred: Pred) -> (r: Satisfy<I, Pred>)
    ensures
        r.pred == pred,
{
    Satisfy { pred, marker: PhantomData }
}

impl<I: Stream<Item = char>, Pred: Fn(char) -> bool> Parser for Satisfy<I, Pred> {
    type Input = I;

    type Output = char;

    open spec fn ready(&self) -> bool {
        forall|c: char| call_requires(self.pred, (c,))
    }

    open spec fn accepts(&self, s: Seq<char>, out: char, rest: Seq<char>) -> bool {
        &&& s.len() > 0
        &&& out == s[0]
        &&& rest == s.drop_first()
        &&& call_ensures(self.pred, (s[0],), true)
    }

    open spec fn rejects(&self, s: Seq<char>) -> bool {
        s.len() == 0 || call_ensures(self.pred, (s[0],), false)
    }

    fn parse(&self, input: I) -> (r: ParseResult<char, I>) {
        match input.uncons() {
            Ok((c, rest)) => {
                if (self.pred)(c) {
                    Ok((c, rest))
                } else {
                    Err(Error)
                }
            },
            Err(err) => Err(err),
        }
    }
}

/// Whether `c` has the Unicode `White_Space` property, as `char::is_whitespace` tells.
pub uninterp spec fn whitespace(c: char) -> bool;

/// Relies on `char::is_whitespace`: whether the character is Unicode white space.
#[verifier::external_body]
fn is_whitespace(c: char) -> (r: bool)
    ensures
        r == whitespace(c),
{
    c.is_whitespace()
}

/// Builds the parser that reads one white-space character.
pub fn space<I: Stream<Item = char>>() -> (r: Satisfy<I, impl Fn(char) -> bool + Clone>)
    ensures
        forall|c: char| call_requires(r.pred, (c,)),
        forall|c: char, b: bool| call_ensures(r.pred, (c,), b) ==> b == whitespace(c),
{
    satisfy(|c: char| -> (b: bool)
        ensures
            b == whitespace(c),
        { is_whitespace(c) })
}

/// Matches a literal text exactly, one character at a time, and succeeds with
/// the literal. Characters matched before a mismatch stay consumed.
pub struct StringP<'a, I> {
    pub s: &'a str,
    pub marker: PhantomData<I>,
}

impl<'a, I> Clone for StringP<'a, I> {
    fn clone(&self) -> (r: Self)
        ensures
            r.s == self.s,
    {
        StringP { s: self.s, marker: PhantomData }
    }
}

/// Builds the parser that matches the literal `s`.
pub fn string<I: Stream<Item = char>>(s: &str) -> (r: StringP<'_, I>)
    ensures
        r.s == s,
{
    StringP { s, marker: PhantomData }
}

/// `lit` is the start of `s`.
pub open spec fn starts_with(s: Seq<char>, lit: Seq<char>) -> bool {
    lit.len() <= s.len() && s.subrange(0, lit.len() as int) == lit
}

impl<'a, I: Stream<Item = char>> Parser for StringP<'a, I> {
    type Input = I;

    type Output = &'a str;

    open spec fn ready(&self) -> bool {
        true
    }

    open spec fn accepts(&self, s: Seq<char>, out: &'a str, rest: Seq<char>) -> bool {
        &&& starts_with(s, self.s@)
        &&& out == self.s
        &&& rest == s.skip(self.s@.len() as int)
    }

    open spec fn rejects(&self, s: Seq<char>) -> bool {
        !starts_with(s, self.s@)
    }

    fn parse(&self, input: I) -> (r: ParseResult<&'a str, I>) {
        let ghost s0 = input.items();
        let ghost lit0 = self.s@;
        let mut cur = input;
        let mut lit: &'a str = self.s;
        let ghost mut k: int = 0;
        loop
            invariant
                lit0 == self.s@,
                s0 == input.items(),
                0 <= k <= lit0.len(),
                k <= s0.len(),
                lit.items() == lit0.skip(k),
                cur.items() == s0.skip(k),
                s0.subrange(0, k) == lit0.subrange(0, k),
            ensures
                k == lit0.len(),
                cur.items() == s0.skip(k),
                s0.subrange(0, k) == lit0.subrange(0, k),
            decreases lit.items().len(),
        {
            match lit.uncons() {
                Ok((c, lit_rest)) => {
                    match cur.uncons() {
                        Ok((other, rest)) => {
                            if c != other {
                                proof {
                                    assert(other == s0[k]);
                                    assert(c == lit0[k]);
                                    if lit0.len() <= s0.len() {
                                        assert(s0.subrange(0, lit0.len() as int)[k] == s0[k]);
                                    }
                                    assert(!starts_with(s0, lit0));
                                }
                                return Err(Error);
                            }
                            proof {
                                assert(s0.subrange(0, k + 1) =~= s0.subrange(0, k).push(other));
                                assert(lit0.subrange(0, k + 1) =~= lit0.subrange(0, k).push(c));
                                assert(lit_rest.items() =~= lit0.skip(k + 1));
                                assert(rest.items() =~= s0.skip(k + 1));
                                k = k + 1;
                            }
                            cur = rest;
                            lit = lit_rest;
                        },
                        Err(err) => {
                            assert(lit0.skip(k).len() > 0);
                            return Err(err);
                        },
                    }
                },
                Err(_) => {
                    assert(lit0.skip(k).len() == 0);
                    break ;
                },
            }
        }
        proof {
            assert(lit0.subrange(0, k) =~= lit0);
        }
        Ok((self.s, cur))
    }
}

} // verus!
