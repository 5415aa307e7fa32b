use vstd::prelude::*;
use std::str::Chars;
use vstd::string::{StrSliceExecFns, StringSliceAdditionalSpecFns};
use vstd::utf8::{
    encode_utf8, encode_utf8_decode_utf8, encode_utf8_first_scalar, encode_utf8_valid_utf8,
    is_char_boundary, length_of_first_scalar, pop_first_scalar,
};

verus! {

/// The single failure marker of the library: it carries no cause and no position.
#[derive(Clone, Copy, Debug, PartialEq, Eq, Structural)]
pub struct Error;

/// Either the output of a parse together with the remaining input, or failure.
pub type ParseResult<O, I> = Result<(O, I), Error>;

/// The remaining, unconsumed input of a parse.
pub trait Stream: Sized {
    type Item;

    /// The items that are still to be read, in order.
    spec fn items(&self) -> Seq<Self::Item>;

    /// Splits off the next item; fails when nothing is left.
    fn uncons(self) -> (r: ParseResult<Self::Item, Self>)
        ensures
            r is Err <==> self.items().len() == 0,
            r matches Ok((x, rest)) ==> x == self.items()[0] && rest.items() == self.items().drop_first(),
    ;

    /// A copy of the stream that reads the same items; taking it has no other effect.
    fn duplicate(&self) -> (r: Self)
        ensures
            r.items() == self.items(),
    ;
}

proof fn lemma_first_char_boundary(chars: Seq<char>)
    requires
        chars.len() > 0,
    ensures
        is_char_boundary(encode_utf8(chars), length_of_first_scalar(encode_utf8(chars))),
        pop_first_scalar(encode_utf8(chars)) == encode_utf8(chars.drop_first()),
        0 < length_of_first_scalar(encode_utf8(chars)) <= encode_utf8(chars).len(),
{
    let bytes = encode_utf8(chars);
    encode_utf8_first_scalar(chars);
    encode_utf8_valid_utf8(chars);
    assert(pop_first_scalar(bytes) =~= encode_utf8(chars.drop_first()));
    assert(bytes.len() >= length_of_first_scalar(bytes));
    assert(is_char_boundary(pop_first_scalar(bytes), 0));
}

impl<'a> Stream for &'a str {
    type Item = char;

    open spec fn items(&self) -> Seq<char> {
        (**self)@
    }

    fn uncons(self) -> (r: ParseResult<char, &'a str>) {
        if self.is_empty() {
            return Err(Error);
        }
        let bytes = self.as_bytes();
        proof {
            lemma_first_char_boundary(self@);
        }
        let lead = bytes[0];
        let width: usize = if lead < 0x80 {
            1
        } else if lead < 0xe0 {
            2
        } else if lead < 0xf0 {
            3
        } else {
            4
        };
        proof {
            encode_utf8_first_scalar(self@);
            assert(bytes@ == encode_utf8(self@));
            assert(width == length_of_first_scalar(bytes@));
        }
        let c = self.get_char(0);
        let (_, rest) = self.split_at(width);
        proof {
            assert(rest.spec_bytes() == encode_utf8(self@.drop_first()));
            encode_utf8_decode_utf8(rest@);
            encode_utf8_decode_utf8(self@.drop_first());
        }
        Ok((c, rest))
    }

    fn duplicate(&self) -> (r: &'a str) {
        *self
    }
}

impl<'a, T> Stream for &'a [T] {
    type Item = &'a T;

    open spec fn items(&self) -> Seq<&'a T> {
        (**self)@.map_values(|x: T| &x)
    }

    fn uncons(self) -> (r: ParseResult<&'a T, &'a [T]>) {
        if self.len() == 0 {
            return Err(Error);
        }
        let (head, rest) = self.split_at(1);
        assert(rest@.map_values(|x: T| &x) =~= self.items().drop_first());
        Ok((&head[0], rest))
    }

    fn duplicate(&self) -> (r: &'a [T]) {
        *self
    }
}

/// The characters that a `Chars` iterator has yet to yield.
pub uninterp spec fn chars_left(c: Chars<'_>) -> Seq<char>;

/// Relies on `Chars::as_str`: it views the characters that the iterator has
/// yet to yield as a string slice.
pub assume_specification<'a>[ Chars::<'a>::as_str ](c: &Chars<'a>) -> (r: &'a str)
    ensures
        r@ == chars_left(*c),
;

/// Relies on `Chars::clone`: the copy yields what the original has yet to yield.
pub assume_specification<'a>[ <Chars<'a> as Clone>::clone ](c: &Chars<'a>) -> (r: Chars<'a>)
    ensures
        chars_left(r) == chars_left(*c),
;

/// Relies on `str::chars`: the iterator yields every character of `s`, in order.
#[verifier::external_body]
fn chars_of<'a>(s: &'a str) -> (r: Chars<'a>)
    ensures
        chars_left(r) == s@,
{
    s.chars()
}

/// A forward-only character sequence: each split yields a new cursor.
impl<'a> Stream for Chars<'a> {
    type Item = char;

    open spec fn items(&self) -> Seq<char> {
        chars_left(*self)
    }

    fn uncons(self) -> (r: ParseResult<char, Chars<'a>>) {
        match self.as_str().uncons() {
            Ok((c, rest)) => Ok((c, chars_of(rest))),
            Err(e) => Err(e),
        }
    }

    fn duplicate(&self) -> (r: Chars<'a>) {
        self.clone()
    }
}

} // verus!
