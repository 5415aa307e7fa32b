use parser_combinators::{
    and_then, char, digit, many, many1, optional, satisfy, sep_by, space, string, Env, Error,
    FnParser, ParseResult, Parser, ParserExt, Stream,
};

fn integer<I>(input: I) -> ParseResult<i64, I>
where
    I: Stream<Item = char>,
{
    let mut env = Env::new(input);
    let chars = env.with(many(FnParser::new(digit::<I>)))?;
    let mut n = 0;
    for &c in chars.iter() {
        n = n * 10 + (c as i64 - '0' as i64);
    }
    env.result(n)
}

#[test]
fn test_integer() {
    assert_eq!(FnParser::new(integer).parse("123"), Ok((123i64, "")));
}

#[test]
fn list() {
    let p = sep_by(FnParser::new(integer), satisfy(|c| c == ','));
    assert_eq!(p.parse("123,4,56"), Ok((vec![123, 4, 56], "")));
}

#[test]
fn iterator() {
    let result = FnParser::new(integer)
        .parse("123".chars())
        .map(|(i, mut iter)| (i, iter.next()));
    assert_eq!(result, Ok((123i64, None)));
}

#[test]
fn field() {
    let word = many(satisfy(|c| c.is_alphanumeric()));
    let word2 = many(satisfy(|c| c.is_alphanumeric()));
    let spaces = many(space());
    let c_decl = word
        .and_then(spaces.clone())
        .and_then(satisfy(|c| c == ':'))
        .and_then(spaces)
        .and_then(word2)
        .parse("x: int")
        .map(|(((((ret, _), _), _), name), rest)| ((ret, name), rest));
    assert_eq!(c_decl, Ok(((vec!['x'], vec!['i', 'n', 't']), "")));
}

#[test]
fn satisfy_takes_one_matching_item() {
    let p = satisfy(|c| c == 'a');
    assert_eq!(p.parse("abc"), Ok(('a', "bc")));
}

#[test]
fn satisfy_fails_on_mismatch_or_empty() {
    let p = satisfy(|c| c == 'a');
    assert_eq!(p.parse("xbc"), Err(Error));
    assert_eq!(p.parse(""), Err(Error));
}

#[test]
fn string_matches_prefix() {
    assert_eq!(string("abc").parse("abcd"), Ok(("abc", "d")));
}

#[test]
fn string_fails_on_mismatch() {
    assert_eq!(string("abc").parse("abx"), Err(Error));
    assert_eq!(string("abc").parse("ab"), Err(Error));
}

#[test]
fn string_reads_multibyte_text() {
    assert_eq!(string("é").parse("éa"), Ok(("é", "a")));
}

#[test]
fn many_digits_reads_all() {
    let p = many(FnParser::new(digit));
    assert_eq!(p.parse("123"), Ok((vec!['1', '2', '3'], "")));
}

#[test]
fn many_digits_on_letters_is_empty() {
    let p = many(FnParser::new(digit));
    assert_eq!(p.parse("abc"), Ok((vec![], "abc")));
}

#[test]
fn many_of_failing_parser_twice() {
    let p = many(FnParser::new(digit));
    let first = p.parse("abc");
    let second = p.parse("abc");
    assert_eq!(first, Ok((vec![], "abc")));
    assert_eq!(second, first);
}

#[test]
fn many1_fails_without_first() {
    let p = many1(FnParser::new(digit));
    assert_eq!(p.parse("abc"), Err(Error));
}

#[test]
fn many1_reads_all() {
    let p = many1(FnParser::new(digit));
    assert_eq!(p.parse("12a"), Ok((vec!['1', '2'], "a")));
}

#[test]
fn optional_success() {
    let p = optional(string("ab"));
    assert_eq!(p.parse("abc"), Ok((Some("ab"), "c")));
}

#[test]
fn optional_failure_keeps_input() {
    let p = optional(string("ab"));
    assert_eq!(p.parse("axc"), Ok((None, "axc")));
}

#[test]
fn sep_by_empty_when_first_fails() {
    let p = sep_by(FnParser::new(digit), satisfy(|c| c == ','));
    assert_eq!(p.parse(",1"), Ok((vec![], ",1")));
}

#[test]
fn sep_by_stops_before_dangling_separator() {
    let p = sep_by(FnParser::new(digit), satisfy(|c| c == ','));
    assert_eq!(p.parse("1,2,x"), Ok((vec!['1', '2'], ",x")));
}

#[test]
fn and_then_pairs_outputs() {
    let p = and_then(FnParser::new(digit), FnParser::new(char));
    assert_eq!(p.parse("1x!"), Ok((('1', 'x'), "!")));
    assert_eq!(p.parse("x1"), Err(Error));
}

#[test]
fn env_failure_keeps_input() {
    let mut env = Env::new("a1");
    assert_eq!(env.with(FnParser::new(digit)), Err(Error));
    assert_eq!(env.with(FnParser::new(char)), Ok('a'));
    assert_eq!(env.with(FnParser::new(digit)), Ok('1'));
    assert_eq!(env.result(7), Ok((7, "")));
}

#[test]
fn space_reads_white_space_only() {
    let p = space();
    assert_eq!(p.parse("\tx"), Ok(('\t', "x")));
    assert_eq!(p.parse("x "), Err(Error));
}

#[test]
fn slice_stream_yields_references() {
    let data = [1u8, 2, 3];
    let s: &[u8] = &data;
    let (x, rest) = s.uncons().unwrap();
    assert_eq!(*x, 1);
    assert_eq!(rest, &[2u8, 3][..]);
    let empty: &[u8] = &[];
    assert!(empty.uncons().is_err());
}

#[test]
fn chars_stream_advances() {
    let (c, rest) = "éb".chars().uncons().unwrap();
    assert_eq!(c, 'é');
    assert_eq!(rest.as_str(), "b");
    let dup = rest.duplicate();
    assert_eq!(dup.as_str(), "b");
}

#[test]
fn text_stream_empty_fails() {
    assert_eq!("".uncons(), Err(Error));
    assert_eq!(char("z"), Ok(('z', "")));
}
