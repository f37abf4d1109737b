//! Splitting of the additional node arguments that are given as one string.

use vstd::prelude::*;
use crate::outside::split_shell_words;
use crate::text::split_whitespace;

verus! {

/// The words of a line, given what shell splitting made of it: those that it found, or the
/// whitespace-separated ones if the line is not valid shell syntax.
pub open spec fn words_given(
    shell: Option<Seq<Seq<char>>>,
    line: Seq<char>,
) -> Seq<Seq<char>> {
    match shell {
        Some(words) => words,
        None => crate::text::whitespace_words(line),
    }
}

/// The words of a line.
pub open spec fn argument_words(line: Seq<char>) -> Seq<Seq<char>> {
    words_given(crate::outside::shell_words(line), line)
}

/// The words of an optional line; none if there is no line.
pub open spec fn optional_words(line: Option<Seq<char>>) -> Seq<Seq<char>> {
    match line {
        Some(l) => argument_words(l),
        None => Seq::empty(),
    }
}

/// Takes the words of shell splitting, and splits at whitespace where there are none.
pub fn words_or_fallback(shell: Option<Vec<String>>, line: &str) -> (res: Vec<String>)
    ensures
        crate::text::texts(res@) == words_given(
            match shell {
                Some(words) => Some(crate::text::texts(words@)),
                None => None,
            },
            line@,
        ),
{
    match shell {
        Some(words) => words,
        None => split_whitespace(line),
    }
}

/// Parses a string of arguments into a vector of strings.
pub fn parse_args_string(args_str: &str) -> (res: Vec<String>)
    ensures
        crate::text::texts(res@) == argument_words(args_str@),
{
    words_or_fallback(split_shell_words(args_str), args_str)
}

/// Parses an optional string of arguments; without one there are no arguments.
pub fn parse_optional_args(args_str: &Option<String>) -> (res: Vec<String>)
    ensures
        crate::text::texts(res@) == optional_words(crate::text::opt_text(*args_str)),
{
    match args_str {
        Some(line) => parse_args_string(line.as_str()),
        None => {
            let res: Vec<String> = Vec::new();
            assert(crate::text::texts(res@) =~= Seq::<Seq<char>>::empty());
            res
        },
    }
}

} // verus!
