//! Splitting an argument string into its tokens.

use crate::operation::texts;
use vstd::prelude::*;

verus! {

/// The tokens of `s`: the pieces between its spaces, in order. Every space
/// separates two tokens, so a string with `k` spaces has `k + 1` tokens, some
/// of them empty where spaces touch each other or an end of the string.
pub open spec fn split_spaces(s: Seq<char>) -> Seq<Seq<char>>
    decreases s.len(),
{
    if s.len() == 0 {
        seq![Seq::empty()]
    } else {
        let before = split_spaces(s.drop_last());
        if s.last() == ' ' {
            before.push(Seq::empty())
        } else {
            before.update(before.len() - 1, before.last().push(s.last()))
        }
    }
}

/// The pieces of `parts` with `separator` between each two neighbours.
pub open spec fn joined(parts: Seq<Seq<char>>, separator: Seq<char>) -> Seq<char>
    decreases parts.len(),
{
    if parts.len() == 0 {
        Seq::empty()
    } else if parts.len() == 1 {
        parts[0]
    } else {
        joined(parts.drop_last(), separator) + separator + parts.last()
    }
}

/// Splitting loses nothing and leaves no space behind: there is at least one
/// token, no token holds a space, and the tokens joined by single spaces are
/// `s` again.
pub proof fn lemma_split_spaces_tokens(s: Seq<char>)
    ensures
        split_spaces(s).len() >= 1,
        forall|i: int|
            0 <= i < split_spaces(s).len() ==> !(#[trigger] split_spaces(s)[i]).contains(' '),
        joined(split_spaces(s), seq![' ']) == s,
    decreases s.len(),
{
    if s.len() > 0 {
        let before = split_spaces(s.drop_last());
        lemma_split_spaces_tokens(s.drop_last());
        let tokens = split_spaces(s);
        if s.last() == ' ' {
            assert(tokens.drop_last() == before);
        } else {
            assert(tokens.drop_last() == before.drop_last());
            assert forall|i: int| 0 <= i < tokens.len() implies !(#[trigger] tokens[i]).contains(
                ' ',
            ) by {
                let token = tokens[i];
                assert forall|k: int| 0 <= k < token.len() implies token[k] != ' ' by {
                    if i == tokens.len() - 1 && k < token.len() - 1 {
                        assert(before.last().contains(token[k]));
                    }
                }
            }
        }
        assert(s == s.drop_last().push(s.last()));
    }
}

/// Splits `s` at every space.
pub fn split_on_spaces(s: &str) -> (tokens: Vec<String>)
    ensures
        texts(tokens@) == split_spaces(s@),
{
    broadcast use vstd::string::group_string_axioms;

    let mut tokens: Vec<String> = Vec::new();
    let length: usize = s.unicode_len();
    let mut start: usize = 0;
    let mut position: usize = 0;
    assert(s@.take(0) == Seq::<char>::empty());
    for c in it: s.chars()
        invariant
            it.seq() == s@,
            length == s@.len(),
            position == it.index(),
            start <= position,
            split_spaces(s@.take(position as int)) == texts(tokens@).push(
                s@.subrange(start as int, position as int),
            ),
    {
        let ghost upto = s@.take(position + 1);
        assert(upto.drop_last() == s@.take(position as int));
        if c == ' ' {
            let token = String::from_str(s.substring_char(start, position));
            tokens.push(token);
            start = position + 1;
            assert(s@.subrange(start as int, start as int) == Seq::<char>::empty());
        } else {
            assert(s@.subrange(start as int, position as int).push(c) == s@.subrange(
                start as int,
                position + 1,
            ));
        }
        position = position + 1;
    }
    assert(s@.take(position as int) == s@);
    let token = String::from_str(s.substring_char(start, position));
    tokens.push(token);
    tokens
}

} // verus!
