//! The text that goes into the query of the authorization URL, and how much
//! room it can take.

use vstd::prelude::*;
use vstd::utf8::{encode_utf8, is_ascii_chars, is_ascii_chars_encode_utf8};

verus! {

/// `words` written one after the other with a single space between each two:
/// what `join(" ")` makes of a slice of strings.
pub open spec fn joined(words: Seq<Seq<char>>) -> Seq<char>
    decreases words.len(),
{
    if words.len() == 0 {
        Seq::empty()
    } else if words.len() == 1 {
        words[0]
    } else {
        joined(words.drop_last()) + seq![' '] + words.last()
    }
}

/// No more bytes than `pairs` can take in a query: percent-encoding makes at
/// most three bytes of one, and each pair brings an `=` and a separator.
pub open spec fn query_room(pairs: Seq<(Seq<char>, Seq<char>)>) -> nat
    decreases pairs.len(),
{
    if pairs.len() == 0 {
        0
    } else {
        query_room(pairs.drop_last()) + 3 * encode_utf8(pairs.last().0).len() + 3 * encode_utf8(
            pairs.last().1,
        ).len() + 2
    }
}

/// Words of at most `longest` characters each, joined, come to at most
/// `longest + 1` characters per word.
pub proof fn lemma_joined_len(words: Seq<Seq<char>>, longest: nat)
    requires
        forall|i: int| 0 <= i < words.len() ==> (#[trigger] words[i]).len() <= longest,
    ensures
        joined(words).len() <= words.len() * (longest + 1),
    decreases words.len(),
{
    if words.len() >= 2 {
        let front = words.drop_last();
        lemma_joined_len(front, longest);
        assert(front.len() * (longest + 1) + (longest + 1) == words.len() * (longest + 1))
            by (nonlinear_arith)
            requires
                front.len() + 1 == words.len(),
        ;
    } else if words.len() == 1 {
        assert(1 * (longest + 1) == longest + 1) by (nonlinear_arith);
    }
}

/// Joining ASCII words gives ASCII text.
pub proof fn lemma_joined_ascii(words: Seq<Seq<char>>)
    requires
        forall|i: int| 0 <= i < words.len() ==> is_ascii_chars(#[trigger] words[i]),
    ensures
        is_ascii_chars(joined(words)),
    decreases words.len(),
{
    if words.len() >= 2 {
        lemma_joined_ascii(words.drop_last());
    }
}

/// ASCII text takes one byte for each character.
pub proof fn lemma_ascii_bytes(text: Seq<char>)
    requires
        is_ascii_chars(text),
    ensures
        encode_utf8(text).len() == text.len(),
{
    is_ascii_chars_encode_utf8(text);
}

} // verus!
