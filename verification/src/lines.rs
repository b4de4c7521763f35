//! The lines of a text, as the difference engine counts them.

use vstd::prelude::*;

verus! {

/// Whether the character at `i` is the last of a line. A line feed ends a
/// line; so does a carriage return that no line feed follows. A carriage
/// return and the line feed after it end one line together.
pub open spec fn ends_line(text: Seq<char>, i: int) -> bool {
    text[i] == '\n' || (text[i] == '\r' && (i + 1 == text.len() || text[i + 1] != '\n'))
}

/// How many of the first `upto` characters are the last of a line.
pub open spec fn line_ends(text: Seq<char>, upto: nat) -> nat
    decreases upto,
{
    if upto == 0 {
        0
    } else {
        line_ends(text, (upto - 1) as nat) + if ends_line(text, upto - 1) {
            1nat
        } else {
            0nat
        }
    }
}

/// The number of lines of a text: one for every line end, and one more for
/// what follows the last line end, if anything does. No line is empty.
pub open spec fn line_count(text: Seq<char>) -> nat {
    line_ends(text, text.len()) + if text.len() > 0 && !ends_line(text, text.len() - 1) {
        1nat
    } else {
        0nat
    }
}

/// No more line ends than characters.
pub proof fn lemma_line_ends_bound(text: Seq<char>, upto: nat)
    ensures
        line_ends(text, upto) <= upto,
    decreases upto,
{
    if upto > 0 {
        lemma_line_ends_bound(text, (upto - 1) as nat);
    }
}

/// A text has no more lines than characters.
pub proof fn lemma_line_count_bound(text: Seq<char>)
    ensures
        line_count(text) <= text.len(),
{
    if text.len() > 0 {
        lemma_line_ends_bound(text, (text.len() - 1) as nat);
    }
}

} // verus!
