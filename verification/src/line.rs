//! Line-number labels of the difference report.

use vstd::prelude::*;

verus! {

/// Width of a label column, in characters.
pub const LABEL_WIDTH: usize = 4;

/// The decimal digit for `d`, which is below ten.
pub open spec fn digit(d: nat) -> char {
    if d == 0 {
        '0'
    } else if d == 1 {
        '1'
    } else if d == 2 {
        '2'
    } else if d == 3 {
        '3'
    } else if d == 4 {
        '4'
    } else if d == 5 {
        '5'
    } else if d == 6 {
        '6'
    } else if d == 7 {
        '7'
    } else if d == 8 {
        '8'
    } else {
        '9'
    }
}

/// The decimal numeral of `n`, most significant digit first, without
/// leading zeros.
pub open spec fn decimal(n: nat) -> Seq<char>
    decreases n,
{
    if n < 10 {
        seq![digit(n)]
    } else {
        decimal(n / 10).push(digit(n % 10))
    }
}

/// `s` followed by as many spaces as it lacks to `width` characters.
pub open spec fn pad_right(s: Seq<char>, width: nat) -> Seq<char> {
    if s.len() >= width {
        s
    } else {
        s + Seq::new((width - s.len()) as nat, |i: int| ' ')
    }
}

/// The label of a line index: blank where the line has no counterpart on
/// that side, else the one-based line number, left-aligned.
pub open spec fn line_label(index: Option<usize>) -> Seq<char> {
    match index {
        None => Seq::new(LABEL_WIDTH as nat, |i: int| ' '),
        Some(i) => pad_right(decimal((i + 1) as nat), LABEL_WIDTH as nat),
    }
}

/// A zero-based line index on one side of the difference, or none.
#[derive(Clone, Copy, Debug, PartialEq, Eq)]
pub struct Line(pub Option<usize>);

fn digit_str(d: u128) -> (s: &'static str)
    requires
        d < 10,
    ensures
        s@ == seq![digit(d as nat)],
{
    proof {
        reveal_strlit("0");
        reveal_strlit("1");
        reveal_strlit("2");
        reveal_strlit("3");
        reveal_strlit("4");
        reveal_strlit("5");
        reveal_strlit("6");
        reveal_strlit("7");
        reveal_strlit("8");
        reveal_strlit("9");
    }
    let s: &'static str = if d == 0 {
        "0"
    } else if d == 1 {
        "1"
    } else if d == 2 {
        "2"
    } else if d == 3 {
        "3"
    } else if d == 4 {
        "4"
    } else if d == 5 {
        "5"
    } else if d == 6 {
        "6"
    } else if d == 7 {
        "7"
    } else if d == 8 {
        "8"
    } else {
        "9"
    };
    assert(s@ =~= seq![digit(d as nat)]);
    s
}

/// Appends the decimal numeral of `n` to `out`.
fn push_decimal(out: &mut String, n: u128)
    ensures
        final(out)@ == old(out)@ + decimal(n as nat),
    decreases n,
{
    if n >= 10 {
        push_decimal(out, n / 10);
    }
    out.append(digit_str(n % 10));
    assert(final(out)@ =~= old(out)@ + decimal(n as nat));
}

/// How many digits the numerals of small and of large numbers have.
pub proof fn lemma_decimal_len(n: nat)
    ensures
        n < 10 ==> decimal(n).len() == 1,
        10 <= n < 100 ==> decimal(n).len() == 2,
        100 <= n < 1000 ==> decimal(n).len() == 3,
        1000 <= n < 10000 ==> decimal(n).len() == 4,
        1000 <= n ==> decimal(n).len() >= 4,
    decreases n,
{
    if n >= 10 {
        lemma_decimal_len(n / 10);
    }
}

/// The label of no line, and of any line up to the 9999th, fills its
/// column exactly.
pub proof fn lemma_label_fills_column(index: Option<usize>)
    requires
        index matches Some(i) ==> i < 9999,
    ensures
        line_label(index).len() == LABEL_WIDTH,
{
    match index {
        None => {},
        Some(i) => {
            lemma_decimal_len((i + 1) as nat);
        },
    }
}

impl Line {
    /// The label shown for this line in a number column.
    pub fn label(&self) -> (text: String)
        ensures
            text@ == line_label(self.0),
            text@.len() >= LABEL_WIDTH,
    {
        let mut text = String::new();
        let mut missing: usize = LABEL_WIDTH;
        match self.0 {
            None => {},
            Some(i) => {
                let n: u128 = i as u128 + 1;
                push_decimal(&mut text, n);
                proof {
                    lemma_decimal_len(n as nat);
                }
                missing = if n < 10 {
                    3
                } else if n < 100 {
                    2
                } else if n < 1000 {
                    1
                } else {
                    0
                };
            },
        }
        let ghost numeral = text@;
        let ghost padding = missing;
        while missing > 0
            invariant
                missing <= padding,
                text@ =~= numeral + Seq::new((padding - missing) as nat, |i: int| ' '),
            decreases missing,
        {
            proof {
                reveal_strlit(" ");
            }
            text.append(" ");
            missing = missing - 1;
        }
        assert(text@ =~= line_label(self.0));
        text
    }
}

} // verus!
