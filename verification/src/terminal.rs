//! The report as text for a terminal, with colour and emphasis.

use vstd::prelude::*;

use crate::report::{pieces_text, rows_text, rows_view, Emphasis, Piece, PieceView, Row, RowView, Style, Tone};

verus! {

/// What a terminal style makes of a text: the text, enclosed in the escape
/// sequences of the style where colours are on. The style is named the way
/// `console` spells styles, with a dot between its terms.
pub uninterp spec fn styled(style: Seq<char>, text: Seq<char>, colors: bool) -> Seq<char>;

/// Calls `console::Style::from_dotted_str`, `Style::force_styling` and
/// `Style::apply_to`, and formats the styled text. Trusted: with the
/// styling forced on or off the result depends on the arguments alone,
/// and forced off it is the text itself.
#[verifier::external_body]
fn apply_style(style: &str, text: &str, colors: bool) -> (out: String)
    ensures
        out@ == styled(style@, text@, colors),
        !colors ==> out@ == text@,
{
    console::Style::from_dotted_str(style).force_styling(colors).apply_to(text).to_string()
}

/// Calls `console::colors_enabled`. Trusted: nothing. The answer depends
/// on the terminal that the standard output is and on the environment.
#[verifier::external_body]
fn stdout_colors() -> bool {
    console::colors_enabled()
}

/// The name of a tone with an emphasis.
pub open spec fn style_name(tone: Tone, emphasis: Emphasis) -> Seq<char> {
    match (tone, emphasis) {
        (Tone::Dim, Emphasis::Regular) => "dim"@,
        (Tone::Dim, Emphasis::Bold) => "dim.bold"@,
        (Tone::Dim, Emphasis::Underlined) => "dim.underlined"@,
        (Tone::Red, Emphasis::Regular) => "red"@,
        (Tone::Red, Emphasis::Bold) => "red.bold"@,
        (Tone::Red, Emphasis::Underlined) => "red.underlined"@,
        (Tone::Green, Emphasis::Regular) => "green"@,
        (Tone::Green, Emphasis::Bold) => "green.bold"@,
        (Tone::Green, Emphasis::Underlined) => "green.underlined"@,
    }
}

/// A part of a row as a terminal shows it. A plain part is its text.
pub open spec fn painted(piece: PieceView, colors: bool) -> Seq<char> {
    match piece.style {
        Style::Plain => piece.text,
        Style::Tinted(tone, emphasis) => styled(style_name(tone, emphasis), piece.text, colors),
    }
}

/// The given parts as a terminal shows them, one after the other.
pub open spec fn pieces_painted(pieces: Seq<PieceView>, colors: bool) -> Seq<char>
    decreases pieces.len(),
{
    if pieces.len() == 0 {
        Seq::empty()
    } else {
        pieces_painted(pieces.drop_last(), colors) + painted(pieces.last(), colors)
    }
}

/// The rows of a report as a terminal shows them, one after the other.
pub open spec fn rows_painted(rows: Seq<RowView>, colors: bool) -> Seq<char>
    decreases rows.len(),
{
    if rows.len() == 0 {
        Seq::empty()
    } else {
        rows_painted(rows.drop_last(), colors) + pieces_painted(rows.last().pieces, colors)
    }
}

fn name_of(tone: Tone, emphasis: Emphasis) -> (name: &'static str)
    ensures
        name@ == style_name(tone, emphasis),
{
    match (tone, emphasis) {
        (Tone::Dim, Emphasis::Regular) => "dim",
        (Tone::Dim, Emphasis::Bold) => "dim.bold",
        (Tone::Dim, Emphasis::Underlined) => "dim.underlined",
        (Tone::Red, Emphasis::Regular) => "red",
        (Tone::Red, Emphasis::Bold) => "red.bold",
        (Tone::Red, Emphasis::Underlined) => "red.underlined",
        (Tone::Green, Emphasis::Regular) => "green",
        (Tone::Green, Emphasis::Bold) => "green.bold",
        (Tone::Green, Emphasis::Underlined) => "green.underlined",
    }
}

/// A part of a row as text for a terminal. Without colours it is the text
/// of the part.
pub fn paint(piece: &Piece, colors: bool) -> (out: String)
    ensures
        out@ == painted(piece@, colors),
        !colors ==> out@ == piece@.text,
{
    match piece.style {
        Style::Plain => piece.text.clone(),
        Style::Tinted(tone, emphasis) => apply_style(
            name_of(tone, emphasis),
            piece.text.as_str(),
            colors,
        ),
    }
}

/// The report as text for a terminal: every part of every row in its
/// style, in order. Without colours it is the plain text of the report.
pub fn terminal_text(rows: &Vec<Row>, colors: bool) -> (text: String)
    ensures
        text@ == rows_painted(rows_view(rows@), colors),
        !colors ==> text@ == rows_text(rows_view(rows@)),
{
    let mut text = String::new();
    let mut r: usize = 0;
    while r < rows.len()
        invariant
            r <= rows.len(),
            text@ == rows_painted(rows_view(rows@.take(r as int)), colors),
            !colors ==> text@ == rows_text(rows_view(rows@.take(r as int))),
        decreases rows.len() - r,
    {
        let row = &rows[r];
        let ghost before = text@;
        let mut i: usize = 0;
        while i < row.pieces.len()
            invariant
                i <= row.pieces.len(),
                text@ == before + pieces_painted(row@.pieces.take(i as int), colors),
                !colors ==> text@ == before + pieces_text(row@.pieces.take(i as int)),
            decreases row.pieces.len() - i,
        {
            proof {
                let shown = row@.pieces;
                assert(shown.take(i + 1).drop_last() =~= shown.take(i as int));
                assert(shown.take(i + 1).last() == row.pieces@[i as int]@);
            }
            let part = paint(&row.pieces[i], colors);
            text.append(part.as_str());
            assert(text@ =~= before + pieces_painted(row@.pieces.take(i + 1), colors));
            assert(!colors ==> text@ =~= before + pieces_text(row@.pieces.take(i + 1)));
            i = i + 1;
        }
        proof {
            assert(row@.pieces.take(row.pieces.len() as int) =~= row@.pieces);
            let upto = rows_view(rows@.take(r + 1));
            assert(upto.drop_last() =~= rows_view(rows@.take(r as int)));
            assert(upto.last() == row@);
        }
        r = r + 1;
    }
    proof {
        assert(rows@.take(rows.len() as int) =~= rows@);
    }
    text
}

/// The report as text for the standard output: with colours where the
/// terminal takes them, plain where it does not.
pub fn stdout_text(rows: &Vec<Row>) -> (text: String)
    ensures
        exists|colors: bool| text@ == rows_painted(rows_view(rows@), colors),
{
    let colors = stdout_colors();
    terminal_text(rows, colors)
}

} // verus!
