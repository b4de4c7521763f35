//! The difference report: one row for each change, two line-number
//! columns, a sign column and the text of the line.

use vstd::prelude::*;

use crate::change::{Change, Span, Tag};
use crate::line::{line_label, Line};

verus! {

/// Width of the rule between two groups, in characters.
pub const RULE_WIDTH: usize = 80;

/// The colour that a part of a row is shown in.
#[derive(Clone, Copy, Debug, PartialEq, Eq, Structural)]
pub enum Tone {
    Dim,
    Red,
    Green,
}

/// What is laid over the tone of a part.
#[derive(Clone, Copy, Debug, PartialEq, Eq, Structural)]
pub enum Emphasis {
    Regular,
    Bold,
    Underlined,
}

/// How a part of a row is shown.
#[derive(Clone, Copy, Debug, PartialEq, Eq, Structural)]
pub enum Style {
    /// As it is.
    Plain,
    /// In a tone, with an emphasis.
    Tinted(Tone, Emphasis),
}

/// A part of a row: a text and how it is shown.
#[derive(Clone, Debug, PartialEq, Eq)]
pub struct Piece {
    pub style: Style,
    pub text: String,
}

/// A part of a row, with its text as a sequence of characters.
pub struct PieceView {
    pub style: Style,
    pub text: Seq<char>,
}

impl View for Piece {
    type V = PieceView;

    open spec fn view(&self) -> PieceView {
        PieceView { style: self.style, text: self.text@ }
    }
}

/// What a row stands for.
#[derive(Clone, Copy, Debug, PartialEq, Eq, Structural)]
pub enum RowKind {
    /// The rule between two groups.
    Rule,
    /// A line of the difference, with what the change does to it.
    Line(Tag),
}

/// A row of the report.
#[derive(Clone, Debug, PartialEq, Eq)]
pub struct Row {
    pub kind: RowKind,
    /// The parts of the row, from left to right.
    pub pieces: Vec<Piece>,
}

/// A row of the report, with its parts as a sequence.
pub struct RowView {
    pub kind: RowKind,
    pub pieces: Seq<PieceView>,
}

impl View for Row {
    type V = RowView;

    open spec fn view(&self) -> RowView {
        RowView { kind: self.kind, pieces: self.pieces@.map_values(|p: Piece| p@) }
    }
}

/// The rows of a report, each as a sequence of parts.
pub open spec fn rows_view(rows: Seq<Row>) -> Seq<RowView> {
    rows.map_values(|r: Row| r@)
}

/// The character of the sign column.
pub open spec fn sign(tag: Tag) -> char {
    match tag {
        Tag::Delete => '-',
        Tag::Insert => '+',
        Tag::Equal => ' ',
    }
}

/// The tone of the sign and of the line's text.
pub open spec fn tone(tag: Tag) -> Tone {
    match tag {
        Tag::Delete => Tone::Red,
        Tag::Insert => Tone::Green,
        Tag::Equal => Tone::Dim,
    }
}

/// What separates the number columns from the sign column.
pub open spec fn column_rule() -> Seq<char> {
    seq![' ', '|']
}

/// The part that shows one part of a changed line: in the tone of the
/// change, underlined where it is what differs.
pub open spec fn span_piece(tag: Tag, span: Span) -> PieceView {
    PieceView {
        style: Style::Tinted(
            tone(tag),
            if span.emphasized {
                Emphasis::Underlined
            } else {
                Emphasis::Regular
            },
        ),
        text: span.text@,
    }
}

/// The parts that show the parts of a changed line.
pub open spec fn span_pieces(tag: Tag, spans: Seq<Span>) -> Seq<PieceView> {
    spans.map_values(|s: Span| span_piece(tag, s))
}

/// The four parts that every row of a change starts with: the two dim
/// line-number columns, the column rule and the bold sign.
pub open spec fn head_pieces(c: Change) -> Seq<PieceView> {
    seq![
        PieceView { style: Style::Tinted(Tone::Dim, Emphasis::Regular), text: line_label(c.old_index) },
        PieceView { style: Style::Tinted(Tone::Dim, Emphasis::Regular), text: line_label(c.new_index) },
        PieceView { style: Style::Plain, text: column_rule() },
        PieceView { style: Style::Tinted(tone(c.tag), Emphasis::Bold), text: seq![sign(c.tag)] },
    ]
}

/// The row of a change. Nothing follows the text of the line: the row
/// ends with a line break if and only if the line does.
pub open spec fn change_row(c: Change) -> RowView {
    RowView { kind: RowKind::Line(c.tag), pieces: head_pieces(c) + span_pieces(c.tag, c.spans@) }
}

/// The text of the rule between two groups: a full-width line of dashes.
pub open spec fn rule_text() -> Seq<char> {
    Seq::new(RULE_WIDTH as nat, |i: int| '-').push('\n')
}

/// The row of the rule between two groups.
pub open spec fn rule_row() -> RowView {
    RowView { kind: RowKind::Rule, pieces: seq![PieceView { style: Style::Plain, text: rule_text() }] }
}

/// The rows of one group: a row for each change, in order.
pub open spec fn group_rows(changes: Seq<Change>) -> Seq<RowView> {
    changes.map_values(|c: Change| change_row(c))
}

/// The rows of a report: the rows of each group, in order, with a rule
/// before every group but the first.
pub open spec fn report_rows(groups: Seq<Vec<Change>>) -> Seq<RowView>
    decreases groups.len(),
{
    if groups.len() == 0 {
        Seq::empty()
    } else if groups.len() == 1 {
        group_rows(groups.last()@)
    } else {
        report_rows(groups.drop_last()).push(rule_row()) + group_rows(groups.last()@)
    }
}

/// The sign of a change, as a string.
fn sign_str(tag: Tag) -> (s: &'static str)
    ensures
        s@ == seq![sign(tag)],
{
    proof {
        reveal_strlit("-");
        reveal_strlit("+");
        reveal_strlit(" ");
    }
    let s: &'static str = match tag {
        Tag::Delete => "-",
        Tag::Insert => "+",
        Tag::Equal => " ",
    };
    assert(s@ =~= seq![sign(tag)]);
    s
}

/// The tone of a change.
fn tone_of(tag: Tag) -> (t: Tone)
    ensures
        t == tone(tag),
{
    match tag {
        Tag::Delete => Tone::Red,
        Tag::Insert => Tone::Green,
        Tag::Equal => Tone::Dim,
    }
}

/// The row that shows one change.
pub fn row_of(change: &Change) -> (row: Row)
    ensures
        row@ == change_row(*change),
{
    let tone = tone_of(change.tag);
    let dim = Style::Tinted(Tone::Dim, Emphasis::Regular);
    let mut pieces: Vec<Piece> = Vec::new();
    pieces.push(Piece { style: dim, text: Line(change.old_index).label() });
    pieces.push(Piece { style: dim, text: Line(change.new_index).label() });
    proof {
        reveal_strlit(" |");
    }
    let bar = String::from_str(" |");
    assert(bar@ =~= column_rule());
    pieces.push(Piece { style: Style::Plain, text: bar });
    pieces.push(
        Piece {
            style: Style::Tinted(tone, Emphasis::Bold),
            text: String::from_str(sign_str(change.tag)),
        },
    );
    assert(pieces@.map_values(|p: Piece| p@) =~= head_pieces(*change));
    let mut i: usize = 0;
    while i < change.spans.len()
        invariant
            i <= change.spans.len(),
            tone == crate::report::tone(change.tag),
            pieces@.map_values(|p: Piece| p@) =~= head_pieces(*change) + span_pieces(
                change.tag,
                change.spans@.take(i as int),
            ),
        decreases change.spans.len() - i,
    {
        let span = &change.spans[i];
        let emphasis = if span.emphasized {
            Emphasis::Underlined
        } else {
            Emphasis::Regular
        };
        let piece = Piece { style: Style::Tinted(tone, emphasis), text: span.text.clone() };
        assert(piece@ == span_piece(change.tag, *span));
        let ghost shown = pieces@.map_values(|p: Piece| p@);
        pieces.push(piece);
        proof {
            let spans = change.spans@;
            assert(spans.take(i + 1) =~= spans.take(i as int).push(spans[i as int]));
            assert(span_pieces(change.tag, spans.take(i + 1)) =~= span_pieces(
                change.tag,
                spans.take(i as int),
            ).push(span_piece(change.tag, spans[i as int])));
            assert(pieces@.map_values(|p: Piece| p@) =~= shown.push(piece@));
        }
        i = i + 1;
    }
    assert(change.spans@.take(change.spans.len() as int) =~= change.spans@);
    Row { kind: RowKind::Line(change.tag), pieces }
}

/// The row of the rule between two groups.
pub fn rule() -> (row: Row)
    ensures
        row@ == rule_row(),
{
    let mut text = String::new();
    let mut i: usize = 0;
    while i < RULE_WIDTH
        invariant
            i <= RULE_WIDTH,
            text@ =~= Seq::new(i as nat, |k: int| '-'),
        decreases RULE_WIDTH - i,
    {
        proof {
            reveal_strlit("-");
        }
        text.append("-");
        i = i + 1;
    }
    proof {
        reveal_strlit("\n");
    }
    text.append("\n");
    assert(text@ =~= rule_text());
    let mut pieces: Vec<Piece> = Vec::new();
    pieces.push(Piece { style: Style::Plain, text });
    assert(pieces@.map_values(|p: Piece| p@) =~= rule_row().pieces);
    Row { kind: RowKind::Rule, pieces }
}

/// The report of a difference: a row for every change of every group, in
/// order, and a rule between two groups.
pub fn build_report(groups: &Vec<Vec<Change>>) -> (rows: Vec<Row>)
    ensures
        rows_view(rows@) == report_rows(groups@),
{
    let mut rows: Vec<Row> = Vec::new();
    let mut g: usize = 0;
    while g < groups.len()
        invariant
            g <= groups.len(),
            rows_view(rows@) == report_rows(groups@.take(g as int)),
        decreases groups.len() - g,
    {
        let ghost before = rows_view(rows@);
        if g > 0 {
            rows.push(rule());
        }
        let ghost start = rows_view(rows@);
        assert(start =~= if g > 0 {
            before.push(rule_row())
        } else {
            before
        });
        let changes = &groups[g];
        let mut i: usize = 0;
        while i < changes.len()
            invariant
                i <= changes.len(),
                rows_view(rows@) =~= start + group_rows(changes@.take(i as int)),
            decreases changes.len() - i,
        {
            let ghost shown = rows_view(rows@);
            let row = row_of(&changes[i]);
            rows.push(row);
            proof {
                assert(changes@.take(i + 1) =~= changes@.take(i as int).push(changes@[i as int]));
                assert(group_rows(changes@.take(i + 1)) =~= group_rows(
                    changes@.take(i as int),
                ).push(change_row(changes@[i as int])));
                assert(rows_view(rows@) =~= shown.push(row@));
            }
            i = i + 1;
        }
        proof {
            assert(changes@.take(changes.len() as int) =~= changes@);
            let upto = groups@.take(g + 1);
            assert(upto.drop_last() =~= groups@.take(g as int));
            assert(upto.last() == groups@[g as int]);
            if g == 0 {
                assert(before =~= Seq::<RowView>::empty());
            }
        }
        g = g + 1;
    }
    proof {
        assert(groups@.take(groups.len() as int) =~= groups@);
    }
    rows
}

/// A report has at least as many rows as its last group has changes.
pub proof fn lemma_report_holds_last_group(groups: Seq<Vec<Change>>)
    requires
        groups.len() > 0,
    ensures
        report_rows(groups).len() >= groups.last()@.len(),
{
}

/// Every row of a report is the rule or the row of a change of one of the
/// groups.
pub proof fn lemma_rows_come_from_changes(groups: Seq<Vec<Change>>, r: int)
    requires
        0 <= r < report_rows(groups).len(),
    ensures
        report_rows(groups)[r] == rule_row() || exists|g: int, i: int|
            0 <= g < groups.len() && 0 <= i < groups[g]@.len() && report_rows(groups)[r]
                == change_row(#[trigger] groups[g]@[i]),
    decreases groups.len(),
{
    let last = groups.len() - 1;
    let front = groups.drop_last();
    if groups.len() == 1 {
        assert(report_rows(groups)[r] == change_row(groups[last]@[r]));
    } else {
        let before = report_rows(front);
        if r < before.len() {
            lemma_rows_come_from_changes(front, r);
            assert(report_rows(groups)[r] == before[r]);
            if before[r] != rule_row() {
                let (g, i) = choose|g: int, i: int|
                    0 <= g < front.len() && 0 <= i < front[g]@.len() && before[r] == change_row(
                        #[trigger] front[g]@[i],
                    );
                assert(front[g] == groups[g]);
                assert(report_rows(groups)[r] == change_row(groups[g]@[i]));
            }
        } else if r == before.len() {
            assert(report_rows(groups)[r] == rule_row());
        } else {
            let i = r - before.len() - 1;
            assert(report_rows(groups)[r] == change_row(groups[last]@[i]));
        }
    }
}

/// The texts of the given parts, one after the other.
pub open spec fn pieces_text(pieces: Seq<PieceView>) -> Seq<char>
    decreases pieces.len(),
{
    if pieces.len() == 0 {
        Seq::empty()
    } else {
        pieces_text(pieces.drop_last()) + pieces.last().text
    }
}

/// The text of a row, without any styling.
pub open spec fn row_text(row: RowView) -> Seq<char> {
    pieces_text(row.pieces)
}

/// The text of a report, without any styling: the texts of its rows, one
/// after the other.
pub open spec fn rows_text(rows: Seq<RowView>) -> Seq<char>
    decreases rows.len(),
{
    if rows.len() == 0 {
        Seq::empty()
    } else {
        rows_text(rows.drop_last()) + row_text(rows.last())
    }
}

/// Whether a text ends with a line break.
pub open spec fn ends_with_line_break(text: Seq<char>) -> bool {
    text.len() > 0 && text.last() == '\n'
}

/// The report as plain text.
pub fn plain_text(rows: &Vec<Row>) -> (text: String)
    ensures
        text@ == rows_text(rows_view(rows@)),
{
    let mut text = String::new();
    let mut r: usize = 0;
    while r < rows.len()
        invariant
            r <= rows.len(),
            text@ == rows_text(rows_view(rows@.take(r as int))),
        decreases rows.len() - r,
    {
        let row = &rows[r];
        let ghost before = text@;
        let mut i: usize = 0;
        while i < row.pieces.len()
            invariant
                i <= row.pieces.len(),
                text@ == before + pieces_text(row@.pieces.take(i as int)),
            decreases row.pieces.len() - i,
        {
            proof {
                let shown = row@.pieces;
                assert(shown.take(i + 1).drop_last() =~= shown.take(i as int));
                assert(shown.take(i + 1).last() == row.pieces@[i as int]@);
            }
            text.append(row.pieces[i].text.as_str());
            assert(text@ =~= before + pieces_text(row@.pieces.take(i + 1)));
            i = i + 1;
        }
        proof {
            assert(row@.pieces.take(row.pieces.len() as int) =~= row@.pieces);
            let upto = rows_view(rows@.take(r + 1));
            assert(upto.drop_last() =~= rows_view(rows@.take(r as int)));
            assert(upto.last() == row@);
        }
        r = r + 1;
    }
    proof {
        assert(rows@.take(rows.len() as int) =~= rows@);
    }
    text
}

/// The text of the parts of a line is the text of the line.
pub proof fn lemma_span_pieces_text(tag: Tag, spans: Seq<Span>)
    ensures
        pieces_text(span_pieces(tag, spans)) == crate::change::spans_text(spans),
    decreases spans.len(),
{
    if spans.len() > 0 {
        assert(span_pieces(tag, spans).drop_last() =~= span_pieces(tag, spans.drop_last()));
        lemma_span_pieces_text(tag, spans.drop_last());
    }
}

/// The text of parts that follow other parts follows their text.
pub proof fn lemma_pieces_text_concat(first: Seq<PieceView>, second: Seq<PieceView>)
    ensures
        pieces_text(first + second) == pieces_text(first) + pieces_text(second),
    decreases second.len(),
{
    if second.len() == 0 {
        assert(first + second =~= first);
        assert(pieces_text(first) + Seq::<char>::empty() =~= pieces_text(first));
    } else {
        assert((first + second).drop_last() =~= first + second.drop_last());
        assert((first + second).last() == second.last());
        lemma_pieces_text_concat(first, second.drop_last());
        assert(pieces_text(first + second) =~= pieces_text(first) + pieces_text(second));
    }
}

/// The text of the row of a change: the label of its old line, the label
/// of its new line, the column rule, the sign, and the line itself.
pub proof fn lemma_change_row_text(c: Change)
    ensures
        row_text(change_row(c)) == line_label(c.old_index) + line_label(c.new_index)
            + column_rule() + seq![sign(c.tag)] + c.text(),
{
    let head = head_pieces(c);
    assert(pieces_text(head) =~= line_label(c.old_index) + line_label(c.new_index) + column_rule()
        + seq![sign(c.tag)]) by {
        reveal_with_fuel(pieces_text, 5);
        assert(head.drop_last().drop_last().drop_last().drop_last() =~= Seq::<PieceView>::empty());
    }
    lemma_pieces_text_concat(head, span_pieces(c.tag, c.spans@));
    lemma_span_pieces_text(c.tag, c.spans@);
}

/// The row of a change ends as its line does: with a line break if the
/// line has one, and without one if the line has none. Nothing is added
/// to a last line that was cut short.
pub proof fn lemma_row_ends_as_its_line(c: Change)
    ensures
        ends_with_line_break(row_text(change_row(c))) <==> ends_with_line_break(c.text()),
{
    lemma_change_row_text(c);
    let head = line_label(c.old_index) + line_label(c.new_index) + column_rule() + seq![
        sign(c.tag),
    ];
    let text = head + c.text();
    assert(head.last() == sign(c.tag));
    if c.text().len() == 0 {
        assert(text =~= head);
    } else {
        assert(text.last() == c.text().last());
    }
}

} // verus!
