//! From two texts, or two documents, to the report of their difference.

use vstd::prelude::*;

use crate::change::{indices_within, outlines, well_formed_groups, Change};
use crate::content::Page;
use crate::engine::{
    diff_lines, line_difference, within_engine_limits, within_limits, CONTEXT_LINES,
};
use crate::reconstruct::{decodable, document_text, reconstruct, DecodeError};
use crate::line::{lemma_label_fills_column, LABEL_WIDTH};
use crate::lines::line_count;
use crate::report::{
    build_report, change_row, lemma_report_holds_last_group, lemma_rows_come_from_changes,
    report_rows, rows_view, rule_row, Row, RowKind,
};

verus! {

/// Why two documents could not be compared.
#[derive(Clone, Copy, Debug, PartialEq, Eq)]
pub enum CompareError {
    /// The old document has a page that could not be decoded.
    Old(DecodeError),
    /// The old document is sound; the new one has such a page.
    New(DecodeError),
    /// Both documents are sound; their texts are too long for the engine.
    TooLong,
}

/// Whether `rows` is the report of the line difference between two texts:
/// the report of groups of well-formed changes, with indices within the
/// two texts, whose outlines are that difference with three lines of
/// context.
pub open spec fn reports_difference(rows: Seq<Row>, old: Seq<char>, new: Seq<char>) -> bool {
    exists|groups: Seq<Vec<Change>>|
        {
            &&& well_formed_groups(groups)
            &&& indices_within(groups, old, new)
            &&& outlines(groups) == line_difference(old, new, CONTEXT_LINES as nat)
            &&& #[trigger] report_rows(groups) == rows_view(rows)
        }
}

/// The report of the difference between two texts: a row for every line
/// that the line difference deletes, inserts or keeps as context, and a
/// rule between two groups. Any two texts have one. That of two equal
/// texts has no row: no line is deleted and none is inserted. That of two
/// different texts has rows.
///
/// The two texts must be within the limits of the engine, which
/// `within_limits` tests.
pub fn render(old: &str, new: &str) -> (rows: Vec<Row>)
    requires
        within_engine_limits(old@, new@),
    ensures
        reports_difference(rows@, old@, new@),
        old@ == new@ ==> rows@.len() == 0,
        old@ != new@ ==> rows@.len() > 0,
{
    let groups = diff_lines(old, new);
    let rows = build_report(&groups);
    proof {
        assert(report_rows(groups@) == rows_view(rows@));
        assert(rows_view(rows@).len() == rows@.len());
        if groups@.len() > 0 {
            assert(groups@[groups@.len() - 1]@.len() > 0);
            lemma_report_holds_last_group(groups@);
        }
    }
    rows
}

/// The number columns are of fixed width: in the report of the difference
/// between two texts of at most 9999 lines each, every row of a line
/// starts with two line numbers of four characters.
pub proof fn lemma_number_columns_are_fixed(rows: Seq<Row>, old: Seq<char>, new: Seq<char>)
    requires
        reports_difference(rows, old, new),
        line_count(old) <= 9999,
        line_count(new) <= 9999,
    ensures
        forall|r: int|
            0 <= r < rows.len() && rows[r].kind is Line ==> {
                let row = #[trigger] rows[r]@;
                &&& row.pieces.len() >= 4
                &&& row.pieces[0].text.len() == LABEL_WIDTH
                &&& row.pieces[1].text.len() == LABEL_WIDTH
            },
{
    let groups = choose|groups: Seq<Vec<Change>>|
        {
            &&& well_formed_groups(groups)
            &&& indices_within(groups, old, new)
            &&& outlines(groups) == line_difference(old, new, CONTEXT_LINES as nat)
            &&& #[trigger] report_rows(groups) == rows_view(rows)
        };
    assert forall|r: int| 0 <= r < rows.len() && rows[r].kind is Line implies {
        let row = #[trigger] rows[r]@;
        &&& row.pieces.len() >= 4
        &&& row.pieces[0].text.len() == LABEL_WIDTH
        &&& row.pieces[1].text.len() == LABEL_WIDTH
    } by {
        assert(rows_view(rows)[r] == rows[r]@);
        assert(report_rows(groups).len() == rows.len());
        lemma_rows_come_from_changes(groups, r);
        assert(rows[r]@.kind == rows[r].kind);
        assert(rule_row().kind == RowKind::Rule);
        let (g, i) = choose|g: int, i: int|
            0 <= g < groups.len() && 0 <= i < groups[g]@.len() && report_rows(groups)[r]
                == change_row(#[trigger] groups[g]@[i]);
        let c = groups[g]@[i];
        lemma_label_fills_column(c.old_index);
        lemma_label_fills_column(c.new_index);
    }
}

/// The report of the difference between the texts of two documents.
/// There is none where a page of either could not be decoded; the error
/// then names the document and its first such page, the old document
/// first. There is none either where the two texts are beyond the limits
/// of the engine. Two documents with the same text, and so a document and
/// itself, give a report without a row; two with different texts give
/// rows.
pub fn compare_documents(old: &Vec<Page>, new: &Vec<Page>) -> (result: Result<
    Vec<Row>,
    CompareError,
>)
    ensures
        match result {
            Ok(rows) => {
                &&& decodable(old@)
                &&& decodable(new@)
                &&& within_engine_limits(document_text(old@), document_text(new@))
                &&& reports_difference(rows@, document_text(old@), document_text(new@))
                &&& document_text(old@) == document_text(new@) ==> rows@.len() == 0
                &&& document_text(old@) != document_text(new@) ==> rows@.len() > 0
            },
            Err(CompareError::Old(e)) => {
                &&& e.page < old.len()
                &&& old[e.page as int] is Undecodable
                &&& decodable(old@.take(e.page as int))
            },
            Err(CompareError::New(e)) => {
                &&& decodable(old@)
                &&& e.page < new.len()
                &&& new[e.page as int] is Undecodable
                &&& decodable(new@.take(e.page as int))
            },
            Err(CompareError::TooLong) => {
                &&& decodable(old@)
                &&& decodable(new@)
                &&& !within_engine_limits(document_text(old@), document_text(new@))
            },
        },
{
    let old_text = match reconstruct(old) {
        Ok(text) => text,
        Err(e) => {
            return Err(CompareError::Old(e));
        },
    };
    let new_text = match reconstruct(new) {
        Ok(text) => text,
        Err(e) => {
            return Err(CompareError::New(e));
        },
    };
    if !within_limits(old_text.as_str(), new_text.as_str()) {
        return Err(CompareError::TooLong);
    }
    Ok(render(old_text.as_str(), new_text.as_str()))
}

} // verus!
