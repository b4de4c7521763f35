//! Reconstruction of a document's text from its content operations.
//!
//! A content stream holds no lines, only glyph runs and cursor moves. The
//! text is rebuilt in one pass: glyph runs are appended as they come, and a
//! line break is put wherever the vertical position of the text cursor
//! changes between two text matrices.

use vstd::prelude::*;

use crate::content::{ContentOp, Page, TextItem, VerticalPos};
use crate::decode::{decode_text, decoded};

verus! {

/// What a reconstruction pass has gathered so far.
pub struct TextState {
    /// The text so far.
    pub output: Seq<char>,
    /// The vertical position that the last effective text matrix set, if
    /// one was seen.
    pub last_y: Option<VerticalPos>,
}

/// The state before the first operation.
pub open spec fn initial_state() -> TextState {
    TextState { output: Seq::empty(), last_y: None }
}

/// The text of one entry of an adjusted run.
pub open spec fn item_text(item: TextItem) -> Seq<char> {
    match item {
        TextItem::Text(bytes) => decoded(bytes@),
        TextItem::Spacing(_) => Seq::empty(),
    }
}

/// The text of an adjusted run: the texts of its entries, one after the
/// other, with nothing between them.
pub open spec fn adjusted_text(items: Seq<TextItem>) -> Seq<char>
    decreases items.len(),
{
    if items.len() == 0 {
        Seq::empty()
    } else {
        adjusted_text(items.drop_last()) + item_text(items.last())
    }
}

/// The text that an operation draws.
pub open spec fn fragment(op: ContentOp) -> Seq<char> {
    match op {
        ContentOp::DrawText(bytes) => decoded(bytes@),
        ContentOp::DrawAdjustedText(items) => adjusted_text(items@),
        _ => Seq::empty(),
    }
}

/// The state after a text matrix that sets the vertical position `y`. The
/// first matrix only records its position. A later one that moves the
/// cursor to another position ends the line; one that keeps the position
/// changes nothing.
pub open spec fn after_matrix(s: TextState, y: VerticalPos) -> TextState {
    match s.last_y {
        None => TextState { output: s.output, last_y: Some(y) },
        Some(last) => if last.equals(y) {
            s
        } else {
            TextState { output: s.output.push('\n'), last_y: Some(y) }
        },
    }
}

/// The state after one operation.
pub open spec fn step(s: TextState, op: ContentOp) -> TextState {
    match op {
        ContentOp::DrawText(_) => TextState { output: s.output + fragment(op), last_y: s.last_y },
        ContentOp::DrawAdjustedText(_) => TextState {
            output: s.output + fragment(op),
            last_y: s.last_y,
        },
        ContentOp::NewLine => TextState { output: s.output.push('\n'), last_y: s.last_y },
        ContentOp::SetTextMatrix(y) => after_matrix(s, y),
        ContentOp::Other => s,
    }
}

/// The state after a sequence of operations, taken in order.
pub open spec fn run(s: TextState, ops: Seq<ContentOp>) -> TextState
    decreases ops.len(),
{
    if ops.len() == 0 {
        s
    } else {
        step(run(s, ops.drop_last()), ops.last())
    }
}

/// Whether every page of the document was decoded.
pub open spec fn decodable(pages: Seq<Page>) -> bool {
    forall|i: int| 0 <= i < pages.len() ==> pages[i] is Content
}

/// The state after the pages of a document, taken in order. The state is
/// carried over from page to page.
pub open spec fn run_pages(s: TextState, pages: Seq<Page>) -> TextState
    decreases pages.len(),
{
    if pages.len() == 0 {
        s
    } else {
        let before = run_pages(s, pages.drop_last());
        match pages.last() {
            Page::Content(ops) => run(before, ops@),
            Page::Undecodable => before,
        }
    }
}

/// The text of a document.
pub open spec fn document_text(pages: Seq<Page>) -> Seq<char> {
    run_pages(initial_state(), pages).output
}

/// A page that could not be decoded. No text is given for a document that
/// has one.
#[derive(Clone, Copy, Debug, PartialEq, Eq)]
pub struct DecodeError {
    /// The index of the first such page.
    pub page: usize,
}

/// The accumulator of one reconstruction pass. It belongs to one document
/// and is used up when its text is taken.
pub struct Reconstruction {
    output: String,
    last_y: Option<VerticalPos>,
}

impl View for Reconstruction {
    type V = TextState;

    closed spec fn view(&self) -> TextState {
        TextState { output: self.output@, last_y: self.last_y }
    }
}

/// The text of an adjusted run.
fn adjusted_run_text(items: &Vec<TextItem>) -> (text: String)
    ensures
        text@ == adjusted_text(items@),
{
    let mut text = String::new();
    let mut i: usize = 0;
    while i < items.len()
        invariant
            i <= items.len(),
            text@ == adjusted_text(items@.take(i as int)),
        decreases items.len() - i,
    {
        proof {
            assert(items@.take(i + 1).drop_last() =~= items@.take(i as int));
        }
        match &items[i] {
            TextItem::Text(bytes) => {
                let piece = decode_text(bytes.as_slice());
                text.append(piece.as_str());
            },
            TextItem::Spacing(_) => {
                assert(text@ + Seq::<char>::empty() =~= text@);
            },
        }
        i = i + 1;
    }
    proof {
        assert(items@.take(items.len() as int) =~= items@);
    }
    text
}

impl Reconstruction {
    /// A pass that has seen nothing yet.
    pub fn new() -> (r: Reconstruction)
        ensures
            r@ == initial_state(),
    {
        Reconstruction { output: String::new(), last_y: None }
    }

    /// Takes one operation.
    pub fn apply(&mut self, op: &ContentOp)
        ensures
            final(self)@ == step(old(self)@, *op),
    {
        proof {
            reveal_strlit("\n");
        }
        match op {
            ContentOp::DrawText(bytes) => {
                let piece = decode_text(bytes.as_slice());
                self.output.append(piece.as_str());
            },
            ContentOp::DrawAdjustedText(items) => {
                let piece = adjusted_run_text(items);
                self.output.append(piece.as_str());
            },
            ContentOp::NewLine => {
                self.output.append("\n");
                assert(self.output@ =~= old(self).output@.push('\n'));
            },
            ContentOp::SetTextMatrix(y) => {
                let moved = match &self.last_y {
                    None => true,
                    Some(last) => !last.same_as(y),
                };
                if moved {
                    if self.last_y.is_some() {
                        self.output.append("\n");
                        assert(self.output@ =~= old(self).output@.push('\n'));
                    }
                    self.last_y = Some(*y);
                }
            },
            ContentOp::Other => {},
        }
    }

    /// Takes the operations of one page, in order.
    pub fn apply_all(&mut self, ops: &Vec<ContentOp>)
        ensures
            final(self)@ == run(old(self)@, ops@),
    {
        let mut i: usize = 0;
        while i < ops.len()
            invariant
                i <= ops.len(),
                self@ == run(old(self)@, ops@.take(i as int)),
            decreases ops.len() - i,
        {
            proof {
                assert(ops@.take(i + 1).drop_last() =~= ops@.take(i as int));
            }
            self.apply(&ops[i]);
            i = i + 1;
        }
        proof {
            assert(ops@.take(ops.len() as int) =~= ops@);
        }
    }

    /// The text gathered so far.
    pub fn text(&self) -> (text: &str)
        ensures
            text@ == self@.output,
    {
        self.output.as_str()
    }

    /// Ends the pass and hands out its text.
    pub fn into_text(self) -> (text: String)
        ensures
            text@ == self@.output,
    {
        self.output
    }
}

/// The text of a document: its pages in order, every operation of a page
/// in order, in one pass. A document with a page that could not be decoded
/// has no text; the error names the first such page.
pub fn reconstruct(pages: &Vec<Page>) -> (result: Result<String, DecodeError>)
    ensures
        match result {
            Ok(text) => decodable(pages@) && text@ == document_text(pages@),
            Err(e) => {
                &&& e.page < pages.len()
                &&& pages[e.page as int] is Undecodable
                &&& decodable(pages@.take(e.page as int))
            },
        },
{
    let mut pass = Reconstruction::new();
    let mut i: usize = 0;
    while i < pages.len()
        invariant
            i <= pages.len(),
            decodable(pages@.take(i as int)),
            pass@ == run_pages(initial_state(), pages@.take(i as int)),
        decreases pages.len() - i,
    {
        proof {
            assert(pages@.take(i + 1).drop_last() =~= pages@.take(i as int));
        }
        match &pages[i] {
            Page::Content(ops) => {
                pass.apply_all(ops);
            },
            Page::Undecodable => {
                return Err(DecodeError { page: i });
            },
        }
        i = i + 1;
    }
    proof {
        assert(pages@.take(pages.len() as int) =~= pages@);
    }
    Ok(pass.into_text())
}

/// Whether an operation leaves the cursor on its line: it is no line
/// break, and if it is a text matrix it repeats the current position.
pub open spec fn keeps_line(last_y: Option<VerticalPos>, op: ContentOp) -> bool {
    match op {
        ContentOp::NewLine => false,
        ContentOp::SetTextMatrix(y) => match last_y {
            None => false,
            Some(last) => last.equals(y),
        },
        _ => true,
    }
}

/// The texts that a sequence of operations draws, one after the other.
pub open spec fn fragments(ops: Seq<ContentOp>) -> Seq<char>
    decreases ops.len(),
{
    if ops.len() == 0 {
        Seq::empty()
    } else {
        fragments(ops.drop_last()) + fragment(ops.last())
    }
}

/// Taking two sequences of operations in turn is taking them as one.
pub proof fn lemma_run_concat(s: TextState, first: Seq<ContentOp>, second: Seq<ContentOp>)
    ensures
        run(s, first + second) == run(run(s, first), second),
    decreases second.len(),
{
    if second.len() == 0 {
        assert(first + second =~= first);
    } else {
        assert((first + second).drop_last() =~= first + second.drop_last());
        assert((first + second).last() == second.last());
        lemma_run_concat(s, first, second.drop_last());
    }
}

/// The text of an adjusted run is the text of its first part followed by
/// the text of the rest: nothing separates the entries.
pub proof fn lemma_adjusted_text_concat(first: Seq<TextItem>, second: Seq<TextItem>)
    ensures
        adjusted_text(first + second) == adjusted_text(first) + adjusted_text(second),
    decreases second.len(),
{
    if second.len() == 0 {
        assert(first + second =~= first);
        assert(adjusted_text(first) + Seq::<char>::empty() =~= adjusted_text(first));
    } else {
        assert((first + second).drop_last() =~= first + second.drop_last());
        assert((first + second).last() == second.last());
        lemma_adjusted_text_concat(first, second.drop_last());
        assert(adjusted_text(first + second) =~= adjusted_text(first) + adjusted_text(second));
    }
}

/// A spacing adjustment adds nothing to the text of a run, wherever in
/// the run it stands.
pub proof fn lemma_spacing_adds_nothing(before: Seq<TextItem>, spacing: u32, after: Seq<TextItem>)
    ensures
        adjusted_text(before + seq![TextItem::Spacing(spacing)] + after) == adjusted_text(
            before + after,
        ),
{
    let gap = seq![TextItem::Spacing(spacing)];
    assert(gap.drop_last() =~= Seq::<TextItem>::empty());
    assert(adjusted_text(gap) =~= Seq::<char>::empty()) by {
        reveal_with_fuel(adjusted_text, 2);
    }
    lemma_adjusted_text_concat(before, gap);
    lemma_adjusted_text_concat(before + gap, after);
    lemma_adjusted_text_concat(before, after);
    assert(adjusted_text(before) + Seq::<char>::empty() =~= adjusted_text(before));
}

/// Operations that leave the cursor on its line add the texts they draw,
/// one directly after the other, and nothing else: no separator is put
/// between two glyph runs of a line.
pub proof fn lemma_same_line_concatenates(s: TextState, ops: Seq<ContentOp>)
    requires
        forall|i: int| 0 <= i < ops.len() ==> keeps_line(s.last_y, #[trigger] ops[i]),
    ensures
        run(s, ops) == (TextState { output: s.output + fragments(ops), last_y: s.last_y }),
    decreases ops.len(),
{
    if ops.len() == 0 {
        assert(s.output + Seq::<char>::empty() =~= s.output);
    } else {
        let front = ops.drop_last();
        assert forall|i: int| 0 <= i < front.len() implies keeps_line(
            s.last_y,
            #[trigger] front[i],
        ) by {
            assert(front[i] == ops[i]);
        }
        lemma_same_line_concatenates(s, front);
        assert(keeps_line(s.last_y, ops[ops.len() - 1]));
        let before = run(s, front);
        assert(step(before, ops.last()).output =~= s.output + fragments(ops));
    }
}

/// The line-break law. Where the first text matrix of a stream sets one
/// vertical position and a later one another, the text is what was drawn
/// on the first line, one line break, and what was drawn on the second.
/// If the drawn texts hold no line break themselves, the text holds
/// exactly one, and it stands between the two.
pub proof fn lemma_position_change_breaks_line(
    y1: VerticalPos,
    first: Seq<ContentOp>,
    y2: VerticalPos,
    second: Seq<ContentOp>,
)
    requires
        !y1.equals(y2),
        forall|i: int| 0 <= i < first.len() ==> keeps_line(Some(y1), #[trigger] first[i]),
        forall|i: int| 0 <= i < second.len() ==> keeps_line(Some(y2), #[trigger] second[i]),
    ensures
        run(
            initial_state(),
            seq![ContentOp::SetTextMatrix(y1)] + first + seq![ContentOp::SetTextMatrix(y2)]
                + second,
        ).output == fragments(first).push('\n') + fragments(second),
        !fragments(first).contains('\n') && !fragments(second).contains('\n') ==> forall|
            i: int,
        |
            0 <= i < fragments(first).len() + 1 + fragments(second).len() ==> ((fragments(
                first,
            ).push('\n') + fragments(second))[i] == '\n' <==> i == fragments(first).len()),
{
    let m1 = seq![ContentOp::SetTextMatrix(y1)];
    let m2 = seq![ContentOp::SetTextMatrix(y2)];
    let s0 = initial_state();
    assert(m1.drop_last() =~= Seq::<ContentOp>::empty());
    assert(m2.drop_last() =~= Seq::<ContentOp>::empty());
    let s1 = run(s0, m1);
    assert(s1 == (TextState { output: Seq::<char>::empty(), last_y: Some(y1) })) by {
        reveal_with_fuel(run, 2);
    }
    lemma_same_line_concatenates(s1, first);
    let s2 = run(s1, first);
    let s3 = run(s2, m2);
    assert(s3 == after_matrix(s2, y2)) by {
        reveal_with_fuel(run, 2);
    }
    lemma_same_line_concatenates(s3, second);
    lemma_run_concat(s0, m1, first);
    lemma_run_concat(s0, m1 + first, m2);
    lemma_run_concat(s0, m1 + first + m2, second);
    let text = fragments(first).push('\n') + fragments(second);
    assert(run(s3, second).output =~= text);
    if !fragments(first).contains('\n') && !fragments(second).contains('\n') {
        assert forall|i: int| 0 <= i < fragments(first).len() + 1 + fragments(second).len() implies (
            text[i] == '\n' <==> i == fragments(first).len()) by {
            if i < fragments(first).len() {
                assert(text[i] == fragments(first)[i]);
                assert(fragments(first).contains(text[i]));
            } else if i > fragments(first).len() {
                let j = i - fragments(first).len() - 1;
                assert(text[i] == fragments(second)[j]);
                assert(fragments(second).contains(text[i]));
            }
        }
    }
}

} // verus!
