//! The line changes that a difference between two texts consists of.

use vstd::prelude::*;

use crate::lines::line_count;

verus! {

/// What a change does to a line.
#[derive(Clone, Copy, Debug, PartialEq, Eq, Structural)]
pub enum Tag {
    /// The line is in the old text only.
    Delete,
    /// The line is in the new text only.
    Insert,
    /// The line is in both texts.
    Equal,
}

/// A part of a changed line.
#[derive(Clone, Debug, PartialEq, Eq)]
pub struct Span {
    /// Whether this part is what differs from the paired line.
    pub emphasized: bool,
    /// The text of the part. The last part of a line holds the line's
    /// line break, if the line has one.
    pub text: String,
}

/// One line of a difference.
#[derive(Clone, Debug, PartialEq, Eq)]
pub struct Change {
    pub tag: Tag,
    /// The zero-based index of the line in the old text, if it is there.
    pub old_index: Option<usize>,
    /// The zero-based index of the line in the new text, if it is there.
    pub new_index: Option<usize>,
    /// The parts of the line, in order.
    pub spans: Vec<Span>,
}

/// The texts of the given parts, one after the other.
pub open spec fn spans_text(spans: Seq<Span>) -> Seq<char>
    decreases spans.len(),
{
    if spans.len() == 0 {
        Seq::empty()
    } else {
        spans_text(spans.drop_last()) + spans.last().text@
    }
}

impl Change {
    /// The text of the line.
    pub open spec fn text(self) -> Seq<char> {
        spans_text(self.spans@)
    }

    /// Whether the change names the lines that its tag speaks of. A deleted
    /// line has its place in the old text and none in the new one, an
    /// inserted line has its place in the new text and none in the old one,
    /// and an unchanged line has its place in both. An unchanged line is one
    /// part, and nothing in it is emphasized.
    pub open spec fn well_formed(self) -> bool {
        match self.tag {
            Tag::Delete => self.old_index is Some && self.new_index is None,
            Tag::Insert => self.old_index is None && self.new_index is Some,
            Tag::Equal => {
                &&& self.old_index is Some
                &&& self.new_index is Some
                &&& self.spans@.len() == 1
                &&& !self.spans@[0].emphasized
            },
        }
    }
}

/// Whether every change of every group is well formed, and every group
/// holds a change.
pub open spec fn well_formed_groups(groups: Seq<Vec<Change>>) -> bool {
    &&& forall|g: int| 0 <= g < groups.len() ==> (#[trigger] groups[g])@.len() > 0
    &&& forall|g: int, i: int|
        0 <= g < groups.len() && 0 <= i < groups[g]@.len() ==> (#[trigger] groups[g]@[i]).well_formed()
}

/// Whether every line index of every change is within its text: an old
/// index is below the number of lines of the old text, a new index below
/// that of the new text.
pub open spec fn indices_within(groups: Seq<Vec<Change>>, old: Seq<char>, new: Seq<char>) -> bool {
    forall|g: int, i: int|
        0 <= g < groups.len() && 0 <= i < groups[g]@.len() ==> {
            let c = #[trigger] groups[g]@[i];
            &&& c.old_index matches Some(k) ==> k < line_count(old)
            &&& c.new_index matches Some(k) ==> k < line_count(new)
        }
}

/// What a change says of its line, whatever the parts that the line comes
/// in: what is done to it, its place in either text, and its text.
pub open spec fn outline(c: Change) -> (Tag, Option<usize>, Option<usize>, Seq<char>) {
    (c.tag, c.old_index, c.new_index, c.text())
}

/// The outlines of the changes of every group.
pub open spec fn outlines(groups: Seq<Vec<Change>>) -> Seq<
    Seq<(Tag, Option<usize>, Option<usize>, Seq<char>)>,
> {
    groups.map_values(|g: Vec<Change>| g@.map_values(|c: Change| outline(c)))
}

} // verus!
