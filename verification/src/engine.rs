//! The line difference engine.

use vstd::prelude::*;

use crate::change::{indices_within, outlines, well_formed_groups, Change, Span, Tag};

verus! {

/// How many unchanged lines are kept around each changed region.
pub const CONTEXT_LINES: usize = 3;

/// The line difference between two texts as `similar` computes it, with
/// `radius` unchanged lines kept around each changed region: for every
/// group, the outlines of its changes. Which lines are deleted, inserted
/// and kept follows from the two texts and the radius alone. How a changed
/// line is cut into parts does not, and is no part of this.
pub uninterp spec fn line_difference(old: Seq<char>, new: Seq<char>, radius: nat) -> Seq<
    Seq<(Tag, Option<usize>, Option<usize>, Seq<char>)>,
>;

/// Whether the two texts are short enough for the engine. Beyond a hundred
/// lines it numbers the distinct lines of the two texts with 32 bits, and
/// it cannot go on where the numbers run out. Two texts have no more
/// distinct lines than characters, so those of at most `u32::MAX`
/// characters together are within the limits.
pub open spec fn within_engine_limits(old: Seq<char>, new: Seq<char>) -> bool {
    old.len() + new.len() <= u32::MAX
}

/// Whether the two texts are within the limits of the engine.
pub fn within_limits(old: &str, new: &str) -> (fits: bool)
    ensures
        fits == within_engine_limits(old@, new@),
{
    let old_len: usize = old.unicode_len();
    let new_len: usize = new.unicode_len();
    old_len as u128 + new_len as u128 <= u32::MAX as u128
}

/// Calls `similar::TextDiff::from_lines`, takes the groups of
/// `TextDiff::grouped_ops` and, for each operation of a group, the changes
/// of `TextDiff::iter_inline_changes`, each copied field by field.
///
/// Trusted, of `similar` as its source has it:
/// - The outlines of the changes depend on the arguments alone. The line
///   difference is computed without a deadline. Only the cut of a replaced
///   line into parts is computed against one, and on every path a replaced
///   line comes as one change whose parts join to the line.
/// - A deleted line has an old index only, an inserted line a new index
///   only, an unchanged line both, and its text as one part without
///   emphasis.
/// - An index is one into the lines of its text, which the engine cuts
///   after every line feed and after every carriage return that no line
///   feed follows; what is left after the last of them is a line too.
/// - Every group holds a change: the grouping closes a group only after
///   a changed run, and a changed run is not empty.
/// - Two equal texts give one equal run or none, which the grouping drops.
/// - Two different texts differ in their lines, since the lines of a text
///   join to the text. The difference then holds a deletion or an
///   insertion, which neither the compaction nor the pairing into
///   replacements takes away, and the grouping keeps every changed run.
///
/// `radius` is doubled by the grouping, hence its bound. Texts beyond the
/// limits are left out: the numbering of their lines would overflow, and
/// the engine would stop there or take different lines for the same.
#[verifier::external_body]
fn grouped_changes(old: &str, new: &str, radius: usize) -> (groups: Vec<Vec<Change>>)
    requires
        radius <= usize::MAX / 2,
        within_engine_limits(old@, new@),
    ensures
        outlines(groups@) == line_difference(old@, new@, radius as nat),
        well_formed_groups(groups@),
        indices_within(groups@, old@, new@),
        old@ == new@ ==> groups@.len() == 0,
        old@ != new@ ==> groups@.len() > 0,
{
    let diff = similar::TextDiff::from_lines(old, new);
    let in_group = |ops: &Vec<similar::DiffOp>| {
        ops.iter().flat_map(|op| diff.iter_inline_changes(op)).map(|c| Change {
            tag: match c.tag() {
                similar::ChangeTag::Delete => Tag::Delete,
                similar::ChangeTag::Insert => Tag::Insert,
                similar::ChangeTag::Equal => Tag::Equal,
            },
            old_index: c.old_index(),
            new_index: c.new_index(),
            spans: c.iter_strings_lossy().map(|(e, t)| Span { emphasized: e, text: t.into_owned() }).collect(),
        }).collect()
    };
    diff.grouped_ops(radius).iter().map(in_group).collect()
}

/// The difference between two texts, line by line: the changed regions
/// with three unchanged lines around them, one group for each region that
/// no context joins to the next.
///
/// Which lines are deleted, inserted and kept, and in which groups, is the
/// line difference of the two texts. Every change names the lines that its
/// tag speaks of by an index within its text, an unchanged line comes as
/// one part without emphasis, and no group is empty. Two equal texts have
/// no group and two different texts have one. How a changed line is cut
/// into parts is left to the engine, which spends a bounded time on it.
///
/// The two texts must be within the limits of the engine, which
/// `within_limits` tests.
pub fn diff_lines(old: &str, new: &str) -> (groups: Vec<Vec<Change>>)
    requires
        within_engine_limits(old@, new@),
    ensures
        outlines(groups@) == line_difference(old@, new@, CONTEXT_LINES as nat),
        well_formed_groups(groups@),
        indices_within(groups@, old@, new@),
        old@ == new@ ==> groups@.len() == 0,
        old@ != new@ ==> groups@.len() > 0,
{
    grouped_changes(old, new, CONTEXT_LINES)
}

} // verus!
