//! Page content as the text reconstruction reads it.

use vstd::prelude::*;

verus! {

/// A vertical text position: the vertical translation of a text matrix,
/// kept as the bit pattern of its single-precision value. Positions are
/// compared the way the numbers are, not the way their bits are.
#[derive(Clone, Copy, Debug)]
pub struct VerticalPos {
    pub bits: u32,
}

impl VerticalPos {
    /// The bits without the sign.
    pub open spec fn magnitude(self) -> nat {
        (self.bits % 0x8000_0000) as nat
    }

    /// Not a number: all exponent bits set and a fraction that is not zero.
    pub open spec fn is_nan(self) -> bool {
        self.magnitude() > 0x7f80_0000
    }

    /// Equality of the two numbers. Nothing equals a NaN, not even itself,
    /// and the two zeros are equal though their signs differ.
    pub open spec fn equals(self, other: VerticalPos) -> bool {
        &&& !self.is_nan()
        &&& !other.is_nan()
        &&& (self.bits == other.bits || (self.magnitude() == 0 && other.magnitude() == 0))
    }

    /// The position with the given bit pattern.
    pub fn from_bits(bits: u32) -> (pos: VerticalPos)
        ensures
            pos.bits == bits,
    {
        VerticalPos { bits }
    }

    /// Whether the two positions are the same number.
    pub fn same_as(&self, other: &VerticalPos) -> (same: bool)
        ensures
            same == self.equals(*other),
    {
        let a: u32 = self.bits % 0x8000_0000;
        let b: u32 = other.bits % 0x8000_0000;
        a <= 0x7f80_0000 && b <= 0x7f80_0000 && (self.bits == other.bits || (a == 0 && b == 0))
    }
}

/// One entry of an adjusted text run.
#[derive(Clone, Debug)]
pub enum TextItem {
    /// Glyph bytes.
    Text(Vec<u8>),
    /// A spacing adjustment, as the bits of its single-precision value. It
    /// moves glyphs and adds no text.
    Spacing(u32),
}

/// A content operation of a page. Only the four kinds that bear on the
/// text are told apart.
#[derive(Clone, Debug)]
pub enum ContentOp {
    /// Draw the glyphs of these bytes.
    DrawText(Vec<u8>),
    /// Draw a run of glyph bytes with spacing adjustments between them.
    DrawAdjustedText(Vec<TextItem>),
    /// Move to the start of the next line.
    NewLine,
    /// Set the text matrix; what is kept is its vertical translation.
    SetTextMatrix(VerticalPos),
    /// Any other operation.
    Other,
}

/// A page of a document: its content operations in order, or the fact
/// that its content stream could not be decoded.
#[derive(Clone, Debug)]
pub enum Page {
    Content(Vec<ContentOp>),
    Undecodable,
}

} // verus!
