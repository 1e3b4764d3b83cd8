use vstd::prelude::*;

verus! {

/// A length that does not depend on the content that it measures: an absolute size, or a
/// share of the parent's size.
///
/// The number in each variant is kept as the bits of a single-precision IEEE 754 value,
/// so that a length is a plain value and two lengths are equal exactly when their bits
/// are.
#[derive(Debug, Clone, Copy, PartialEq, Eq)]
pub enum DefiniteLength {
    /// A number of pixels.
    Pixels(u32),
    /// A multiple of the root font size.
    Rems(u32),
    /// A share of the parent's size, where one stands for the whole of it.
    Fraction(u32),
}

} // verus!
