use std::ops::Range;
use vstd::prelude::*;

verus! {

/// The text of an input as it is laid out: broken into the lines that are shown.
#[derive(Debug)]
pub struct TextWrapper {
    /// The offsets of each shown line, from the top down.
    pub wrapped_lines: Vec<Range<usize>>,
}

} // verus!
