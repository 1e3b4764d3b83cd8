//! The mode of a text input: how many rows it shows, how it indents, and, for a
//! code editor, the syntax highlighter and the markers that decorate its text.

pub mod highlighter;
pub mod input;
pub mod length;
