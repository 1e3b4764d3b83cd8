//! The state of a text input that does not depend on how it is drawn.

pub mod laws;
pub mod marker;
pub mod mode;
pub mod text_wrapper;

pub use marker::Marker;
pub use mode::{InputMode, TabSize};
pub use text_wrapper::TextWrapper;
