//! Generates "bold lines": for a line of text, a sequence of copies of it in
//! which a mark (a prefix and a suffix, such as `<b>` and `</b>`) sweeps
//! across the characters from the left, from the right, or from both ends.

pub mod markup;
pub mod generate;
pub mod names;
pub mod laws;

pub use markup::{Marking, Pattern};
pub use generate::boldline;
