//! Curriculum character lookup and compass-direction classification.
//!
//! The character table holds, for each of six grades and two terms, the
//! characters that term introduces. The direction classifier labels a 2D
//! integer offset by the signs of its coordinates.
pub mod direction;
pub mod rows;
pub mod table;

pub use direction::{classify, get_direction, Direction};
pub use table::{
    distinct_strings, ensure_loaded, get_all_new_chars_from_txt, get_new_chars, CharTable,
};
