//! Declaration scanning and Halstead token counting over raw source text.
//!
//! Declarations and their leading comments are found line by line with
//! regular expressions; operators and operands are counted over the whole
//! text. The numbers that the Halstead formulas need are computed here as
//! integers, and an HTML fragment is assembled for each file.

pub mod patterns;
pub mod text;
pub mod scanner;
pub mod lexical;
pub mod halstead;
pub mod render;
pub mod analysis;
pub mod laws;


