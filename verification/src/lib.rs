//! A small HTML report generator: lines of text are tokenized, each token is
//! classified as removed, separator or word according to a user configuration,
//! and the result is rendered as a color-coded HTML document.

pub mod color;
pub mod config;
pub mod document;
pub mod escape;
pub mod render;
pub mod tokens;

use vstd::prelude::*;

verus! {

} // verus!
