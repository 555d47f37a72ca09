//! What the terminal's size means for output.

use vstd::prelude::*;

use crate::text::{text_width, truncate, truncated};

verus! {

/// The width assumed when the terminal's size cannot be read.
pub const DEFAULT_TERM_WIDTH: usize = 80;

/// The width to lay out for: the terminal's columns (`size` is its rows
/// and columns, when they could be read), else 80.
pub fn term_width(size: Option<(u16, u16)>) -> (res: usize)
    ensures
        res == match size {
            Some((_, cols)) => cols as usize,
            None => DEFAULT_TERM_WIDTH,
        },
{
    match size {
        Some((_, cols)) => cols as usize,
        None => DEFAULT_TERM_WIDTH,
    }
}

/// Truncates a string to the terminal's width (ending it with `tail`) when
/// output goes to a terminal, and leaves it whole otherwise.
pub fn trunc_term_width(s: &str, tail: &str, is_term: bool, width: usize) -> (res: String)
    ensures
        is_term ==> res@ == truncated(s@, width, tail@),
        !is_term ==> res@ == s@,
        text_width(s@) <= width ==> res@ == s@,
{
    if is_term {
        truncate(s, width, tail)
    } else {
        String::from_str(s)
    }
}

} // verus!
