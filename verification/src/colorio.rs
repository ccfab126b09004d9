//! Styling vocabulary for colorized command-line output.
//!
//! The rendering itself (terminal detection, escape sequences, stream
//! handling) lives with the command-line driver; this module fixes the
//! closed set of styles and output streams the drivers choose between,
//! so the choice of style for a datum can be stated and checked.

use vstd::prelude::*;

verus! {

/// How to style some text to print.
#[derive(Clone, Copy, Debug, Eq, PartialEq, Structural)]
pub enum Style {
    /// Style some text with a green color.
    Green,
    /// Style some text with a bold, bright color.
    Highlight,
    /// Style some text in the standard plain way.
    Plain,
    /// Style some text with a red color.
    Red,
    /// Style some text with a yellow color.
    Yellow,
}

/// Which standard stream to print to.
#[derive(Clone, Copy, Debug, Eq, PartialEq, Structural)]
pub enum Stream {
    /// Print to standard error.
    Stderr,
    /// Print to standard output.
    Stdout,
}

} // verus!
