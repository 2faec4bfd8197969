//! The output formats.

use vstd::prelude::*;

verus! {

/// How results are written: as text for a reader, or as one structured value
/// for a program.
#[derive(Clone, Copy, Debug, PartialEq, Eq, Structural)]
pub enum OutputFmt {
    Plain,
    Json,
}

impl Default for OutputFmt {
    fn default() -> (r: Self)
        ensures
            r == OutputFmt::Plain,
    {
        OutputFmt::Plain
    }
}

/// When colors are used in what is written.
#[derive(Clone, Copy, Debug, PartialEq, Eq, Structural)]
pub enum ColorFmt {
    /// Colors are never used.
    Never,
    /// Colors are always used, wherever the output goes.
    Always,
    /// Like always, with ANSI escapes on every system.
    Ansi,
    /// Colors are used where the output goes to a terminal that takes them.
    Auto,
}

impl Default for ColorFmt {
    fn default() -> (r: Self)
        ensures
            r == ColorFmt::Auto,
    {
        ColorFmt::Auto
    }
}

} // verus!
