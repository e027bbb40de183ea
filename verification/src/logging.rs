//! An append-only record of diagnostic log lines.
//!
//! The handler only appends to it; the host environment decides where the
//! lines finally go, so emission itself is left to the surrounding program.

use vstd::prelude::*;

verus! {

/// An ordered, append-only collection of diagnostic log lines.
pub struct LogBuffer {
    /// The recorded lines, oldest first.
    pub lines: Vec<String>,
}

impl View for LogBuffer {
    type V = Seq<Seq<char>>;

    open spec fn view(&self) -> Seq<Seq<char>> {
        self.lines@.map_values(|line: String| line@)
    }
}

impl LogBuffer {
    /// A buffer with no lines recorded yet.
    pub fn new() -> (log: Self)
        ensures
            log@ == Seq::<Seq<char>>::empty(),
    {
        LogBuffer { lines: Vec::new() }
    }

    /// Records one more line after everything recorded so far.
    pub fn append_line(&mut self, line: String)
        ensures
            final(self)@ == old(self)@ + seq![line@],
    {
        self.lines.push(line);
    }

    /// How many lines have been recorded.
    pub fn line_count(&self) -> (n: usize)
        ensures
            n == self@.len(),
    {
        self.lines.len()
    }
}

} // verus!
