//! Model of the board's output lines and of single line writes.
//!
//! The LED bus has two lines (data and clock); the fan switch is a third,
//! independent line. A `LineWrite` records one synchronous write of a
//! boolean level to one line. The encoder produces sequences of these;
//! an unverified shell performs them in order.

use vstd::prelude::*;

verus! {

/// One physical output line of the board.
#[derive(Clone, Copy, PartialEq, Eq, Structural, Debug)]
pub enum Line {
    /// LED bus data line.
    Data,
    /// LED bus clock line.
    Clock,
    /// Fan switch line.
    Fan,
}

/// One synchronous write of a boolean level to a line.
#[derive(Clone, Copy, PartialEq, Eq, Structural, Debug)]
pub struct LineWrite {
    pub line: Line,
    pub value: bool,
}

/// Shorthand for a data-line write.
pub open spec fn dw(value: bool) -> LineWrite {
    LineWrite { line: Line::Data, value }
}

/// Shorthand for a clock-line write.
pub open spec fn cw(value: bool) -> LineWrite {
    LineWrite { line: Line::Clock, value }
}

/// The single write that switches the fan on or off. Writing the same
/// level twice performs two identical writes; repetition changes nothing.
pub fn fan_write(on: bool) -> (w: LineWrite)
    ensures
        w == (LineWrite { line: Line::Fan, value: on }),
{
    LineWrite { line: Line::Fan, value: on }
}

/// Number of rising clock edges (clock pulses) in a write sequence.
pub open spec fn rising_edges(s: Seq<LineWrite>) -> nat
    decreases s.len(),
{
    if s.len() == 0 {
        0
    } else {
        rising_edges(s.drop_last()) + if s.last() == cw(true) { 1nat } else { 0nat }
    }
}

/// Rising-edge counts add over concatenation.
pub proof fn lemma_rising_edges_add(a: Seq<LineWrite>, b: Seq<LineWrite>)
    ensures
        rising_edges(a + b) == rising_edges(a) + rising_edges(b),
    decreases b.len(),
{
    if b.len() == 0 {
        assert(a + b =~= a);
    } else {
        lemma_rising_edges_add(a, b.drop_last());
        assert((a + b).drop_last() =~= a + b.drop_last());
        assert((a + b).last() == b.last());
    }
}

} // verus!
