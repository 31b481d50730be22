use vstd::prelude::*;

verus! {

/// How many rows one lock cleared, as a classification.
#[derive(Clone, Copy, Debug, PartialEq, Eq, Structural)]
pub enum LineClears {
    NoClear,
    Single,
    Double,
    Triple,
    Tetris,
}

/// The classification of a cleared-row count.  A lock can clear at most four
/// rows, so every count of four or more maps to `Tetris`.
pub open spec fn spec_classify(n: int) -> LineClears {
    if n <= 0 {
        LineClears::NoClear
    } else if n == 1 {
        LineClears::Single
    } else if n == 2 {
        LineClears::Double
    } else if n == 3 {
        LineClears::Triple
    } else {
        LineClears::Tetris
    }
}

/// Classifies how many rows a lock cleared.
pub fn classify(n: usize) -> (c: LineClears)
    ensures
        c == spec_classify(n as int),
{
    if n == 0 {
        LineClears::NoClear
    } else if n == 1 {
        LineClears::Single
    } else if n == 2 {
        LineClears::Double
    } else if n == 3 {
        LineClears::Triple
    } else {
        LineClears::Tetris
    }
}

/// The score awarded for a lock, by its classification.
pub open spec fn spec_score_delta(c: LineClears) -> u64 {
    match c {
        LineClears::NoClear => 0,
        LineClears::Single => 1000,
        LineClears::Double => 4000,
        LineClears::Triple => 6000,
        LineClears::Tetris => 12000,
    }
}

/// Pure score lookup: no clear is worth nothing, a single 1000, a double
/// 4000, a triple 6000, and a tetris 12000.
pub fn score_delta(c: LineClears) -> (d: u64)
    ensures
        d == spec_score_delta(c),
{
    match c {
        LineClears::NoClear => 0,
        LineClears::Single => 1000,
        LineClears::Double => 4000,
        LineClears::Triple => 6000,
        LineClears::Tetris => 12000,
    }
}

} // verus!
