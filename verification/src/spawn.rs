use vstd::prelude::*;

verus! {

use crate::types::TetrominoType;

/// Relies on rand::random_range: it returns a value drawn uniformly from the
/// given range, here 0..7, and panics only on an empty range.
#[verifier::external_body]
fn random_piece_index() -> (r: u8)
    ensures
        r < 7,
{
    rand::random_range(0..7u8)
}

/// The shape each draw in 0..7 stands for; draws outside that range fall
/// back to the last shape.
pub open spec fn spec_type_from_index(i: u8) -> TetrominoType {
    if i == 0 {
        TetrominoType::I
    } else if i == 1 {
        TetrominoType::O
    } else if i == 2 {
        TetrominoType::T
    } else if i == 3 {
        TetrominoType::S
    } else if i == 4 {
        TetrominoType::Z
    } else if i == 5 {
        TetrominoType::J
    } else {
        TetrominoType::L
    }
}

/// Maps a draw to the shape it stands for.
pub fn piece_type_from_index(i: u8) -> (t: TetrominoType)
    ensures
        t == spec_type_from_index(i),
{
    match i {
        0 => TetrominoType::I,
        1 => TetrominoType::O,
        2 => TetrominoType::T,
        3 => TetrominoType::S,
        4 => TetrominoType::Z,
        5 => TetrominoType::J,
        _ => TetrominoType::L,
    }
}

/// Draws a piece type uniformly at random; successive calls are independent,
/// so nothing more than totality can be promised of the result.
pub fn random_piece_type() -> TetrominoType {
    piece_type_from_index(random_piece_index())
}

} // verus!
