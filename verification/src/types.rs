use vstd::prelude::*;

verus! {

/// The state of one playfield cell: empty, or filled with a colour id.
#[derive(Clone, Copy, Debug, PartialEq, Eq, Structural)]
pub enum BlockState {
    Empty,
    Filled(u8),
}

/// One of the four rotation states a piece can be in.
#[derive(Clone, Copy, Debug, PartialEq, Eq, Structural)]
pub enum Rotation {
    _0,
    _90,
    _180,
    _270,
}

impl Rotation {
    /// The rotation state one clockwise step after `self`.
    pub open spec fn spec_rotate_cw(self) -> Rotation {
        match self {
            Rotation::_0 => Rotation::_90,
            Rotation::_90 => Rotation::_180,
            Rotation::_180 => Rotation::_270,
            Rotation::_270 => Rotation::_0,
        }
    }

    /// The rotation state one counter-clockwise step after `self`.
    pub open spec fn spec_rotate_ccw(self) -> Rotation {
        match self {
            Rotation::_0 => Rotation::_270,
            Rotation::_270 => Rotation::_180,
            Rotation::_180 => Rotation::_90,
            Rotation::_90 => Rotation::_0,
        }
    }

    /// Advances the rotation state one clockwise step.
    pub fn rotate_cw(&mut self)
        ensures
            *final(self) == old(self).spec_rotate_cw(),
    {
        match *self {
            Rotation::_0 => *self = Rotation::_90,
            Rotation::_90 => *self = Rotation::_180,
            Rotation::_180 => *self = Rotation::_270,
            Rotation::_270 => *self = Rotation::_0,
        }
    }

    /// Advances the rotation state one counter-clockwise step.
    pub fn rotate_ccw(&mut self)
        ensures
            *final(self) == old(self).spec_rotate_ccw(),
    {
        match *self {
            Rotation::_0 => *self = Rotation::_270,
            Rotation::_270 => *self = Rotation::_180,
            Rotation::_180 => *self = Rotation::_90,
            Rotation::_90 => *self = Rotation::_0,
        }
    }
}

/// A clockwise rotation undoes a counter-clockwise one, and four clockwise
/// steps from any state come back to that state.
pub proof fn lemma_rotate_cw_cycle(r: Rotation)
    ensures
        r.spec_rotate_cw().spec_rotate_ccw() == r,
        r.spec_rotate_cw().spec_rotate_cw().spec_rotate_cw().spec_rotate_cw() == r,
{
}

/// The seven tetromino shapes.
#[derive(Clone, Copy, Debug, PartialEq, Eq, Structural)]
pub enum TetrominoType {
    I,
    O,
    T,
    S,
    Z,
    J,
    L,
}

impl TetrominoType {
    /// The colour id a locked cell of this shape is filled with.
    pub open spec fn spec_color_id(self) -> u8 {
        match self {
            TetrominoType::I => 1,
            TetrominoType::O => 2,
            TetrominoType::T => 3,
            TetrominoType::S => 4,
            TetrominoType::Z => 5,
            TetrominoType::J => 6,
            TetrominoType::L => 7,
        }
    }

    /// Returns the colour id a locked cell of this shape is filled with.
    pub fn color_id(self) -> (c: u8)
        ensures
            c == self.spec_color_id(),
    {
        match self {
            TetrominoType::I => 1,
            TetrominoType::O => 2,
            TetrominoType::T => 3,
            TetrominoType::S => 4,
            TetrominoType::Z => 5,
            TetrominoType::J => 6,
            TetrominoType::L => 7,
        }
    }
}

/// Whether a run is underway, not yet started, or ended because a freshly
/// spawned piece had no legal initial position.
#[derive(Clone, Copy, Debug, PartialEq, Eq, Structural)]
pub enum RunState {
    NotRunning,
    Running,
    TopOut,
}

/// A movement request for the active piece; `Up` asks for a clockwise
/// rotation, the other three shift the anchor by one cell.
#[derive(Clone, Copy, Debug, PartialEq, Eq, Structural)]
pub enum MoveDirection {
    Left,
    Right,
    Up,
    Down,
}

} // verus!
