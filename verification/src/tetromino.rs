use vstd::prelude::*;

verus! {

use crate::spawn::random_piece_type;
use crate::types::Rotation;
use crate::types::TetrominoType;
use crate::util::Point2D;

/// Shorthand for a cell offset, in piece-local grid units.
pub open spec fn pt(x: int, y: int) -> Point2D<i32> {
    Point2D { x: x as i32, y: y as i32 }
}

/// The shape table: the four cell offsets, relative to the anchor, of every
/// piece type in every rotation state.  All 28 combinations are defined and
/// each entry has exactly four offsets; rotation is table-driven, never
/// computed geometrically at runtime.
pub open spec fn spec_offsets(t: TetrominoType, r: Rotation) -> Seq<Point2D<i32>> {
    match t {
        TetrominoType::I => match r {
            Rotation::_0 => seq![pt(-2, 0), pt(-1, 0), pt(0, 0), pt(1, 0)],
            Rotation::_90 => seq![pt(0, 2), pt(0, 1), pt(0, 0), pt(0, -1)],
            Rotation::_180 => seq![pt(-2, 0), pt(-1, 0), pt(0, 0), pt(1, 0)],
            Rotation::_270 => seq![pt(0, 2), pt(0, 1), pt(0, 0), pt(0, -1)],
        },
        TetrominoType::O => match r {
            Rotation::_0 => seq![pt(0, 0), pt(1, 0), pt(0, 1), pt(1, 1)],
            Rotation::_90 => seq![pt(0, 0), pt(1, 0), pt(0, 1), pt(1, 1)],
            Rotation::_180 => seq![pt(0, 0), pt(1, 0), pt(0, 1), pt(1, 1)],
            Rotation::_270 => seq![pt(0, 0), pt(1, 0), pt(0, 1), pt(1, 1)],
        },
        TetrominoType::T => match r {
            Rotation::_0 => seq![pt(0, 0), pt(-1, 0), pt(1, 0), pt(0, 1)],
            Rotation::_90 => seq![pt(0, 0), pt(0, 1), pt(0, -1), pt(1, 0)],
            Rotation::_180 => seq![pt(0, 0), pt(-1, 0), pt(1, 0), pt(0, -1)],
            Rotation::_270 => seq![pt(0, 0), pt(0, 1), pt(0, -1), pt(-1, 0)],
        },
        TetrominoType::S => match r {
            Rotation::_0 => seq![pt(0, 0), pt(1, 0), pt(0, -1), pt(-1, -1)],
            Rotation::_90 => seq![pt(0, 0), pt(0, -1), pt(-1, 0), pt(-1, 1)],
            Rotation::_180 => seq![pt(0, 0), pt(1, 0), pt(0, -1), pt(-1, -1)],
            Rotation::_270 => seq![pt(0, 0), pt(0, -1), pt(-1, 0), pt(-1, 1)],
        },
        TetrominoType::Z => match r {
            Rotation::_0 => seq![pt(0, 0), pt(-1, 0), pt(0, -1), pt(1, -1)],
            Rotation::_90 => seq![pt(0, 0), pt(0, 1), pt(-1, 0), pt(-1, -1)],
            Rotation::_180 => seq![pt(0, 0), pt(-1, 0), pt(0, -1), pt(1, -1)],
            Rotation::_270 => seq![pt(0, 0), pt(0, 1), pt(-1, 0), pt(-1, -1)],
        },
        TetrominoType::J => match r {
            Rotation::_0 => seq![pt(0, 0), pt(-1, 0), pt(-1, 1), pt(1, 0)],
            Rotation::_90 => seq![pt(0, 0), pt(0, 1), pt(1, 1), pt(0, -1)],
            Rotation::_180 => seq![pt(0, 0), pt(1, 0), pt(1, -1), pt(-1, 0)],
            Rotation::_270 => seq![pt(0, 0), pt(0, -1), pt(-1, -1), pt(0, 1)],
        },
        TetrominoType::L => match r {
            Rotation::_0 => seq![pt(0, 0), pt(-1, 0), pt(-1, -1), pt(1, 0)],
            Rotation::_90 => seq![pt(0, 0), pt(0, 1), pt(-1, 1), pt(0, -1)],
            Rotation::_180 => seq![pt(0, 0), pt(1, 0), pt(1, 1), pt(-1, 0)],
            Rotation::_270 => seq![pt(0, 0), pt(0, -1), pt(1, -1), pt(0, 1)],
        },
    }
}

/// Every shape-table entry has exactly four offsets, and each offset stays
/// within two cells of the anchor in either axis.
pub proof fn lemma_offsets_shape(t: TetrominoType, r: Rotation)
    ensures
        spec_offsets(t, r).len() == 4,
        forall|i: int|
            0 <= i < 4 ==> -2 <= (#[trigger] spec_offsets(t, r)[i]).x <= 2
                && -2 <= spec_offsets(t, r)[i].y <= 2,
{
}

/// Builds the four-offset list for one shape-table entry.
fn quad(ax: i32, ay: i32, bx: i32, by: i32, cx: i32, cy: i32, dx: i32, dy: i32) -> (v: Vec<
    Point2D<i32>,
>)
    ensures
        v@ == seq![
            pt(ax as int, ay as int),
            pt(bx as int, by as int),
            pt(cx as int, cy as int),
            pt(dx as int, dy as int),
        ],
{
    let mut v: Vec<Point2D<i32>> = Vec::new();
    v.push(Point2D::new(ax, ay));
    v.push(Point2D::new(bx, by));
    v.push(Point2D::new(cx, cy));
    v.push(Point2D::new(dx, dy));
    proof {
        assert(v@ =~= seq![
            pt(ax as int, ay as int),
            pt(bx as int, by as int),
            pt(cx as int, cy as int),
            pt(dx as int, dy as int),
        ]);
    }
    v
}

/// Looks up the shape table: the four anchor-relative offsets of piece type
/// `t` in rotation state `r`.  Total: every combination is defined.
pub fn offsets(t: TetrominoType, r: Rotation) -> (v: Vec<Point2D<i32>>)
    ensures
        v@ == spec_offsets(t, r),
        v@.len() == 4,
{
    match t {
        TetrominoType::I => match r {
            Rotation::_0 => quad(-2, 0, -1, 0, 0, 0, 1, 0),
            Rotation::_90 => quad(0, 2, 0, 1, 0, 0, 0, -1),
            Rotation::_180 => quad(-2, 0, -1, 0, 0, 0, 1, 0),
            Rotation::_270 => quad(0, 2, 0, 1, 0, 0, 0, -1),
        },
        TetrominoType::O => match r {
            Rotation::_0 => quad(0, 0, 1, 0, 0, 1, 1, 1),
            Rotation::_90 => quad(0, 0, 1, 0, 0, 1, 1, 1),
            Rotation::_180 => quad(0, 0, 1, 0, 0, 1, 1, 1),
            Rotation::_270 => quad(0, 0, 1, 0, 0, 1, 1, 1),
        },
        TetrominoType::T => match r {
            Rotation::_0 => quad(0, 0, -1, 0, 1, 0, 0, 1),
            Rotation::_90 => quad(0, 0, 0, 1, 0, -1, 1, 0),
            Rotation::_180 => quad(0, 0, -1, 0, 1, 0, 0, -1),
            Rotation::_270 => quad(0, 0, 0, 1, 0, -1, -1, 0),
        },
        TetrominoType::S => match r {
            Rotation::_0 => quad(0, 0, 1, 0, 0, -1, -1, -1),
            Rotation::_90 => quad(0, 0, 0, -1, -1, 0, -1, 1),
            Rotation::_180 => quad(0, 0, 1, 0, 0, -1, -1, -1),
            Rotation::_270 => quad(0, 0, 0, -1, -1, 0, -1, 1),
        },
        TetrominoType::Z => match r {
            Rotation::_0 => quad(0, 0, -1, 0, 0, -1, 1, -1),
            Rotation::_90 => quad(0, 0, 0, 1, -1, 0, -1, -1),
            Rotation::_180 => quad(0, 0, -1, 0, 0, -1, 1, -1),
            Rotation::_270 => quad(0, 0, 0, 1, -1, 0, -1, -1),
        },
        TetrominoType::J => match r {
            Rotation::_0 => quad(0, 0, -1, 0, -1, 1, 1, 0),
            Rotation::_90 => quad(0, 0, 0, 1, 1, 1, 0, -1),
            Rotation::_180 => quad(0, 0, 1, 0, 1, -1, -1, 0),
            Rotation::_270 => quad(0, 0, 0, -1, -1, -1, 0, 1),
        },
        TetrominoType::L => match r {
            Rotation::_0 => quad(0, 0, -1, 0, -1, -1, 1, 0),
            Rotation::_90 => quad(0, 0, 0, 1, -1, 1, 0, -1),
            Rotation::_180 => quad(0, 0, 1, 0, 1, 1, -1, 0),
            Rotation::_270 => quad(0, 0, 0, -1, 1, -1, 0, 1),
        },
    }
}

/// The active falling piece: a shape, a rotation state, and the anchor the
/// shape-table offsets are measured from.
#[derive(Clone, Copy, Debug, PartialEq, Eq, Structural)]
pub struct Tetromino {
    pub position: Point2D<i32>,
    pub rotation: Rotation,
    pub t_type: TetrominoType,
}

impl Tetromino {
    /// The anchor is far enough from the representation limits that adding
    /// any shape-table offset cannot overflow.
    pub open spec fn pos_in_range(self) -> bool {
        &&& i32::MIN + 8 <= self.position.x <= i32::MAX - 8
        &&& i32::MIN + 8 <= self.position.y <= i32::MAX - 8
    }

    /// The four absolute playfield cells the piece occupies: the anchor plus
    /// each offset of its shape-table entry.
    pub open spec fn spec_cells(self) -> Seq<Point2D<int>> {
        spec_offsets(self.t_type, self.rotation).map_values(
            |off: Point2D<i32>|
                Point2D { x: self.position.x + off.x, y: self.position.y + off.y },
        )
    }

    pub fn new(position: Point2D<i32>, rotation: Rotation, t_type: TetrominoType) -> (t:
        Tetromino)
        ensures
            t.position == position,
            t.rotation == rotation,
            t.t_type == t_type,
    {
        Tetromino { position, rotation, t_type }
    }

    /// Creates a piece of a uniformly drawn type at the given anchor and
    /// rotation state.
    pub fn random(position: Point2D<i32>, rotation: Rotation) -> (t: Tetromino)
        ensures
            t.position == position,
            t.rotation == rotation,
    {
        Tetromino { position, rotation, t_type: random_piece_type() }
    }

    /// A candidate copy of the piece in the given rotation state; the caller
    /// decides whether to commit it after validating it against the grid.
    pub fn with_rotation(&self, next: Rotation) -> (t: Tetromino)
        ensures
            t == (Tetromino { rotation: next, ..*self }),
    {
        Tetromino { rotation: next, ..*self }
    }

    /// A candidate copy of the piece at the given anchor.
    pub fn with_anchor(&self, anchor: Point2D<i32>) -> (t: Tetromino)
        ensures
            t == (Tetromino { position: anchor, ..*self }),
    {
        Tetromino { position: anchor, ..*self }
    }

    /// Advances the piece's rotation state one clockwise step, leaving anchor
    /// and type unchanged.
    pub fn rotate(&mut self)
        ensures
            *final(self) == (Tetromino {
                rotation: old(self).rotation.spec_rotate_cw(),
                ..*old(self)
            }),
    {
        self.rotation.rotate_cw();
    }

    /// The four anchor-relative offsets of the piece's shape in its current
    /// rotation state, straight from the shape table.
    pub fn blocks(&self) -> (v: Vec<Point2D<i32>>)
        ensures
            v@ == spec_offsets(self.t_type, self.rotation),
            v@.len() == 4,
    {
        offsets(self.t_type, self.rotation)
    }

    /// The absolute cells of the piece, as executable coordinates.
    pub fn cells(&self) -> (v: Vec<Point2D<i32>>)
        requires
            self.pos_in_range(),
        ensures
            v@.len() == 4,
            forall|i: int|
                0 <= i < 4 ==> (#[trigger] v@[i]).x == self.spec_cells()[i].x && v@[i].y
                    == self.spec_cells()[i].y,
    {
        proof {
            lemma_offsets_shape(self.t_type, self.rotation);
        }
        let offs = offsets(self.t_type, self.rotation);
        let mut v: Vec<Point2D<i32>> = Vec::new();
        let mut k: usize = 0;
        while k < 4
            invariant
                self.pos_in_range(),
                offs@ == spec_offsets(self.t_type, self.rotation),
                offs@.len() == 4,
                forall|i: int|
                    0 <= i < 4 ==> -2 <= (#[trigger] offs@[i]).x <= 2 && -2 <= offs@[i].y <= 2,
                0 <= k <= 4,
                v@.len() == k,
                forall|i: int|
                    0 <= i < k ==> (#[trigger] v@[i]).x == self.spec_cells()[i].x && v@[i].y
                        == self.spec_cells()[i].y,
            decreases 4 - k,
        {
            let off = offs[k];
            v.push(Point2D::new(self.position.x + off.x, self.position.y + off.y));
            k = k + 1;
        }
        v
    }
}

/// Rotating a piece four times in a row, with no boundary correction applied
/// in between, returns it to exactly its original absolute cells.
pub proof fn lemma_rotate_four_restores_cells(t: Tetromino)
    ensures
        (Tetromino {
            rotation: t.rotation.spec_rotate_cw().spec_rotate_cw().spec_rotate_cw().spec_rotate_cw(),
            ..t
        }).spec_cells() == t.spec_cells(),
{
    crate::types::lemma_rotate_cw_cycle(t.rotation);
}

} // verus!
