use vstd::prelude::*;

verus! {

use crate::grid::Grid;
use crate::grid::spec_committed_int;
use crate::grid::spec_empty_grid;
use crate::grid::spec_full_rows;
use crate::grid::spec_kept_rows;
use crate::grid::spec_occ;
use crate::score::LineClears;
use crate::score::classify;
use crate::score::score_delta;
use crate::score::spec_classify;
use crate::score::spec_score_delta;
use crate::tetromino::Tetromino;
use crate::tetromino::lemma_offsets_shape;
use crate::types::BlockState;
use crate::types::MoveDirection;
use crate::types::Rotation;
use crate::types::RunState;
use crate::types::TetrominoType;
use crate::util::Point2D;

/// Largest accepted playfield dimension; keeps all coordinate arithmetic,
/// including the horizontal boundary correction, far inside `i32`.
pub const MAX_DIM: usize = 1000000;

/// Whether the active piece is falling freely or waiting out the lock
/// delay, with the time so far accumulated against that delay.
#[derive(Clone, Copy, Debug, PartialEq, Eq, Structural)]
pub enum LockState {
    Falling,
    PendingLock(u64),
}

/// The closed command vocabulary the host feeds the engine.
#[derive(Clone, Copy, Debug, PartialEq, Eq, Structural)]
pub enum Command {
    Start,
    MoveLeft,
    MoveRight,
    SoftDrop,
    Rotate,
}

/// A mathematical snapshot of the whole engine state; the contracts of
/// `command` and `tick` are stated as transitions between such snapshots.
#[verifier::ext_equal]
pub struct GameView {
    pub width: int,
    pub height: int,
    pub grid: Seq<Seq<BlockState>>,
    pub tetromino: Option<Tetromino>,
    pub tetromino_next: Option<TetrominoType>,
    pub state: RunState,
    pub lock_state: LockState,
    pub gravity_acc: u64,
    pub gravity_interval: u64,
    pub lock_delay: u64,
    pub spawn_anchor: Point2D<i32>,
    pub score: u64,
}

/// Addition on timers and the score saturates instead of wrapping, so an
/// absurdly large `elapsed` cannot corrupt the state.
pub open spec fn spec_sat_add(a: u64, b: u64) -> u64 {
    if a + b > u64::MAX {
        u64::MAX
    } else {
        (a + b) as u64
    }
}

/// Saturating addition on 64-bit counters.
pub fn sat_add(a: u64, b: u64) -> (r: u64)
    ensures
        r == spec_sat_add(a, b),
{
    if a <= u64::MAX - b {
        a + b
    } else {
        u64::MAX
    }
}

/// The smaller of two coordinates.
pub open spec fn imin(a: int, b: int) -> int {
    if a <= b {
        a
    } else {
        b
    }
}

/// The larger of two coordinates.
pub open spec fn imax(a: int, b: int) -> int {
    if a >= b {
        a
    } else {
        b
    }
}

/// The leftmost column any of the piece's four cells occupies.
pub open spec fn spec_least_x(p: Tetromino) -> int {
    let c = p.spec_cells();
    imin(imin(c[0].x, c[1].x), imin(c[2].x, c[3].x))
}

/// The rightmost column any of the piece's four cells occupies.
pub open spec fn spec_great_x(p: Tetromino) -> int {
    let c = p.spec_cells();
    imax(imax(c[0].x, c[1].x), imax(c[2].x, c[3].x))
}

/// The minimal horizontal shift that brings all four cells back into
/// [0, width); zero when the piece is already inside.  Only horizontal
/// correction is applied, never vertical.
pub open spec fn spec_kick(width: int, p: Tetromino) -> int {
    if spec_least_x(p) < 0 {
        -spec_least_x(p)
    } else if spec_great_x(p) >= width {
        width - 1 - spec_great_x(p)
    } else {
        0
    }
}

/// The candidate piece a movement request asks for: moves shift the anchor
/// one cell, a rotation advances the rotation state one clockwise step and
/// then applies the horizontal boundary correction.
pub open spec fn spec_candidate(p: Tetromino, dir: MoveDirection, width: int) -> Tetromino {
    match dir {
        MoveDirection::Left => Tetromino {
            position: Point2D { x: (p.position.x - 1) as i32, y: p.position.y },
            ..p
        },
        MoveDirection::Right => Tetromino {
            position: Point2D { x: (p.position.x + 1) as i32, y: p.position.y },
            ..p
        },
        MoveDirection::Down => Tetromino {
            position: Point2D { x: p.position.x, y: (p.position.y + 1) as i32 },
            ..p
        },
        MoveDirection::Up => {
            let r = Tetromino { rotation: p.rotation.spec_rotate_cw(), ..p };
            Tetromino {
                position: Point2D {
                    x: (r.position.x + spec_kick(width, r)) as i32,
                    y: r.position.y,
                },
                ..r
            }
        },
    }
}

/// A piece fits when none of its four cells is occupied: all four are inside
/// the field and empty.
pub open spec fn spec_fits(g: Seq<Seq<BlockState>>, w: int, h: int, p: Tetromino) -> bool {
    forall|i: int|
        0 <= i < 4 ==> !spec_occ(g, w, h, (#[trigger] p.spec_cells()[i]).x, p.spec_cells()[i].y)
}

/// A piece that fits a field of bounded dimensions has its anchor within two
/// cells of the field, so its coordinate arithmetic stays far inside `i32`.
pub proof fn lemma_fits_anchor_bounds(g: Seq<Seq<BlockState>>, w: int, h: int, p: Tetromino)
    requires
        spec_fits(g, w, h, p),
        1 <= w,
        1 <= h,
    ensures
        -2 <= p.position.x <= w + 1,
        -2 <= p.position.y <= h + 1,
{
    lemma_offsets_shape(p.t_type, p.rotation);
    assert(!spec_occ(g, w, h, p.spec_cells()[0].x, p.spec_cells()[0].y));
    assert(p.spec_cells()[0].x == p.position.x + crate::tetromino::spec_offsets(
        p.t_type,
        p.rotation,
    )[0].x);
}

/// The engine: playfield, active piece, next-piece queue, lock-delay and
/// gravity accumulators, and score.  `command` and `tick` are the only
/// mutating entry points once a run is started.
pub struct Rustris {
    pub grid: Grid,
    pub tetromino: Option<Tetromino>,
    pub tetromino_next: Option<TetrominoType>,
    pub state: RunState,
    pub lock_state: LockState,
    pub move_tetromino_down: u64,
    pub gravity_interval: u64,
    pub lock_delay: u64,
    pub spawn_anchor: Point2D<i32>,
    pub score: u64,
}

impl View for Rustris {
    type V = GameView;

    open spec fn view(&self) -> GameView {
        GameView {
            width: self.grid.width as int,
            height: self.grid.height as int,
            grid: self.grid@,
            tetromino: self.tetromino,
            tetromino_next: self.tetromino_next,
            state: self.state,
            lock_state: self.lock_state,
            gravity_acc: self.move_tetromino_down,
            gravity_interval: self.gravity_interval,
            lock_delay: self.lock_delay,
            spawn_anchor: self.spawn_anchor,
            score: self.score,
        }
    }
}

impl Rustris {
    /// The engine invariant: the grid is well-formed with bounded dimensions
    /// of at least four cells each way, the spawn anchor is inside the field,
    /// and while a run is on there is an active piece that fits the grid and
    /// a queued next type.
    pub open spec fn wf(&self) -> bool {
        &&& self.grid.wf()
        &&& 4 <= self.grid.width <= MAX_DIM
        &&& 4 <= self.grid.height <= MAX_DIM
        &&& 0 <= self.spawn_anchor.x < self.grid.width
        &&& 0 <= self.spawn_anchor.y < self.grid.height
        &&& self.state is Running ==> {
            &&& self.tetromino is Some
            &&& self.tetromino_next is Some
            &&& spec_fits(
                self.grid@,
                self.grid.width as int,
                self.grid.height as int,
                self.tetromino->0,
            )
        }
    }

    /// Builds an engine around an empty grid, not yet running.  The
    /// configuration — dimensions, gravity interval, lock-delay threshold and
    /// spawn anchor — is fixed here for the engine's whole lifetime.
    pub fn new(
        width: usize,
        height: usize,
        gravity_interval: u64,
        lock_delay: u64,
        spawn_anchor: Point2D<i32>,
    ) -> (e: Rustris)
        requires
            4 <= width <= MAX_DIM,
            4 <= height <= MAX_DIM,
            0 <= spawn_anchor.x < width,
            0 <= spawn_anchor.y < height,
        ensures
            e.wf(),
            e.grid.width == width,
            e.grid.height == height,
            e.grid@ == spec_empty_grid(width as int, height as int),
            e.tetromino is None,
            e.tetromino_next is None,
            e.state is NotRunning,
            e.lock_state is Falling,
            e.move_tetromino_down == 0,
            e.gravity_interval == gravity_interval,
            e.lock_delay == lock_delay,
            e.spawn_anchor == spawn_anchor,
            e.score == 0,
    {
        Rustris {
            grid: Grid::new(width, height),
            tetromino: None,
            tetromino_next: None,
            state: RunState::NotRunning,
            lock_state: LockState::Falling,
            move_tetromino_down: 0,
            gravity_interval,
            lock_delay,
            spawn_anchor,
            score: 0,
        }
    }

    /// Pops the queued next type — or draws one if the queue is empty, as at
    /// the start of a run — spawns the new active piece at the spawn anchor
    /// with rotation state `_0`, and immediately refills the queue with a
    /// fresh uniform draw.
    pub fn generate_tetromino(&mut self)
        ensures
            final(self).grid == old(self).grid,
            final(self).state == old(self).state,
            final(self).lock_state == old(self).lock_state,
            final(self).move_tetromino_down == old(self).move_tetromino_down,
            final(self).gravity_interval == old(self).gravity_interval,
            final(self).lock_delay == old(self).lock_delay,
            final(self).spawn_anchor == old(self).spawn_anchor,
            final(self).score == old(self).score,
            final(self).tetromino is Some,
            (final(self).tetromino->0).position == old(self).spawn_anchor,
            (final(self).tetromino->0).rotation == Rotation::_0,
            old(self).tetromino_next is Some ==> (final(self).tetromino->0).t_type == old(
                self,
            ).tetromino_next->0,
            final(self).tetromino_next is Some,
    {
        let t = match self.tetromino_next {
            Some(tt) => tt,
            None => crate::spawn::random_piece_type(),
        };
        self.tetromino = Some(Tetromino::new(self.spawn_anchor, Rotation::_0, t));
        self.tetromino_next = Some(crate::spawn::random_piece_type());
    }

    /// The snapshot after starting a run from a stopped state: the grid is
    /// reset, the timers cleared, a piece of the queued type (or of the fresh
    /// draw `t1` if the queue was empty) is spawned at the spawn anchor in
    /// rotation state `_0`, and the queue is refilled with `t2`.  The run is
    /// on unless the spawned piece already has no legal position, which ends
    /// it at once as a top-out.  A start request while a run is on is ignored.
    pub open spec fn spec_start(v: GameView, t1: TetrominoType, t2: TetrominoType) -> GameView {
        if v.state is Running {
            v
        } else {
            let g = spec_empty_grid(v.width, v.height);
            let tcur = if v.tetromino_next is Some {
                v.tetromino_next->0
            } else {
                t1
            };
            let np = Tetromino { position: v.spawn_anchor, rotation: Rotation::_0, t_type: tcur };
            GameView {
                grid: g,
                gravity_acc: 0,
                lock_state: LockState::Falling,
                tetromino: Some(np),
                tetromino_next: Some(t2),
                state: if spec_fits(g, v.width, v.height, np) {
                    RunState::Running
                } else {
                    RunState::TopOut
                },
                ..v
            }
        }
    }

    /// Starts a run: the grid is reset, a piece is spawned, and the queue is
    /// filled.  Ignored while a run is already on; from a top-out it begins a
    /// fresh run.  The score carries over and never decreases.
    pub fn start(&mut self)
        requires
            old(self).wf(),
        ensures
            final(self).wf(),
            final(self).score == old(self).score,
            exists|t1: TetrominoType, t2: TetrominoType|
                final(self)@ == Rustris::spec_start(old(self)@, t1, t2),
    {
        match self.state {
            RunState::Running => {
                proof {
                    assert(self@ =~~= Rustris::spec_start(
                        old(self)@,
                        TetrominoType::I,
                        TetrominoType::I,
                    ));
                }
                return ;
            },
            _ => {},
        }
        self.grid.reset();
        self.move_tetromino_down = 0;
        self.lock_state = LockState::Falling;
        self.generate_tetromino();
        let p = self.tetromino.unwrap();
        proof {
            assert(p.pos_in_range());
        }
        let fits = piece_fits(&self.grid, &p);
        if fits {
            self.state = RunState::Running;
        } else {
            self.state = RunState::TopOut;
        }
        proof {
            let t1 = (self.tetromino->0).t_type;
            let t2 = self.tetromino_next->0;
            assert(self@ =~~= Rustris::spec_start(old(self)@, t1, t2));
        }
    }

    /// Computes the boundary correction for a piece: the minimal horizontal
    /// shift that brings all four of its cells back into [0, width), and
    /// zero when none is needed.  The correction is horizontal only — the
    /// caller re-validates the shifted candidate against grid occupancy, so
    /// vertical overflow and stack collisions after the shift are still
    /// rejected.
    pub fn calculate_offset(grid: &Grid, tetromino: &Tetromino) -> (off: Point2D<i32>)
        requires
            grid.wf(),
            grid.width <= MAX_DIM,
            tetromino.pos_in_range(),
        ensures
            off.x as int == spec_kick(grid.width as int, *tetromino),
            off.y == 0,
    {
        proof {
            lemma_offsets_shape(tetromino.t_type, tetromino.rotation);
        }
        let cs = tetromino.cells();
        let c0 = cs[0].x;
        let c1 = cs[1].x;
        let c2 = cs[2].x;
        let c3 = cs[3].x;
        let lo01 = if c0 <= c1 {
            c0
        } else {
            c1
        };
        let lo23 = if c2 <= c3 {
            c2
        } else {
            c3
        };
        let lo = if lo01 <= lo23 {
            lo01
        } else {
            lo23
        };
        let hi01 = if c0 >= c1 {
            c0
        } else {
            c1
        };
        let hi23 = if c2 >= c3 {
            c2
        } else {
            c3
        };
        let hi = if hi01 >= hi23 {
            hi01
        } else {
            hi23
        };
        let w = grid.width as i32;
        let shift: i32 = if lo < 0 {
            -lo
        } else if hi >= w {
            w - 1 - hi
        } else {
            0
        };
        proof {
            assert(lo == spec_least_x(*tetromino));
            assert(hi == spec_great_x(*tetromino));
            assert(shift as int == spec_kick(grid.width as int, *tetromino));
        }
        Point2D::new(shift, 0)
    }

    /// Builds the candidate piece a movement request asks for and validates
    /// it against the grid: the candidate is legal exactly when none of its
    /// four cells is occupied.  Returns the candidate when legal, and leaves
    /// the engine untouched either way.
    pub fn validate_move(&self, direction: &MoveDirection) -> (r: Option<Tetromino>)
        requires
            self.wf(),
            self.state is Running,
        ensures
            r is Some <==> spec_fits(
                self.grid@,
                self.grid.width as int,
                self.grid.height as int,
                spec_candidate(self.tetromino->0, *direction, self.grid.width as int),
            ),
            r is Some ==> r->0 == spec_candidate(
                self.tetromino->0,
                *direction,
                self.grid.width as int,
            ),
    {
        let p = self.tetromino.unwrap();
        proof {
            lemma_fits_anchor_bounds(
                self.grid@,
                self.grid.width as int,
                self.grid.height as int,
                p,
            );
        }
        let cand = match direction {
            MoveDirection::Left => Tetromino::new(
                Point2D::new(p.position.x - 1, p.position.y),
                p.rotation,
                p.t_type,
            ),
            MoveDirection::Right => Tetromino::new(
                Point2D::new(p.position.x + 1, p.position.y),
                p.rotation,
                p.t_type,
            ),
            MoveDirection::Down => Tetromino::new(
                Point2D::new(p.position.x, p.position.y + 1),
                p.rotation,
                p.t_type,
            ),
            MoveDirection::Up => {
                let mut rot = p.rotation;
                rot.rotate_cw();
                let r = p.with_rotation(rot);
                proof {
                    lemma_offsets_shape(r.t_type, r.rotation);
                }
                let off = Rustris::calculate_offset(&self.grid, &r);
                Tetromino::new(
                    Point2D::new(r.position.x + off.x, r.position.y),
                    r.rotation,
                    r.t_type,
                )
            },
        };
        proof {
            assert(cand == spec_candidate(p, *direction, self.grid.width as int));
            assert(cand.pos_in_range());
        }
        if piece_fits(&self.grid, &cand) {
            Some(cand)
        } else {
            None
        }
    }

    /// The snapshot after one movement request while a run is on.  The legal
    /// candidate is committed and any successful move returns the lock state
    /// to `Falling`; an illegal one changes nothing.  Then, if the piece can
    /// no longer move one step down and was falling, the lock delay starts
    /// at zero.  The grid, the queue, and the score never change here.
    pub open spec fn spec_move(v: GameView, dir: MoveDirection) -> GameView {
        let p = v.tetromino->0;
        let cand = spec_candidate(p, dir, v.width);
        let v1 = if spec_fits(v.grid, v.width, v.height, cand) {
            GameView { tetromino: Some(cand), lock_state: LockState::Falling, ..v }
        } else {
            v
        };
        let down = spec_candidate(v1.tetromino->0, MoveDirection::Down, v.width);
        if !spec_fits(v.grid, v.width, v.height, down) && v1.lock_state is Falling {
            GameView { lock_state: LockState::PendingLock(0), ..v1 }
        } else {
            v1
        }
    }

    /// Applies one movement request: commits the candidate when it is legal,
    /// keeps the piece unchanged when it is not, and manages the transition
    /// into (or back out of) the pending-lock state.
    pub fn move_tetromino(&mut self, direction: &MoveDirection)
        requires
            old(self).wf(),
            old(self).state is Running,
        ensures
            final(self).wf(),
            final(self)@ == Rustris::spec_move(old(self)@, *direction),
            final(self).score == old(self).score,
    {
        match self.validate_move(direction) {
            Some(cand) => {
                self.tetromino = Some(cand);
                self.lock_state = LockState::Falling;
            },
            None => {},
        }
        match self.lock_state {
            LockState::Falling => {
                if self.validate_move(&MoveDirection::Down).is_none() {
                    self.lock_state = LockState::PendingLock(0);
                }
            },
            LockState::PendingLock(_) => {},
        }
        proof {
            assert(self@ =~~= Rustris::spec_move(old(self)@, *direction));
        }
    }

    /// The snapshot after the pending lock expires: the active piece's four
    /// cells are fused into the grid with its colour, all full rows are
    /// removed in one atomic compaction with as many empty rows backfilled at
    /// the top, the cleared count's score value is added, and the queued type
    /// is spawned as the new active piece (with the queue refilled by `t`).
    /// If the spawned piece already has no legal position the run ends as a
    /// top-out.
    pub open spec fn spec_lock(v: GameView, t: TetrominoType) -> GameView {
        let p = v.tetromino->0;
        let g1 = spec_committed_int(v.grid, p.spec_cells(), p.t_type.spec_color_id());
        let fr = spec_full_rows(g1, v.height);
        let g2 = spec_empty_grid(v.width, fr.len() as int) + spec_kept_rows(g1, fr, v.height);
        let np = Tetromino {
            position: v.spawn_anchor,
            rotation: Rotation::_0,
            t_type: v.tetromino_next->0,
        };
        GameView {
            grid: g2,
            score: spec_sat_add(v.score, spec_score_delta(spec_classify(fr.len() as int))),
            tetromino: Some(np),
            tetromino_next: Some(t),
            lock_state: LockState::Falling,
            state: if spec_fits(g2, v.width, v.height, np) {
                RunState::Running
            } else {
                RunState::TopOut
            },
            ..v
        }
    }

    /// The snapshot one tick later.  While no run is on, nothing changes.
    /// Otherwise the elapsed time first feeds the gravity accumulator — on
    /// reaching the gravity interval an automatic downward move is attempted
    /// exactly as a soft drop would be, and the accumulator resets — and then
    /// feeds the pending-lock counter, whose expiry locks the piece as
    /// [`Rustris::spec_lock`] describes.
    pub open spec fn spec_tick(v: GameView, elapsed: u64, t: TetrominoType) -> GameView {
        if !(v.state is Running) {
            v
        } else {
            let acc = spec_sat_add(v.gravity_acc, elapsed);
            let v1 = if acc >= v.gravity_interval {
                Rustris::spec_move(GameView { gravity_acc: 0, ..v }, MoveDirection::Down)
            } else {
                GameView { gravity_acc: acc, ..v }
            };
            match v1.lock_state {
                LockState::Falling => v1,
                LockState::PendingLock(ms) => {
                    let ms2 = spec_sat_add(ms, elapsed);
                    if ms2 >= v.lock_delay {
                        Rustris::spec_lock(v1, t)
                    } else {
                        GameView { lock_state: LockState::PendingLock(ms2), ..v1 }
                    }
                },
            }
        }
    }

    /// Advances the engine by `elapsed` milliseconds: gravity, lock-delay
    /// countdown, locking, row clearing, scoring, and respawn, exactly as
    /// [`Rustris::spec_tick`] describes for some refill draw.  The score
    /// never decreases.
    pub fn tick(&mut self, elapsed: u64)
        requires
            old(self).wf(),
        ensures
            final(self).wf(),
            old(self).score <= final(self).score,
            exists|t: TetrominoType|
                final(self)@ == Rustris::spec_tick(old(self)@, elapsed, t),
    {
        match self.state {
            RunState::Running => {},
            _ => {
                proof {
                    assert(self@ =~~= Rustris::spec_tick(old(self)@, elapsed, TetrominoType::I));
                }
                return ;
            },
        }
        let acc = sat_add(self.move_tetromino_down, elapsed);
        if acc >= self.gravity_interval {
            self.move_tetromino_down = 0;
            proof {
                assert(self@ =~~= (GameView { gravity_acc: 0, ..old(self)@ }));
            }
            self.move_tetromino(&MoveDirection::Down);
        } else {
            self.move_tetromino_down = acc;
        }
        let ghost v1 = self@;
        proof {
            assert(v1 =~~= ({
                let acc2 = spec_sat_add(old(self)@.gravity_acc, elapsed);
                if acc2 >= old(self)@.gravity_interval {
                    Rustris::spec_move(
                        GameView { gravity_acc: 0, ..old(self)@ },
                        MoveDirection::Down,
                    )
                } else {
                    GameView { gravity_acc: acc2, ..old(self)@ }
                }
            }));
        }
        match self.lock_state {
            LockState::Falling => {
                proof {
                    assert(self@ =~~= Rustris::spec_tick(old(self)@, elapsed, TetrominoType::I));
                }
            },
            LockState::PendingLock(ms) => {
                let ms2 = sat_add(ms, elapsed);
                if ms2 >= self.lock_delay {
                    self.lock_step();
                    proof {
                        let t = self.tetromino_next->0;
                        assert(self@ == Rustris::spec_lock(v1, t));
                        assert(self@ =~~= Rustris::spec_tick(old(self)@, elapsed, t));
                    }
                } else {
                    self.lock_state = LockState::PendingLock(ms2);
                    proof {
                        assert(self@ =~~= Rustris::spec_tick(
                            old(self)@,
                            elapsed,
                            TetrominoType::I,
                        ));
                    }
                }
            },
        }
    }

    /// Fuses the active piece's four cells into the grid, each filled with
    /// the piece's colour; nothing else about the engine changes.  The piece
    /// itself stays active — the caller clears rows and respawns.
    pub fn lock_tetromino(&mut self)
        requires
            old(self).wf(),
            old(self).state is Running,
        ensures
            final(self).grid.wf(),
            final(self)@ == (GameView {
                grid: spec_committed_int(
                    old(self)@.grid,
                    (old(self).tetromino->0).spec_cells(),
                    (old(self).tetromino->0).t_type.spec_color_id(),
                ),
                ..old(self)@
            }),
    {
        let p = self.tetromino.unwrap();
        proof {
            lemma_fits_anchor_bounds(
                self.grid@,
                self.grid.width as int,
                self.grid.height as int,
                p,
            );
        }
        let cs = p.cells();
        let color = p.t_type.color_id();
        let ghost g0 = self.grid@;
        self.grid.commit(&cs, color);
        proof {
            crate::grid::lemma_committed_agree(g0, cs@, p.spec_cells(), color);
            assert(self@ =~~= (GameView {
                grid: spec_committed_int(
                    old(self)@.grid,
                    (old(self).tetromino->0).spec_cells(),
                    (old(self).tetromino->0).t_type.spec_color_id(),
                ),
                ..old(self)@
            }));
        }
    }

    /// Locks the active piece, clears full rows, scores the clear, and
    /// spawns the next piece; the run ends in a top-out when the fresh piece
    /// has no legal position.
    fn lock_step(&mut self)
        requires
            old(self).wf(),
            old(self).state is Running,
        ensures
            final(self).wf(),
            old(self).score <= final(self).score,
            exists|t: TetrominoType| final(self)@ == Rustris::spec_lock(old(self)@, t),
            final(self)@ == Rustris::spec_lock(old(self)@, final(self).tetromino_next->0),
    {
        self.lock_tetromino();
        let n = self.grid.clear_lines();
        let c = classify(n);
        self.update_score(&c);
        self.generate_tetromino();
        self.lock_state = LockState::Falling;
        let q = self.tetromino.unwrap();
        proof {
            assert(q.pos_in_range());
        }
        if !piece_fits(&self.grid, &q) {
            self.state = RunState::TopOut;
        }
        proof {
            let t = self.tetromino_next->0;
            assert(self@ =~~= Rustris::spec_lock(old(self)@, t));
        }
    }

    /// Adds the score value of one lock's clears to the accumulator, which
    /// therefore never decreases.
    fn update_score(&mut self, clears: &LineClears)
        ensures
            *final(self) == (Rustris {
                score: spec_sat_add(old(self).score, spec_score_delta(*clears)),
                ..*old(self)
            }),
            old(self).score <= final(self).score,
    {
        let delta = score_delta(*clears);
        self.score = sat_add(self.score, delta);
    }

    /// The snapshot after one command.  `Start` begins a run as
    /// [`Rustris::spec_start`] describes; the four movement commands act only
    /// while a run is on, as [`Rustris::spec_move`] describes, and are
    /// silently ignored otherwise.
    pub open spec fn spec_command(
        v: GameView,
        cmd: Command,
        t1: TetrominoType,
        t2: TetrominoType,
    ) -> GameView {
        match cmd {
            Command::Start => Rustris::spec_start(v, t1, t2),
            Command::MoveLeft => if v.state is Running {
                Rustris::spec_move(v, MoveDirection::Left)
            } else {
                v
            },
            Command::MoveRight => if v.state is Running {
                Rustris::spec_move(v, MoveDirection::Right)
            } else {
                v
            },
            Command::SoftDrop => if v.state is Running {
                Rustris::spec_move(v, MoveDirection::Down)
            } else {
                v
            },
            Command::Rotate => if v.state is Running {
                Rustris::spec_move(v, MoveDirection::Up)
            } else {
                v
            },
        }
    }

    /// Feeds one command to the engine: `Start` begins a run, the movement
    /// commands transform the active piece while a run is on, and anything
    /// disallowed in the current state is silently ignored.  The score never
    /// decreases.
    pub fn command(&mut self, cmd: Command)
        requires
            old(self).wf(),
        ensures
            final(self).wf(),
            old(self).score <= final(self).score,
            exists|t1: TetrominoType, t2: TetrominoType|
                final(self)@ == Rustris::spec_command(old(self)@, cmd, t1, t2),
    {
        let running = match self.state {
            RunState::Running => true,
            _ => false,
        };
        match cmd {
            Command::Start => {
                self.start();
                proof {
                    let (t1, t2) = choose|t1: TetrominoType, t2: TetrominoType|
                        self@ == Rustris::spec_start(old(self)@, t1, t2);
                    assert(self@ == Rustris::spec_command(old(self)@, cmd, t1, t2));
                }
            },
            Command::MoveLeft => {
                if running {
                    self.move_tetromino(&MoveDirection::Left);
                }
                proof {
                    assert(self@ == Rustris::spec_command(
                        old(self)@,
                        cmd,
                        TetrominoType::I,
                        TetrominoType::I,
                    ));
                }
            },
            Command::MoveRight => {
                if running {
                    self.move_tetromino(&MoveDirection::Right);
                }
                proof {
                    assert(self@ == Rustris::spec_command(
                        old(self)@,
                        cmd,
                        TetrominoType::I,
                        TetrominoType::I,
                    ));
                }
            },
            Command::SoftDrop => {
                if running {
                    self.move_tetromino(&MoveDirection::Down);
                }
                proof {
                    assert(self@ == Rustris::spec_command(
                        old(self)@,
                        cmd,
                        TetrominoType::I,
                        TetrominoType::I,
                    ));
                }
            },
            Command::Rotate => {
                if running {
                    self.move_tetromino(&MoveDirection::Up);
                }
                proof {
                    assert(self@ == Rustris::spec_command(
                        old(self)@,
                        cmd,
                        TetrominoType::I,
                        TetrominoType::I,
                    ));
                }
            },
        }
    }
}

/// Checks whether a piece fits the grid: none of its four cells occupied.
pub fn piece_fits(grid: &Grid, p: &Tetromino) -> (b: bool)
    requires
        grid.wf(),
        p.pos_in_range(),
    ensures
        b == spec_fits(grid@, grid.width as int, grid.height as int, *p),
{
    proof {
        lemma_offsets_shape(p.t_type, p.rotation);
    }
    let cs = p.cells();
    let mut i: usize = 0;
    while i < 4
        invariant
            grid.wf(),
            cs@.len() == 4,
            forall|j: int|
                0 <= j < 4 ==> (#[trigger] cs@[j]).x == p.spec_cells()[j].x && cs@[j].y
                    == p.spec_cells()[j].y,
            0 <= i <= 4,
            forall|j: int|
                0 <= j < i ==> !spec_occ(
                    grid@,
                    grid.width as int,
                    grid.height as int,
                    (#[trigger] p.spec_cells()[j]).x,
                    p.spec_cells()[j].y,
                ),
        decreases 4 - i,
    {
        if grid.check_occupied(cs[i].x, cs[i].y) {
            return false;
        }
        i = i + 1;
    }
    true
}

} // verus!
