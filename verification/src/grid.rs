use vstd::prelude::*;

verus! {

use crate::types::BlockState;
use crate::util::Point2D;

/// An all-empty row of the given width.
pub open spec fn spec_empty_row(w: int) -> Seq<BlockState> {
    Seq::new(w as nat, |x: int| BlockState::Empty)
}

/// An all-empty playfield of the given dimensions.
pub open spec fn spec_empty_grid(w: int, h: int) -> Seq<Seq<BlockState>> {
    Seq::new(h as nat, |y: int| spec_empty_row(w))
}

/// A row is full when none of its cells is empty.
pub open spec fn row_full(r: Seq<BlockState>) -> bool {
    forall|x: int| 0 <= x < r.len() ==> !((#[trigger] r[x]) is Empty)
}

/// Whether position (x, y) counts as occupied on a field of the given
/// dimensions: everything outside [0, w) x [0, h) does, and inside, a cell
/// that is not empty does.
pub open spec fn spec_occ(g: Seq<Seq<BlockState>>, w: int, h: int, x: int, y: int) -> bool {
    !(0 <= x < w && 0 <= y < h) || !(g[y][x] is Empty)
}

/// The playfield: a fixed-size matrix of cells, indexed by column
/// x in [0, width) and row y in [0, height), with row 0 at the top.
/// Rows are stored whole, so `cells[y][x]` is the cell at (x, y).
#[derive(Debug)]
pub struct Grid {
    pub width: usize,
    pub height: usize,
    pub cells: Vec<Vec<BlockState>>,
}

impl View for Grid {
    type V = Seq<Seq<BlockState>>;

    open spec fn view(&self) -> Seq<Seq<BlockState>> {
        self.cells@.map_values(|r: Vec<BlockState>| r@)
    }
}

impl Grid {
    /// The matrix really has `height` rows of `width` cells each.
    pub open spec fn wf(&self) -> bool {
        &&& self@.len() == self.height
        &&& forall|y: int| 0 <= y < self.height ==> (#[trigger] self@[y]).len() == self.width
    }

    /// Occupancy of (x, y) on this grid; out-of-bounds counts as occupied.
    pub open spec fn spec_occupied(&self, x: int, y: int) -> bool {
        spec_occ(self@, self.width as int, self.height as int, x, y)
    }

    /// A freshly constructed grid has the given dimensions, fixed for its
    /// whole lifetime, and every cell empty.
    pub fn new(width: usize, height: usize) -> (g: Grid)
        ensures
            g.wf(),
            g.width == width,
            g.height == height,
            g@ == spec_empty_grid(width as int, height as int),
    {
        let mut cells: Vec<Vec<BlockState>> = Vec::new();
        let mut y: usize = 0;
        while y < height
            invariant
                0 <= y <= height,
                cells@.len() == y,
                forall|j: int|
                    0 <= j < y ==> (#[trigger] cells@[j])@ == spec_empty_row(width as int),
            decreases height - y,
        {
            let row = empty_row(width);
            cells.push(row);
            y = y + 1;
        }
        let g = Grid { width, height, cells };
        proof {
            assert(g@ =~~= spec_empty_grid(width as int, height as int));
        }
        g
    }

    /// Occupancy query, total over all integer coordinates: positions outside
    /// the field report occupied, so one predicate covers wall and stack
    /// collisions alike.
    pub fn check_occupied(&self, x: i32, y: i32) -> (r: bool)
        requires
            self.wf(),
        ensures
            r == self.spec_occupied(x as int, y as int),
            !(0 <= x < self.width && 0 <= y < self.height) ==> r,
    {
        if x >= 0 && y >= 0 && (x as usize) < self.width && (y as usize) < self.height {
            proof {
                assert(self@[y as int] == self.cells@[y as int]@);
            }
            match self.cells[y as usize][x as usize] {
                BlockState::Empty => false,
                BlockState::Filled(_) => true,
            }
        } else {
            true
        }
    }

    /// Reads one in-bounds cell.
    pub fn cell(&self, x: usize, y: usize) -> (c: BlockState)
        requires
            self.wf(),
            x < self.width,
            y < self.height,
        ensures
            c == self@[y as int][x as int],
    {
        self.cells[y][x]
    }

    /// Overwrites one in-bounds cell.
    fn set_cell(&mut self, x: usize, y: usize, v: BlockState)
        requires
            old(self).wf(),
            x < old(self).width,
            y < old(self).height,
        ensures
            final(self).wf(),
            final(self).width == old(self).width,
            final(self).height == old(self).height,
            final(self)@ == old(self)@.update(y as int, old(self)@[y as int].update(x as int, v)),
    {
        proof {
            assert(self@[y as int] == self.cells@[y as int]@);
        }
        self.cells[y].set(x, v);
        proof {
            assert(self@ =~~= old(self)@.update(
                y as int,
                old(self)@[y as int].update(x as int, v),
            ));
        }
    }

    /// Marks each listed in-bounds cell as filled with the given colour.
    /// Out-of-range entries are skipped defensively; the operation never
    /// panics and touches no other cell.
    pub fn commit(&mut self, cells: &Vec<Point2D<i32>>, color: u8)
        requires
            old(self).wf(),
        ensures
            final(self).wf(),
            final(self).width == old(self).width,
            final(self).height == old(self).height,
            final(self)@ == spec_committed(old(self)@, cells@, color),
    {
        let ghost g0 = self@;
        proof {
            assert(g0 =~~= spec_committed_upto(g0, cells@, color, 0));
        }
        let mut k: usize = 0;
        while k < cells.len()
            invariant
                self.wf(),
                self.width == old(self).width,
                self.height == old(self).height,
                g0 == old(self)@,
                0 <= k <= cells@.len(),
                self@ == spec_committed_upto(g0, cells@, color, k as int),
            decreases cells@.len() - k,
        {
            let p = cells[k];
            proof {
                lemma_committed_upto_step(g0, cells@, color, k as int);
            }
            if p.x >= 0 && p.y >= 0 && (p.x as usize) < self.width && (p.y as usize)
                < self.height {
                let ghost before = self@;
                self.set_cell(p.x as usize, p.y as usize, BlockState::Filled(color));
                proof {
                    assert(self@ =~~= spec_committed_upto(g0, cells@, color, k as int + 1));
                }
            } else {
                proof {
                    assert(self@ =~~= spec_committed_upto(g0, cells@, color, k as int + 1));
                }
            }
            k = k + 1;
        }
        proof {
            assert(self@ =~~= spec_committed(g0, cells@, color));
        }
    }
    /// Returns every cell to empty; the dimensions never change.
    pub fn reset(&mut self)
        requires
            old(self).wf(),
        ensures
            final(self).wf(),
            final(self).width == old(self).width,
            final(self).height == old(self).height,
            final(self)@ == spec_empty_grid(old(self).width as int, old(self).height as int),
    {
        let fresh = Grid::new(self.width, self.height);
        self.cells = fresh.cells;
    }

    /// Scans for full rows and returns their indices in ascending order: a
    /// row index is listed exactly when the row contains no empty cell.
    pub fn find_line_clears(&self) -> (rows: Vec<usize>)
        requires
            self.wf(),
        ensures
            rows@.map_values(|r: usize| r as int) == spec_full_rows(self@, self.height as int),
    {
        let mut rows: Vec<usize> = Vec::new();
        let mut y: usize = 0;
        while y < self.height
            invariant
                self.wf(),
                0 <= y <= self.height,
                rows@.map_values(|r: usize| r as int) == spec_full_rows(self@, y as int),
            decreases self.height - y,
        {
            proof {
                assert(self@[y as int] == self.cells@[y as int]@);
            }
            let full = row_is_full(&self.cells[y]);
            if full {
                let ghost prev = rows@;
                rows.push(y);
                proof {
                    assert(rows@.map_values(|r: usize| r as int) =~= prev.map_values(
                        |r: usize| r as int,
                    ).push(y as int));
                }
            }
            y = y + 1;
        }
        rows
    }

    /// Removes every listed row in one atomic compaction and backfills that
    /// many empty rows at the top, preserving the relative order of all rows
    /// that remain.  The listed indices must be strictly ascending and in
    /// bounds; an empty list leaves the grid unchanged.
    pub fn clear_rows(&mut self, rows: &Vec<usize>)
        requires
            old(self).wf(),
            forall|i: int, j: int| 0 <= i < j < rows@.len() ==> rows@[i] < rows@[j],
            forall|i: int| 0 <= i < rows@.len() ==> #[trigger] rows@[i] < old(self).height,
        ensures
            final(self).wf(),
            final(self).width == old(self).width,
            final(self).height == old(self).height,
            final(self)@ == spec_empty_grid(old(self).width as int, rows@.len() as int)
                + spec_kept_rows(
                old(self)@,
                rows@.map_values(|r: usize| r as int),
                old(self).height as int,
            ),
    {
        let ghost g0 = self@;
        let ghost listed = rows@.map_values(|r: usize| r as int);
        proof {
            assert forall|i: int, j: int| 0 <= i < j < listed.len() implies listed[i]
                < listed[j] by {
                assert(rows@[i] < rows@[j]);
            }
            assert forall|i: int| 0 <= i < listed.len() implies 0 <= #[trigger] listed[i]
                < old(self).height by {
                assert(rows@[i] < old(self).height);
            }
        }
        let k = rows.len();
        let mut new_cells: Vec<Vec<BlockState>> = Vec::new();
        let mut i: usize = 0;
        while i < k
            invariant
                0 <= i <= k,
                new_cells@.len() == i,
                forall|j: int|
                    0 <= j < i ==> (#[trigger] new_cells@[j])@ == spec_empty_row(
                        self.width as int,
                    ),
            decreases k - i,
        {
            let row = empty_row(self.width);
            new_cells.push(row);
            i = i + 1;
        }
        proof {
            assert(new_cells@.map_values(|r: Vec<BlockState>| r@) =~~= spec_empty_grid(
                self.width as int,
                k as int,
            ) + spec_kept_rows(g0, listed, 0));
        }
        let mut y: usize = 0;
        while y < self.height
            invariant
                self.wf(),
                self@ == g0,
                self.width == old(self).width,
                self.height == old(self).height,
                k == rows@.len(),
                listed == rows@.map_values(|r: usize| r as int),
                0 <= y <= self.height,
                new_cells@.map_values(|r: Vec<BlockState>| r@) == spec_empty_grid(
                    self.width as int,
                    k as int,
                ) + spec_kept_rows(g0, listed, y as int),
            decreases self.height - y,
        {
            let listed_here = contains_index(rows, y);
            proof {
                lemma_map_contains_int(rows@, y);
            }
            if !listed_here {
                proof {
                    assert(self@[y as int] == self.cells@[y as int]@);
                }
                let ghost before = new_cells@.map_values(|r: Vec<BlockState>| r@);
                let row = copy_row(&self.cells[y]);
                new_cells.push(row);
                proof {
                    assert(spec_kept_rows(g0, listed, y as int + 1) == spec_kept_rows(
                        g0,
                        listed,
                        y as int,
                    ).push(g0[y as int]));
                    assert(new_cells@.map_values(|r: Vec<BlockState>| r@) =~~= before.push(
                        g0[y as int],
                    ));
                    assert(new_cells@.map_values(|r: Vec<BlockState>| r@) =~~= spec_empty_grid(
                        self.width as int,
                        k as int,
                    ) + spec_kept_rows(g0, listed, y as int + 1));
                }
            } else {
                proof {
                    assert(spec_kept_rows(g0, listed, y as int + 1) == spec_kept_rows(
                        g0,
                        listed,
                        y as int,
                    ));
                }
            }
            y = y + 1;
        }
        self.cells = new_cells;
        proof {
            let h = old(self).height as int;
            let w = old(self).width as int;
            lemma_kept_rows_len(g0, listed, h);
            lemma_count_below_all(listed, h);
            assert(self@.len() == old(self).height);
            assert forall|j: int| 0 <= j < self.height implies (#[trigger] self@[j]).len()
                == self.width by {
                if j >= k {
                    lemma_kept_rows_from(g0, listed, h, j - k);
                    let r = choose|r: int|
                        0 <= r < h && #[trigger] spec_kept_rows(g0, listed, h)[j - k] == g0[r];
                    assert(g0[r].len() == w);
                }
            }
        }
    }

    /// Removes the single given row and inserts a fresh empty row at the
    /// top; reports whether the index named a row at all.
    pub fn clear_line(&mut self, line_index: usize) -> (ok: bool)
        requires
            old(self).wf(),
        ensures
            final(self).wf(),
            final(self).width == old(self).width,
            final(self).height == old(self).height,
            ok == (line_index < old(self).height),
            ok ==> final(self)@ == seq![spec_empty_row(old(self).width as int)] + old(
                self,
            )@.remove(line_index as int),
            !ok ==> final(self)@ == old(self)@,
    {
        if line_index >= self.height {
            return false;
        }
        self.cells.remove(line_index);
        proof {
            assert(self@ =~~= old(self)@.remove(line_index as int));
        }
        let ghost mid = self@;
        let row = empty_row(self.width);
        self.cells.insert(0, row);
        proof {
            assert(self@ =~~= seq![spec_empty_row(old(self).width as int)] + mid);
        }
        true
    }

    /// Finds all full rows, clears them in one atomic compaction, and returns
    /// how many were cleared.
    pub fn clear_lines(&mut self) -> (n: usize)
        requires
            old(self).wf(),
        ensures
            final(self).wf(),
            final(self).width == old(self).width,
            final(self).height == old(self).height,
            n == spec_full_rows(old(self)@, old(self).height as int).len(),
            final(self)@ == spec_empty_grid(old(self).width as int, n as int) + spec_kept_rows(
                old(self)@,
                spec_full_rows(old(self)@, old(self).height as int),
                old(self).height as int,
            ),
    {
        let rows = self.find_line_clears();
        proof {
            let fr = spec_full_rows(self@, self.height as int);
            lemma_full_rows_facts(self@, self.height as int);
            assert forall|i: int, j: int| 0 <= i < j < rows@.len() implies rows@[i]
                < rows@[j] by {
                assert(rows@.map_values(|r: usize| r as int)[i] == fr[i]);
                assert(rows@.map_values(|r: usize| r as int)[j] == fr[j]);
            }
            assert forall|i: int| 0 <= i < rows@.len() implies #[trigger] rows@[i]
                < self.height by {
                assert(rows@.map_values(|r: usize| r as int)[i] == fr[i]);
            }
        }
        let n = rows.len();
        self.clear_rows(&rows);
        n
    }
}

/// At most one listed index fits between two bounds one apart, so the count
/// grows no faster than the bound.
proof fn lemma_count_growth(listed: Seq<int>, a: int, b: int)
    requires
        sorted_unique(listed),
        a <= b,
    ensures
        count_listed_below(listed, b) - count_listed_below(listed, a) <= b - a,
    decreases b - a,
{
    if a < b {
        lemma_count_growth(listed, a, b - 1);
        lemma_count_step(listed, b - 1);
    }
}

/// Clearing preserves the relative order of all surviving rows: of two
/// unlisted indices, the smaller lands strictly earlier in the kept block.
pub proof fn lemma_kept_rows_order(
    g: Seq<Seq<BlockState>>,
    listed: Seq<int>,
    y: int,
    r1: int,
    r2: int,
)
    requires
        sorted_unique(listed),
        forall|i: int| 0 <= i < listed.len() ==> 0 <= #[trigger] listed[i],
        0 <= r1 < r2 < y,
        !listed.contains(r1),
        !listed.contains(r2),
    ensures
        0 <= r1 - count_listed_below(listed, r1) < r2 - count_listed_below(listed, r2)
            < spec_kept_rows(g, listed, y).len(),
        spec_kept_rows(g, listed, y)[r1 - count_listed_below(listed, r1)] == g[r1],
        spec_kept_rows(g, listed, y)[r2 - count_listed_below(listed, r2)] == g[r2],
{
    lemma_kept_row_at(g, listed, y, r1);
    lemma_kept_row_at(g, listed, y, r2);
    lemma_count_step(listed, r1);
    lemma_count_growth(listed, r1 + 1, r2);
}

/// When exactly one row of the field is full, the scan reports exactly that
/// one row index: committing cells that complete a single row and scanning
/// immediately afterwards yields just that row.
pub proof fn lemma_scan_single_full_row(g: Seq<Seq<BlockState>>, h: int, r: int)
    requires
        0 <= r < h,
        row_full(g[r]),
        forall|y: int| 0 <= y < h && y != r ==> !row_full(#[trigger] g[y]),
    ensures
        spec_full_rows(g, h) == seq![r],
{
    let fr = spec_full_rows(g, h);
    lemma_full_rows_facts(g, h);
    assert(fr.contains(r));
    assert forall|i: int| 0 <= i < fr.len() implies fr[i] == r by {
        assert(fr.contains(fr[i]));
    }
    if fr.len() >= 2 {
        assert(fr[0] < fr[1]);
        assert(false);
    }
    assert(fr =~= seq![r]);
}

/// Every row below `y` survives clearing an empty list, in place.
proof fn lemma_kept_rows_all(g: Seq<Seq<BlockState>>, y: int)
    requires
        0 <= y <= g.len(),
    ensures
        spec_kept_rows(g, Seq::<int>::empty(), y) == g.subrange(0, y),
    decreases y,
{
    if y == 0 {
        assert(spec_kept_rows(g, Seq::<int>::empty(), 0) =~= g.subrange(0, 0));
    } else {
        lemma_kept_rows_all(g, y - 1);
        assert(!Seq::<int>::empty().contains(y - 1));
        assert(spec_kept_rows(g, Seq::<int>::empty(), y) =~= g.subrange(0, y));
    }
}

/// Clearing an empty list of rows is the identity: no rows are removed, no
/// empty rows are backfilled, and the grid is left bit-for-bit unchanged.
pub proof fn lemma_clear_rows_empty_identity(g: Seq<Seq<BlockState>>, w: int)
    ensures
        spec_empty_grid(w, 0) + spec_kept_rows(g, Seq::<int>::empty(), g.len() as int) == g,
{
    lemma_kept_rows_all(g, g.len() as int);
    assert(spec_empty_grid(w, 0) + spec_kept_rows(g, Seq::<int>::empty(), g.len() as int) =~= g);
}

/// A list of indices contains a value exactly when its integer image does.
proof fn lemma_map_contains_int(rows: Seq<usize>, y: usize)
    ensures
        rows.contains(y) <==> rows.map_values(|r: usize| r as int).contains(y as int),
{
    let mapped = rows.map_values(|r: usize| r as int);
    if rows.contains(y) {
        let i = choose|i: int| 0 <= i < rows.len() && rows[i] == y;
        assert(mapped[i] == y as int);
    }
    if mapped.contains(y as int) {
        let i = choose|i: int| 0 <= i < mapped.len() && mapped[i] == y as int;
        assert(rows[i] == y);
    }
}

/// Builds an all-empty row of the given width.
fn empty_row(width: usize) -> (r: Vec<BlockState>)
    ensures
        r@ == spec_empty_row(width as int),
{
    let mut row: Vec<BlockState> = Vec::new();
    let mut x: usize = 0;
    while x < width
        invariant
            0 <= x <= width,
            row@.len() == x,
            forall|i: int| 0 <= i < x ==> (#[trigger] row@[i]) is Empty,
        decreases width - x,
    {
        row.push(BlockState::Empty);
        x = x + 1;
    }
    proof {
        assert(row@ =~= spec_empty_row(width as int));
    }
    row
}

/// Copies a row of cells.
fn copy_row(row: &Vec<BlockState>) -> (r: Vec<BlockState>)
    ensures
        r@ == row@,
{
    let mut out: Vec<BlockState> = Vec::new();
    let mut x: usize = 0;
    while x < row.len()
        invariant
            0 <= x <= row@.len(),
            out@ == row@.subrange(0, x as int),
        decreases row@.len() - x,
    {
        out.push(row[x]);
        proof {
            assert(out@ =~= row@.subrange(0, x as int + 1));
        }
        x = x + 1;
    }
    proof {
        assert(out@ =~= row@);
    }
    out
}

/// Checks whether `rows` lists the value `y`.
fn contains_index(rows: &Vec<usize>, y: usize) -> (b: bool)
    ensures
        b == rows@.contains(y),
{
    let mut i: usize = 0;
    while i < rows.len()
        invariant
            0 <= i <= rows@.len(),
            forall|j: int| 0 <= j < i ==> rows@[j] != y,
        decreases rows@.len() - i,
    {
        if rows[i] == y {
            return true;
        }
        i = i + 1;
    }
    false
}

/// Checks whether a row contains no empty cell.
fn row_is_full(row: &Vec<BlockState>) -> (b: bool)
    ensures
        b == row_full(row@),
{
    let mut x: usize = 0;
    while x < row.len()
        invariant
            0 <= x <= row@.len(),
            forall|i: int| 0 <= i < x ==> !((#[trigger] row@[i]) is Empty),
        decreases row@.len() - x,
    {
        match row[x] {
            BlockState::Empty => {
                return false;
            },
            BlockState::Filled(_) => {
            },
        }
        x = x + 1;
    }
    true
}

/// The ascending list of indices of full rows among the first `h` rows.
pub open spec fn spec_full_rows(g: Seq<Seq<BlockState>>, h: int) -> Seq<int>
    decreases h,
{
    if h <= 0 {
        Seq::empty()
    } else if row_full(g[h - 1]) {
        spec_full_rows(g, h - 1).push(h - 1)
    } else {
        spec_full_rows(g, h - 1)
    }
}

/// The full-row list is strictly ascending, bounded by `h`, and contains
/// exactly the indices of full rows.
pub proof fn lemma_full_rows_facts(g: Seq<Seq<BlockState>>, h: int)
    ensures
        forall|i: int, j: int|
            0 <= i < j < spec_full_rows(g, h).len() ==> #[trigger] spec_full_rows(g, h)[i]
                < #[trigger] spec_full_rows(g, h)[j],
        forall|i: int|
            0 <= i < spec_full_rows(g, h).len() ==> 0 <= #[trigger] spec_full_rows(g, h)[i] < h,
        forall|y: int| spec_full_rows(g, h).contains(y) <==> (0 <= y < h && row_full(g[y])),
    decreases h,
{
    if h > 0 {
        lemma_full_rows_facts(g, h - 1);
        let prev = spec_full_rows(g, h - 1);
        let cur = spec_full_rows(g, h);
        assert forall|y: int| cur.contains(y) <==> (0 <= y < h && row_full(g[y])) by {
            if cur.contains(y) {
                let i = choose|i: int| 0 <= i < cur.len() && cur[i] == y;
                if i < prev.len() {
                    assert(prev.contains(y));
                }
            }
            if 0 <= y < h && row_full(g[y]) {
                if y < h - 1 {
                    assert(prev.contains(y));
                    let i = choose|i: int| 0 <= i < prev.len() && prev[i] == y;
                    assert(cur[i] == y);
                } else {
                    assert(cur[cur.len() - 1] == y);
                }
            }
        }
    }
}

/// A strictly ascending list of indices.
pub open spec fn sorted_unique(listed: Seq<int>) -> bool {
    forall|i: int, j: int| 0 <= i < j < listed.len() ==> listed[i] < listed[j]
}

/// The rows of `g` below index `y` whose index is not listed, in their
/// original order.
pub open spec fn spec_kept_rows(
    g: Seq<Seq<BlockState>>,
    listed: Seq<int>,
    y: int,
) -> Seq<Seq<BlockState>>
    decreases y,
{
    if y <= 0 {
        Seq::empty()
    } else if listed.contains(y - 1) {
        spec_kept_rows(g, listed, y - 1)
    } else {
        spec_kept_rows(g, listed, y - 1).push(g[y - 1])
    }
}

/// How many listed indices lie strictly below `y`.
pub open spec fn count_listed_below(listed: Seq<int>, y: int) -> int
    decreases listed.len(),
{
    if listed.len() == 0 {
        0
    } else {
        (if listed[0] < y {
            1int
        } else {
            0int
        }) + count_listed_below(listed.drop_first(), y)
    }
}

/// A non-empty list contains a value exactly when its head is that value or
/// its tail contains it.
proof fn lemma_contains_drop_first(listed: Seq<int>, v: int)
    requires
        listed.len() > 0,
    ensures
        listed.contains(v) <==> (listed[0] == v || listed.drop_first().contains(v)),
{
    if listed.contains(v) {
        let i = choose|i: int| 0 <= i < listed.len() && listed[i] == v;
        if i > 0 {
            assert(listed.drop_first()[i - 1] == v);
        }
    }
    if listed.drop_first().contains(v) {
        let i = choose|i: int| 0 <= i < listed.drop_first().len() && listed.drop_first()[i] == v;
        assert(listed[i + 1] == v);
    }
}

/// No listed index lies below a bound that is at most every entry.
proof fn lemma_count_below_floor(listed: Seq<int>, y: int)
    requires
        forall|i: int| 0 <= i < listed.len() ==> y <= #[trigger] listed[i],
    ensures
        count_listed_below(listed, y) == 0,
    decreases listed.len(),
{
    if listed.len() > 0 {
        assert(forall|i: int|
            0 <= i < listed.drop_first().len() ==> y <= #[trigger] listed.drop_first()[i]);
        lemma_count_below_floor(listed.drop_first(), y);
    }
}

/// Raising the bound by one adds exactly the index at the old bound, when
/// the list is strictly ascending.
proof fn lemma_count_step(listed: Seq<int>, y: int)
    requires
        sorted_unique(listed),
    ensures
        count_listed_below(listed, y + 1) == count_listed_below(listed, y) + (
        if listed.contains(y) {
            1int
        } else {
            0int
        }),
    decreases listed.len(),
{
    if listed.len() > 0 {
        let rest = listed.drop_first();
        assert(sorted_unique(rest)) by {
            assert(forall|i: int, j: int|
                0 <= i < j < rest.len() ==> rest[i] == listed[i + 1] && rest[j] == listed[j + 1]);
        }
        lemma_count_step(rest, y);
        lemma_contains_drop_first(listed, y);
        if listed[0] == y {
            assert(!rest.contains(y)) by {
                if rest.contains(y) {
                    let i = choose|i: int| 0 <= i < rest.len() && rest[i] == y;
                    assert(listed[0] < listed[i + 1]);
                }
            }
        }
    }
}

/// When every listed index is in [0, h), all of them lie below h.
proof fn lemma_count_below_all(listed: Seq<int>, h: int)
    requires
        forall|i: int| 0 <= i < listed.len() ==> 0 <= #[trigger] listed[i] < h,
    ensures
        count_listed_below(listed, h) == listed.len(),
    decreases listed.len(),
{
    if listed.len() > 0 {
        assert(forall|i: int|
            0 <= i < listed.drop_first().len() ==> 0 <= #[trigger] listed.drop_first()[i] < h);
        lemma_count_below_all(listed.drop_first(), h);
    }
}

/// The kept block has exactly one row for each unlisted index below `y`.
pub proof fn lemma_kept_rows_len(g: Seq<Seq<BlockState>>, listed: Seq<int>, y: int)
    requires
        sorted_unique(listed),
        forall|i: int| 0 <= i < listed.len() ==> 0 <= #[trigger] listed[i],
        0 <= y,
    ensures
        spec_kept_rows(g, listed, y).len() == y - count_listed_below(listed, y),
    decreases y,
{
    if y == 0 {
        lemma_count_below_floor(listed, 0);
    } else {
        lemma_kept_rows_len(g, listed, y - 1);
        lemma_count_step(listed, y - 1);
    }
}

/// Every kept row is one of the rows of `g` below `y`.
pub proof fn lemma_kept_rows_from(g: Seq<Seq<BlockState>>, listed: Seq<int>, y: int, i: int)
    requires
        0 <= i < spec_kept_rows(g, listed, y).len(),
    ensures
        exists|r: int| 0 <= r < y && #[trigger] spec_kept_rows(g, listed, y)[i] == g[r],
    decreases y,
{
    if y > 0 {
        if !listed.contains(y - 1) && i == spec_kept_rows(g, listed, y).len() - 1 {
            assert(spec_kept_rows(g, listed, y)[i] == g[y - 1]);
        } else {
            lemma_kept_rows_from(g, listed, y - 1, i);
            let r = choose|r: int|
                0 <= r < y - 1 && #[trigger] spec_kept_rows(g, listed, y - 1)[i] == g[r];
            assert(spec_kept_rows(g, listed, y)[i] == g[r]);
        }
    }
}

/// Clearing preserves every unlisted row and the relative order of all of
/// them: the row at unlisted index `r` of `g` lands at index `r` minus the
/// number of listed indices below it.
pub proof fn lemma_kept_row_at(g: Seq<Seq<BlockState>>, listed: Seq<int>, y: int, r: int)
    requires
        sorted_unique(listed),
        forall|i: int| 0 <= i < listed.len() ==> 0 <= #[trigger] listed[i],
        0 <= r < y,
        !listed.contains(r),
    ensures
        0 <= r - count_listed_below(listed, r) < spec_kept_rows(g, listed, y).len(),
        spec_kept_rows(g, listed, y)[r - count_listed_below(listed, r)] == g[r],
    decreases y,
{
    lemma_kept_rows_len(g, listed, y);
    if r == y - 1 {
        lemma_kept_rows_len(g, listed, y - 1);
        lemma_count_step(listed, y - 1);
        assert(spec_kept_rows(g, listed, y) == spec_kept_rows(g, listed, y - 1).push(g[y - 1]));
    } else {
        lemma_kept_row_at(g, listed, y - 1, r);
        lemma_count_step(listed, y - 1);
        if !listed.contains(y - 1) {
            assert(spec_kept_rows(g, listed, y) == spec_kept_rows(g, listed, y - 1).push(
                g[y - 1],
            ));
        }
    }
}

/// Whether one of the first `n` entries of `cells` names position (x, y).
pub open spec fn contains_point_upto(cells: Seq<Point2D<i32>>, x: int, y: int, n: int) -> bool {
    exists|i: int| 0 <= i < n && i < cells.len() && (#[trigger] cells[i]).x == x && cells[i].y
        == y
}

/// The grid after filling, with the given colour, every in-bounds cell that
/// the first `n` entries of `cells` name; all other cells are unchanged.
pub open spec fn spec_committed_upto(
    g: Seq<Seq<BlockState>>,
    cells: Seq<Point2D<i32>>,
    color: u8,
    n: int,
) -> Seq<Seq<BlockState>> {
    Seq::new(
        g.len(),
        |y: int|
            Seq::new(
                g[y].len(),
                |x: int|
                    if contains_point_upto(cells, x, y, n) {
                        BlockState::Filled(color)
                    } else {
                        g[y][x]
                    },
            ),
    )
}

/// The grid after filling every in-bounds cell named by `cells`.
pub open spec fn spec_committed(
    g: Seq<Seq<BlockState>>,
    cells: Seq<Point2D<i32>>,
    color: u8,
) -> Seq<Seq<BlockState>> {
    spec_committed_upto(g, cells, color, cells.len() as int)
}

/// Whether some entry of `pts` names position (x, y).
pub open spec fn contains_point_int(pts: Seq<Point2D<int>>, x: int, y: int) -> bool {
    exists|i: int| 0 <= i < pts.len() && (#[trigger] pts[i]).x == x && pts[i].y == y
}

/// The grid after filling every in-bounds cell named by `pts`.
pub open spec fn spec_committed_int(
    g: Seq<Seq<BlockState>>,
    pts: Seq<Point2D<int>>,
    color: u8,
) -> Seq<Seq<BlockState>> {
    Seq::new(
        g.len(),
        |y: int|
            Seq::new(
                g[y].len(),
                |x: int|
                    if contains_point_int(pts, x, y) {
                        BlockState::Filled(color)
                    } else {
                        g[y][x]
                    },
            ),
    )
}

/// Committing a list of executable coordinates fills the same cells as
/// committing its mathematical image.
pub proof fn lemma_committed_agree(
    g: Seq<Seq<BlockState>>,
    cells: Seq<Point2D<i32>>,
    pts: Seq<Point2D<int>>,
    color: u8,
)
    requires
        pts.len() == cells.len(),
        forall|i: int|
            0 <= i < cells.len() ==> (#[trigger] pts[i]).x == cells[i].x && pts[i].y
                == cells[i].y,
    ensures
        spec_committed(g, cells, color) == spec_committed_int(g, pts, color),
{
    assert forall|x: int, y: int|
        contains_point_upto(cells, x, y, cells.len() as int) <==> contains_point_int(
            pts,
            x,
            y,
        ) by {
        if contains_point_upto(cells, x, y, cells.len() as int) {
            let i = choose|i: int|
                0 <= i < cells.len() && (#[trigger] cells[i]).x == x && cells[i].y == y;
            assert(pts[i].x == x && pts[i].y == y);
        }
        if contains_point_int(pts, x, y) {
            let i = choose|i: int| 0 <= i < pts.len() && (#[trigger] pts[i]).x == x && pts[i].y == y;
            assert(cells[i].x as int == x && cells[i].y as int == y);
        }
    }
    assert(spec_committed(g, cells, color) =~~= spec_committed_int(g, pts, color));
}

/// Extending the committed prefix by one entry fills exactly that entry's
/// cell (if any cell at all).
proof fn lemma_committed_upto_step(
    g: Seq<Seq<BlockState>>,
    cells: Seq<Point2D<i32>>,
    color: u8,
    n: int,
)
    requires
        0 <= n < cells.len(),
    ensures
        forall|x: int, y: int|
            contains_point_upto(cells, x, y, n + 1) <==> (contains_point_upto(cells, x, y, n)
                || (cells[n].x == x && cells[n].y == y)),
{
    assert forall|x: int, y: int|
        contains_point_upto(cells, x, y, n + 1) <==> (contains_point_upto(cells, x, y, n)
            || (cells[n].x == x && cells[n].y == y)) by {
        if contains_point_upto(cells, x, y, n + 1) {
            let i = choose|i: int|
                0 <= i < n + 1 && i < cells.len() && (#[trigger] cells[i]).x == x && cells[i].y
                    == y;
            if i < n {
                assert(contains_point_upto(cells, x, y, n));
            }
        }
        if contains_point_upto(cells, x, y, n) {
            assert(contains_point_upto(cells, x, y, n + 1));
        }
        if cells[n].x == x && cells[n].y == y {
            assert(contains_point_upto(cells, x, y, n + 1));
        }
    }
}

} // verus!
