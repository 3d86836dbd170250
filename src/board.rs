use vstd::prelude::*;
use crate::draw::draw_percent;

verus! {

/// The state of one cell.
#[derive(Clone, Copy, Debug, PartialEq, Eq, Structural)]
pub enum CellStatus {
    Alive,
    Dead,
}

impl CellStatus {
    /// The state that a percentage draw `draw` gives under the chance
    /// `chance`: Alive when the draw does not exceed the chance.
    pub fn from_draw(draw: i32, chance: i32) -> (s: CellStatus)
        ensures
            s == (if draw <= chance { CellStatus::Alive } else { CellStatus::Dead }),
    {
        if draw <= chance {
            CellStatus::Alive
        } else {
            CellStatus::Dead
        }
    }

    /// The character that shows this state on a console: `#` or a space.
    pub fn symbol(&self) -> (ch: char)
        ensures
            ch == (if *self == CellStatus::Alive { '#' } else { ' ' }),
    {
        match self {
            CellStatus::Alive => '#',
            CellStatus::Dead => ' ',
        }
    }
}

/// Whether `(r, c)` lies inside `g` and holds a live cell.
pub open spec fn alive_at(g: Seq<Seq<CellStatus>>, r: int, c: int) -> bool {
    0 <= r < g.len() && 0 <= c < g[r].len() && g[r][c] == CellStatus::Alive
}

/// 1 for a live cell inside the grid, 0 otherwise (outside cells do not exist).
pub open spec fn alive_count(g: Seq<Seq<CellStatus>>, r: int, c: int) -> int {
    if alive_at(g, r, c) { 1 } else { 0 }
}

/// The number of live cells among the eight cells around `(r, c)`.
pub open spec fn neighbor_count(g: Seq<Seq<CellStatus>>, r: int, c: int) -> int {
    alive_count(g, r - 1, c - 1) + alive_count(g, r - 1, c) + alive_count(g, r - 1, c + 1)
        + alive_count(g, r, c - 1) + alive_count(g, r, c + 1)
        + alive_count(g, r + 1, c - 1) + alive_count(g, r + 1, c) + alive_count(g, r + 1, c + 1)
}

/// The B3/S23 rule: the next state of a cell in state `s` with `n` live neighbors.
pub open spec fn next_state(s: CellStatus, n: int) -> CellStatus {
    match s {
        CellStatus::Alive => if n == 2 || n == 3 { CellStatus::Alive } else { CellStatus::Dead },
        CellStatus::Dead => if n == 3 { CellStatus::Alive } else { CellStatus::Dead },
    }
}

/// The next generation of `g`, every cell computed from `g` alone.
pub open spec fn step(g: Seq<Seq<CellStatus>>) -> Seq<Seq<CellStatus>> {
    Seq::new(g.len(), |r: int| Seq::new(g[r].len(), |c: int| next_state(g[r][c], neighbor_count(g, r, c))))
}

/// `g` has exactly `h` rows of exactly `w` cells.
pub open spec fn is_grid(g: Seq<Seq<CellStatus>>, w: int, h: int) -> bool {
    g.len() == h && forall|r: int| 0 <= r < h ==> #[trigger] g[r].len() == w
}

/// Every cell of `g` is Dead.
pub open spec fn all_dead(g: Seq<Seq<CellStatus>>) -> bool {
    forall|r: int, c: int| 0 <= r < g.len() && 0 <= c < g[r].len() ==> #[trigger] g[r][c] == CellStatus::Dead
}

/// Every cell of `g` is Alive.
pub open spec fn all_alive(g: Seq<Seq<CellStatus>>) -> bool {
    forall|r: int, c: int| 0 <= r < g.len() && 0 <= c < g[r].len() ==> #[trigger] g[r][c] == CellStatus::Alive
}

/// The term that offset number `k` (row-major over the 3x3 block around
/// `(row, col)`, the center `k == 4` left out) adds to the neighbor count.
spec fn offset_term(g: Seq<Seq<CellStatus>>, row: int, col: int, k: int) -> int {
    if k == 4 { 0 } else { alive_count(g, row + k / 3 - 1, col + k % 3 - 1) }
}

/// The sum of the first `k` offset terms around `(row, col)`.
spec fn offsets_sum(g: Seq<Seq<CellStatus>>, row: int, col: int, k: nat) -> int
    decreases k,
{
    if k == 0 { 0 } else { offsets_sum(g, row, col, (k - 1) as nat) + offset_term(g, row, col, k - 1) }
}

/// Walking all nine offsets gives the neighbor count.
proof fn lemma_offsets_sum_all(g: Seq<Seq<CellStatus>>, row: int, col: int)
    ensures
        offsets_sum(g, row, col, 9) == neighbor_count(g, row, col),
{
    reveal_with_fuel(offsets_sum, 10);
}

/// A fixed-size board of cells, `height` rows of `width` cells each.
pub struct Board {
    width: usize,
    height: usize,
    grid: Vec<Vec<CellStatus>>,
}

impl View for Board {
    type V = Seq<Seq<CellStatus>>;

    closed spec fn view(&self) -> Seq<Seq<CellStatus>> {
        self.grid@.map_values(|row: Vec<CellStatus>| row@)
    }
}

impl Board {
    /// The number of cells in each row.
    pub closed spec fn cols(&self) -> nat {
        self.width as nat
    }

    /// The number of rows.
    pub closed spec fn rows(&self) -> nat {
        self.height as nat
    }

    /// Both dimensions are positive and fit the `i32` coordinates of the
    /// neighbor query, and the cells form a `rows() x cols()` rectangle.
    pub open spec fn wf(&self) -> bool {
        &&& 0 < self.cols() <= i32::MAX
        &&& 0 < self.rows() <= i32::MAX
        &&& is_grid(self@, self.cols() as int, self.rows() as int)
    }

    /// A board of `height` rows of `width` cells, all Dead.
    pub fn new(width: usize, height: usize) -> (b: Board)
        requires
            0 < width <= i32::MAX,
            0 < height <= i32::MAX,
        ensures
            b.wf(),
            b.cols() == width,
            b.rows() == height,
            all_dead(b@),
    {
        let mut grid: Vec<Vec<CellStatus>> = Vec::new();
        for r in 0..height
            invariant
                grid@.len() == r,
                forall|i: int| 0 <= i < r ==> #[trigger] grid@[i]@.len() == width,
                forall|i: int, j: int| 0 <= i < r && 0 <= j < width ==> #[trigger] grid@[i]@[j] == CellStatus::Dead,
        {
            let mut row: Vec<CellStatus> = Vec::new();
            for c in 0..width
                invariant
                    row@.len() == c,
                    forall|j: int| 0 <= j < c ==> #[trigger] row@[j] == CellStatus::Dead,
            {
                row.push(CellStatus::Dead);
            }
            grid.push(row);
        }
        let b = Board { width, height, grid };
        assert(is_grid(b@, width as int, height as int));
        b
    }
    /// The number of live cells among the in-bounds neighbors of `(row, col)`;
    /// positions outside the board count as no neighbor.
    pub fn get_num_alive_neighbors(&self, row: i32, col: i32) -> (n: i32)
        requires
            self.wf(),
            i32::MIN < row < i32::MAX,
            i32::MIN < col < i32::MAX,
        ensures
            n == neighbor_count(self@, row as int, col as int),
            0 <= n <= 8,
    {
        let ghost g = self@;
        let mut num_alive_neighbors: i32 = 0;
        let mut r_off: i32 = -1;
        while r_off < 2
            invariant
                self.wf(),
                g == self@,
                i32::MIN < row < i32::MAX,
                i32::MIN < col < i32::MAX,
                -1 <= r_off <= 2,
                num_alive_neighbors == offsets_sum(g, row as int, col as int, ((r_off + 1) * 3) as nat),
                0 <= num_alive_neighbors <= (r_off + 1) * 3,
            decreases 2 - r_off,
        {
            let mut c_off: i32 = -1;
            while c_off < 2
                invariant
                    self.wf(),
                    g == self@,
                    i32::MIN < row < i32::MAX,
                    i32::MIN < col < i32::MAX,
                    -1 <= r_off < 2,
                    -1 <= c_off <= 2,
                    num_alive_neighbors == offsets_sum(g, row as int, col as int, ((r_off + 1) * 3 + c_off + 1) as nat),
                    0 <= num_alive_neighbors <= (r_off + 1) * 3 + c_off + 1,
                decreases 2 - c_off,
            {
                let ghost k: int = (r_off + 1) * 3 + c_off + 1;
                assert(k / 3 - 1 == r_off && k % 3 - 1 == c_off);
                if !(r_off == 0 && c_off == 0) {
                    let r = row + r_off;
                    let c = col + c_off;
                    if r >= 0 && c >= 0 && (r as usize) < self.height && (c as usize) < self.width {
                        assert(self@[r as int] == self.grid@[r as int]@);
                        match self.grid[r as usize][c as usize] {
                            CellStatus::Alive => num_alive_neighbors += 1,
                            _ => (),
                        }
                    }
                }
                c_off += 1;
            }
            r_off += 1;
        }
        proof {
            lemma_offsets_sum_all(g, row as int, col as int);
        }
        num_alive_neighbors
    }
    /// Replaces the grid with its next generation under the B3/S23 rule; every
    /// new cell is computed from the previous generation only.
    pub fn run_turn(&mut self)
        requires
            old(self).wf(),
        ensures
            final(self).wf(),
            final(self).cols() == old(self).cols(),
            final(self).rows() == old(self).rows(),
            final(self)@ == step(old(self)@),
    {
        let ghost g = self@;
        let mut next_grid: Vec<Vec<CellStatus>> = Vec::new();
        for r in 0..self.height
            invariant
                self.wf(),
                g == self@,
                next_grid@.len() == r,
                forall|i: int| 0 <= i < r ==> #[trigger] next_grid@[i]@ == step(g)[i],
        {
            let mut next_row: Vec<CellStatus> = Vec::new();
            for c in 0..self.width
                invariant
                    self.wf(),
                    g == self@,
                    0 <= r < self.rows(),
                    next_row@.len() == c,
                    forall|j: int| 0 <= j < c ==> #[trigger] next_row@[j] == step(g)[r as int][j],
            {
                assert(self@[r as int] == self.grid@[r as int]@);
                let cell: CellStatus = self.grid[r][c];
                let num_neighbors = self.get_num_alive_neighbors(r as i32, c as i32);
                let mut next: CellStatus = CellStatus::Dead;
                match cell {
                    CellStatus::Alive => {
                        if num_neighbors == 2 || num_neighbors == 3 {
                            next = CellStatus::Alive;
                        }
                    },
                    CellStatus::Dead => {
                        if num_neighbors == 3 {
                            next = CellStatus::Alive;
                        }
                    },
                }
                next_row.push(next);
            }
            assert(next_row@ =~= step(g)[r as int]);
            next_grid.push(next_row);
        }
        self.grid = next_grid;
        assert(self@ =~= step(g));
    }
    /// Sets every cell independently from a uniform draw in `1..=100`: Alive
    /// when the draw is at most `chance`. A chance of 0 or less leaves every
    /// cell Dead, one of 100 or more makes every cell Alive.
    pub fn randomize(&mut self, chance: i32)
        requires
            old(self).wf(),
        ensures
            final(self).wf(),
            final(self).cols() == old(self).cols(),
            final(self).rows() == old(self).rows(),
            forall|r: int, c: int| 0 <= r < final(self).rows() && 0 <= c < final(self).cols() ==>
                (#[trigger] final(self)@[r][c] == CellStatus::Alive ==> chance >= 1)
                && (final(self)@[r][c] == CellStatus::Dead ==> chance < 100),
            chance <= 0 ==> all_dead(final(self)@),
            chance >= 100 ==> all_alive(final(self)@),
    {
        let mut grid: Vec<Vec<CellStatus>> = Vec::new();
        for r in 0..self.height
            invariant
                self.wf(),
                grid@.len() == r,
                forall|i: int| 0 <= i < r ==> #[trigger] grid@[i]@.len() == self.width,
                forall|i: int, j: int| 0 <= i < r && 0 <= j < self.width ==>
                    (#[trigger] grid@[i]@[j] == CellStatus::Alive ==> chance >= 1)
                    && (grid@[i]@[j] == CellStatus::Dead ==> chance < 100),
        {
            let mut row: Vec<CellStatus> = Vec::new();
            for c in 0..self.width
                invariant
                    row@.len() == c,
                    forall|j: int| 0 <= j < c ==>
                        (#[trigger] row@[j] == CellStatus::Alive ==> chance >= 1)
                        && (row@[j] == CellStatus::Dead ==> chance < 100),
            {
                let draw = draw_percent();
                row.push(CellStatus::from_draw(draw, chance));
            }
            grid.push(row);
        }
        self.grid = grid;
    }
    /// The number of cells in each row.
    pub fn width(&self) -> (w: usize)
        ensures
            w == self.cols(),
    {
        self.width
    }

    /// The number of rows.
    pub fn height(&self) -> (h: usize)
        ensures
            h == self.rows(),
    {
        self.height
    }

    /// The state of the cell at `(row, col)`, or `None` outside the board.
    pub fn cell(&self, row: usize, col: usize) -> (s: Option<CellStatus>)
        requires
            self.wf(),
        ensures
            row < self.rows() && col < self.cols() ==> s == Some(self@[row as int][col as int]),
            !(row < self.rows() && col < self.cols()) ==> s is None,
    {
        if row < self.height && col < self.width {
            assert(self@[row as int] == self.grid@[row as int]@);
            Some(self.grid[row][col])
        } else {
            None
        }
    }
    /// A board holding a saved grid, row-major: `Some` exactly when the grid
    /// has at least one row, every row has the same positive number of cells,
    /// and both dimensions fit `i32`.
    pub fn from_cells(cells: Vec<Vec<CellStatus>>) -> (b: Option<Board>)
        ensures
            b is Some <==> (0 < cells@.len() <= i32::MAX && 0 < cells@[0]@.len() <= i32::MAX
                && is_grid(cells@.map_values(|row: Vec<CellStatus>| row@), cells@[0]@.len() as int, cells@.len() as int)),
            b is Some ==> b->0.wf() && b->0@ == cells@.map_values(|row: Vec<CellStatus>| row@)
                && b->0.rows() == cells@.len() && b->0.cols() == cells@[0]@.len(),
    {
        let ghost v = cells@.map_values(|row: Vec<CellStatus>| row@);
        let height = cells.len();
        if height == 0 || height > i32::MAX as usize {
            return None;
        }
        let width = cells[0].len();
        if width == 0 || width > i32::MAX as usize {
            return None;
        }
        for r in 0..height
            invariant
                height == cells@.len(),
                width == cells@[0]@.len(),
                v == cells@.map_values(|row: Vec<CellStatus>| row@),
                forall|i: int| 0 <= i < r ==> #[trigger] v[i].len() == width,
        {
            if cells[r].len() != width {
                assert(v[r as int].len() != width);
                return None;
            }
        }
        let b = Board { width, height, grid: cells };
        assert(is_grid(b@, width as int, height as int));
        Some(b)
    }

    /// A copy of the grid, row-major.
    pub fn cells(&self) -> (cells: Vec<Vec<CellStatus>>)
        requires
            self.wf(),
        ensures
            cells@.map_values(|row: Vec<CellStatus>| row@) == self@,
    {
        let mut out: Vec<Vec<CellStatus>> = Vec::new();
        for r in 0..self.height
            invariant
                self.wf(),
                out@.len() == r,
                forall|i: int| 0 <= i < r ==> #[trigger] out@[i]@ == self@[i],
        {
            assert(self@[r as int] == self.grid@[r as int]@);
            let mut row: Vec<CellStatus> = Vec::new();
            for c in 0..self.width
                invariant
                    self.wf(),
                    0 <= r < self.rows(),
                    self@[r as int] == self.grid@[r as int]@,
                    row@.len() == c,
                    forall|j: int| 0 <= j < c ==> #[trigger] row@[j] == self@[r as int][j],
            {
                row.push(self.grid[r][c]);
            }
            assert(row@ =~= self@[r as int]);
            out.push(row);
        }
        assert(out@.map_values(|row: Vec<CellStatus>| row@) =~= self@);
        out
    }
}

} // verus!
