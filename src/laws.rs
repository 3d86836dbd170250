use vstd::prelude::*;
use crate::board::{alive_at, all_dead, is_grid, neighbor_count, step, Board, CellStatus};

verus! {

/// Any position, inside the board or not, has between 0 and 8 live neighbors.
pub proof fn law_neighbor_count_range(g: Seq<Seq<CellStatus>>, r: int, c: int)
    ensures
        0 <= neighbor_count(g, r, c) <= 8,
{
}

/// The grid does not wrap: a corner cell has at most 3 live neighbors and any
/// other cell on an edge at most 5.
pub proof fn law_corner_and_edge_counts(g: Seq<Seq<CellStatus>>, w: int, h: int, r: int, c: int)
    requires
        is_grid(g, w, h),
        0 <= r < h,
        0 <= c < w,
    ensures
        (r == 0 || r == h - 1) && (c == 0 || c == w - 1) ==> neighbor_count(g, r, c) <= 3,
        r == 0 || r == h - 1 || c == 0 || c == w - 1 ==> neighbor_count(g, r, c) <= 5,
{
}

/// A live cell stays alive in the next generation exactly when it has 2 or 3
/// live neighbors; with 0, 1 or 4 and more it dies.
pub proof fn law_survival(g: Seq<Seq<CellStatus>>, w: int, h: int, r: int, c: int)
    requires
        is_grid(g, w, h),
        0 <= r < h,
        0 <= c < w,
        g[r][c] == CellStatus::Alive,
    ensures
        neighbor_count(g, r, c) == 2 || neighbor_count(g, r, c) == 3 ==> step(g)[r][c] == CellStatus::Alive,
        !(neighbor_count(g, r, c) == 2 || neighbor_count(g, r, c) == 3) ==> step(g)[r][c] == CellStatus::Dead,
{
}

/// A dead cell comes alive in the next generation exactly when it has 3 live
/// neighbors; with any other count it stays dead.
pub proof fn law_birth(g: Seq<Seq<CellStatus>>, w: int, h: int, r: int, c: int)
    requires
        is_grid(g, w, h),
        0 <= r < h,
        0 <= c < w,
        g[r][c] == CellStatus::Dead,
    ensures
        neighbor_count(g, r, c) == 3 ==> step(g)[r][c] == CellStatus::Alive,
        neighbor_count(g, r, c) != 3 ==> step(g)[r][c] == CellStatus::Dead,
{
}

/// Advancing depends on the previous grid alone: two boards that held the same
/// grid hold the same grid after each has advanced once.
pub proof fn law_advance_deterministic(before1: Board, before2: Board, after1: Board, after2: Board)
    requires
        before1.wf(),
        before2.wf(),
        before1@ == before2@,
        after1@ == step(before1@),
        after2@ == step(before2@),
    ensures
        after1@ == after2@,
{
}

/// The grid after `n` generations starting from `g`.
pub open spec fn generations(g: Seq<Seq<CellStatus>>, n: nat) -> Seq<Seq<CellStatus>>
    decreases n,
{
    if n == 0 { g } else { step(generations(g, (n - 1) as nat)) }
}

/// One generation keeps an all-Dead grid all-Dead.
pub proof fn law_dead_grid_step(g: Seq<Seq<CellStatus>>)
    requires
        all_dead(g),
    ensures
        all_dead(step(g)),
{
    assert forall|r: int, c: int| 0 <= r < step(g).len() && 0 <= c < step(g)[r].len() implies
        #[trigger] step(g)[r][c] == CellStatus::Dead by {
        assert(!alive_at(g, r - 1, c - 1) && !alive_at(g, r - 1, c) && !alive_at(g, r - 1, c + 1));
        assert(!alive_at(g, r, c - 1) && !alive_at(g, r, c + 1));
        assert(!alive_at(g, r + 1, c - 1) && !alive_at(g, r + 1, c) && !alive_at(g, r + 1, c + 1));
    }
}

/// An all-Dead grid stays all-Dead after any number of generations.
pub proof fn law_dead_grid_stays_dead(g: Seq<Seq<CellStatus>>, n: nat)
    requires
        all_dead(g),
    ensures
        all_dead(generations(g, n)),
    decreases n,
{
    if n > 0 {
        law_dead_grid_stays_dead(g, (n - 1) as nat);
        law_dead_grid_step(generations(g, (n - 1) as nat));
    }
}

/// A `w x h` grid whose only live cells are three in a line centred on
/// `(r, c)`: a row when `horizontal`, else a column.
pub open spec fn blinker(w: int, h: int, r: int, c: int, horizontal: bool) -> Seq<Seq<CellStatus>> {
    Seq::new(h as nat, |i: int| Seq::new(w as nat, |j: int|
        if (horizontal && i == r && c - 1 <= j <= c + 1) || (!horizontal && j == c && r - 1 <= i <= r + 1) {
            CellStatus::Alive
        } else {
            CellStatus::Dead
        }))
}

/// One generation turns a blinker into the other orientation, provided the
/// three-cell line and its turned form both fit on the grid.
pub proof fn law_blinker_flips(w: int, h: int, r: int, c: int, horizontal: bool)
    requires
        1 <= r <= h - 2,
        1 <= c <= w - 2,
    ensures
        step(blinker(w, h, r, c, horizontal)) == blinker(w, h, r, c, !horizontal),
{
    let g = blinker(w, h, r, c, horizontal);
    let e = blinker(w, h, r, c, !horizontal);
    assert forall|i: int| 0 <= i < h implies #[trigger] step(g)[i] =~= e[i] by {
        assert forall|j: int| 0 <= j < w implies step(g)[i][j] == e[i][j] by {}
    }
    assert(step(g) =~= e);
}

/// The blinker oscillates with period 2: two generations bring it back.
pub proof fn law_blinker_period_two(w: int, h: int, r: int, c: int)
    requires
        1 <= r <= h - 2,
        1 <= c <= w - 2,
    ensures
        generations(blinker(w, h, r, c, true), 1) == blinker(w, h, r, c, false),
        generations(blinker(w, h, r, c, true), 2) == blinker(w, h, r, c, true),
{
    reveal_with_fuel(generations, 3);
    law_blinker_flips(w, h, r, c, true);
    law_blinker_flips(w, h, r, c, false);
}

} // verus!
