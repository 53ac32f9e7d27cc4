//! The playing field: a fixed-size occupancy matrix with the collision and
//! line-clear primitives.

use vstd::prelude::*;
use crate::piece::{has_cell, matrix, Piece};

verus! {

/// The number of rows of the playing field.
pub const GRID_HEIGHT: usize = 20;

/// The number of columns of the playing field.
pub const GRID_WIDTH: usize = 10;

/// The cell at `(row, col)` lies inside the matrix.
pub open spec fn in_bounds(cells: Seq<Seq<bool>>, row: int, col: int) -> bool {
    0 <= row < cells.len() && 0 <= col < cells[row].len()
}

/// Every occupied sub-cell of `shape`, anchored with its top-left corner at
/// `(row, col)`, lies inside the grid.
pub open spec fn fits(grid: Seq<Seq<bool>>, shape: Seq<Seq<bool>>, row: int, col: int) -> bool {
    forall|i: int, j: int|
        0 <= i < shape.len() && 0 <= j < shape[i].len() && #[trigger] shape[i][j] ==> in_bounds(
            grid,
            row + i,
            col + j,
        )
}

/// Every occupied sub-cell of `shape`, anchored at `(row, col)`, lies inside
/// the grid on a free cell.
pub open spec fn placeable(grid: Seq<Seq<bool>>, shape: Seq<Seq<bool>>, row: int, col: int) -> bool {
    forall|i: int, j: int|
        0 <= i < shape.len() && 0 <= j < shape[i].len() && #[trigger] shape[i][j] ==> in_bounds(
            grid,
            row + i,
            col + j,
        ) && !grid[row + i][col + j]
}

/// The shape anchored at `(row, col)` has an occupied sub-cell on grid cell
/// `(r, c)`.
pub open spec fn covers(shape: Seq<Seq<bool>>, row: int, col: int, r: int, c: int) -> bool {
    0 <= r - row < shape.len() && 0 <= c - col < shape[r - row].len() && shape[r - row][c - col]
}

/// The grid after the shape has been locked at `(row, col)`: a cell is
/// occupied if it was, or if the shape covers it.
pub open spec fn locked(grid: Seq<Seq<bool>>, shape: Seq<Seq<bool>>, row: int, col: int) -> Seq<
    Seq<bool>,
> {
    Seq::new(
        grid.len(),
        |r: int| Seq::new(grid[r].len(), |c: int| grid[r][c] || covers(shape, row, col, r, c)),
    )
}

/// The landing row of a drop from `(row, col)`: `landing` is not above
/// `row`, every row below `row` down to `landing` is placeable, and the row
/// below `landing` is not.
pub open spec fn is_ghost_row(
    grid: Seq<Seq<bool>>,
    shape: Seq<Seq<bool>>,
    row: int,
    col: int,
    landing: int,
) -> bool {
    &&& row <= landing
    &&& forall|r: int| row < r <= landing ==> #[trigger] placeable(grid, shape, r, col)
    &&& !placeable(grid, shape, landing + 1, col)
}

/// Every cell of the row is occupied.
pub open spec fn row_full(row: Seq<bool>) -> bool {
    forall|c: int| 0 <= c < row.len() ==> #[trigger] row[c]
}

/// The rows that a clear keeps, in their order.
pub open spec fn kept_rows(grid: Seq<Seq<bool>>) -> Seq<Seq<bool>> {
    grid.filter(|row: Seq<bool>| !row_full(row))
}

/// The number of full rows of the grid.
pub open spec fn full_rows(grid: Seq<Seq<bool>>) -> int {
    grid.len() - kept_rows(grid).len()
}

/// A row of `width` free cells.
pub open spec fn empty_row(width: int) -> Seq<bool> {
    Seq::new(width as nat, |c: int| false)
}

/// The grid after its full rows have been removed: the kept rows move down
/// in their order, and free rows fill the top.
pub open spec fn cleared(grid: Seq<Seq<bool>>) -> Seq<Seq<bool>> {
    Seq::new(full_rows(grid) as nat, |r: int| empty_row(grid[0].len() as int)) + kept_rows(grid)
}

/// The points for one clear of `count` rows at level 1.
pub open spec fn row_points(count: int) -> int {
    if count == 1 {
        40
    } else if count == 2 {
        100
    } else if count == 3 {
        300
    } else if count == 4 {
        1200
    } else {
        0
    }
}

/// `value` brought into the range of `i32`.
pub open spec fn clamped(value: int) -> int {
    if value > i32::MAX {
        i32::MAX as int
    } else if value < i32::MIN {
        i32::MIN as int
    } else {
        value
    }
}

/// The occupancy matrix of the playing field. Row 0 is the top; a falling
/// piece moves toward higher rows.
pub struct Grid {
    pub grid: Vec<Vec<bool>>,
}

/// The index `base + delta`, where it lies below `limit`.
fn shifted(base: i32, delta: usize, limit: usize) -> (index: Option<usize>)
    ensures
        index == if 0 <= base + delta < limit {
            Some((base + delta) as usize)
        } else {
            None
        },
{
    if base >= 0 {
        let start = base as usize;
        if delta < limit && start < limit - delta {
            Some(start + delta)
        } else {
            None
        }
    } else {
        let back = (-(base as i64)) as u64;
        if delta as u64 >= back && delta as u64 - back < limit as u64 {
            Some((delta as u64 - back) as usize)
        } else {
            None
        }
    }
}

/// Whether every cell of the row is occupied.
fn is_full(row: &Vec<bool>) -> (full: bool)
    ensures
        full == row_full(row@),
{
    let mut c: usize = 0;
    while c < row.len()
        invariant
            c <= row.len(),
            forall|b: int| 0 <= b < c ==> #[trigger] row@[b],
        decreases row.len() - c,
    {
        if !row[c] {
            return false;
        }
        c += 1;
    }
    true
}

/// `value` brought into the range of `i32`.
pub fn clamp(value: i64) -> (result: i32)
    ensures
        result == clamped(value as int),
{
    if value > i32::MAX as i64 {
        i32::MAX
    } else if value < i32::MIN as i64 {
        i32::MIN
    } else {
        value as i32
    }
}

/// Keeping the rows of a grid that grew by one row keeps what was kept
/// before, and the new row unless it is full.
proof fn lemma_kept_rows_step(grid: Seq<Seq<bool>>, n: int)
    requires
        0 <= n < grid.len(),
    ensures
        kept_rows(grid.take(n + 1)) == if row_full(grid[n]) {
            kept_rows(grid.take(n))
        } else {
            kept_rows(grid.take(n)).push(grid[n])
        },
{
    reveal(Seq::filter);
    assert(grid.take(n + 1).drop_last() =~= grid.take(n));
}

impl Grid {
    /// The grid as a matrix of booleans: `true` marks an occupied cell.
    pub open spec fn cells(&self) -> Seq<Seq<bool>> {
        matrix(self.grid@)
    }

    /// The grid has `GRID_HEIGHT` rows of `GRID_WIDTH` cells each.
    pub open spec fn wf(&self) -> bool {
        &&& self.grid@.len() == GRID_HEIGHT
        &&& forall|r: int| 0 <= r < GRID_HEIGHT ==> (#[trigger] self.grid@[r])@.len() == GRID_WIDTH
    }

    /// An empty grid.
    pub fn new() -> (grid: Self)
        ensures
            grid.wf(),
            forall|r: int, c: int|
                0 <= r < GRID_HEIGHT && 0 <= c < GRID_WIDTH ==> !(#[trigger] grid.cells()[r][c]),
    {
        Grid { grid: vec![vec![false; 10]; 20] }
    }

    /// Whether the piece can stand with its top-left corner at `anchor`,
    /// given as (row, column).
    pub fn is_placeable(&self, piece: &Piece, anchor: (i32, i32)) -> (ok: bool)
        requires
            self.wf(),
        ensures
            ok == placeable(self.cells(), piece.cells(), anchor.0 as int, anchor.1 as int),
    {
        let (x, y) = anchor;
        let mut i: usize = 0;
        while i < piece.shape.len()
            invariant
                self.wf(),
                x == anchor.0 && y == anchor.1,
                i <= piece.shape.len(),
                forall|a: int, b: int|
                    0 <= a < i && 0 <= b < piece.cells()[a].len() && #[trigger] piece.cells()[a][b]
                        ==> in_bounds(self.cells(), x + a, y + b) && !self.cells()[x + a][y + b],
            decreases piece.shape.len() - i,
        {
            let line = &piece.shape[i];
            let mut j: usize = 0;
            while j < line.len()
                invariant
                    self.wf(),
                    x == anchor.0 && y == anchor.1,
                    i < piece.shape.len(),
                    line@ == piece.cells()[i as int],
                    j <= line.len(),
                    forall|b: int|
                        0 <= b < j && #[trigger] line[b] ==> in_bounds(self.cells(), x + i, y + b)
                            && !self.cells()[x + i][y + b],
                decreases line.len() - j,
            {
                if line[j] {
                    let free = match (shifted(x, i, GRID_HEIGHT), shifted(y, j, GRID_WIDTH)) {
                        (Some(r), Some(c)) => !self.grid[r][c],
                        _ => false,
                    };
                    proof {
                        let (r, c) = (x + i, y + j);
                        assert(piece.cells()[i as int][j as int]);
                        assert(self.cells().len() == GRID_HEIGHT);
                        if 0 <= r < GRID_HEIGHT {
                            assert(self.cells()[r] == self.grid@[r]@);
                        }
                        assert(free == (in_bounds(self.cells(), r, c) && !self.cells()[r][c]));
                    }
                    if !free {
                        return false;
                    }
                }
                j += 1;
            }
            i += 1;
        }
        true
    }

    /// Locks the piece into the grid at `anchor`: every cell under an
    /// occupied sub-cell becomes occupied. The occupied sub-cells must lie
    /// inside the grid, as they do wherever the piece is placeable.
    pub fn place_piece(&mut self, piece: &Piece, anchor: (i32, i32))
        requires
            old(self).wf(),
            fits(old(self).cells(), piece.cells(), anchor.0 as int, anchor.1 as int),
        ensures
            final(self).wf(),
            final(self).cells() == locked(
                old(self).cells(),
                piece.cells(),
                anchor.0 as int,
                anchor.1 as int,
            ),
    {
        let (x, y) = anchor;
        let ghost before = self.cells();
        let ghost shape = piece.cells();
        let mut i: usize = 0;
        while i < piece.shape.len()
            invariant
                self.wf(),
                before.len() == GRID_HEIGHT,
                forall|r: int| 0 <= r < GRID_HEIGHT ==> (#[trigger] before[r]).len() == GRID_WIDTH,
                shape == piece.cells(),
                x == anchor.0 && y == anchor.1,
                fits(before, shape, x as int, y as int),
                i <= piece.shape.len(),
                forall|r: int, c: int|
                    0 <= r < GRID_HEIGHT && 0 <= c < GRID_WIDTH ==> #[trigger] self.cells()[r][c] == (
                    before[r][c] || (covers(shape, x as int, y as int, r, c) && r - x < i)),
            decreases piece.shape.len() - i,
        {
            let mut j: usize = 0;
            while j < piece.shape[i].len()
                invariant
                    self.wf(),
                    before.len() == GRID_HEIGHT,
                    forall|r: int|
                        0 <= r < GRID_HEIGHT ==> (#[trigger] before[r]).len() == GRID_WIDTH,
                    shape == piece.cells(),
                    x == anchor.0 && y == anchor.1,
                    fits(before, shape, x as int, y as int),
                    i < piece.shape.len(),
                    j <= piece.shape[i as int].len(),
                    forall|r: int, c: int|
                        0 <= r < GRID_HEIGHT && 0 <= c < GRID_WIDTH ==> #[trigger] self.cells()[r][c]
                            == (before[r][c] || (covers(shape, x as int, y as int, r, c) && (r - x
                            < i || (r - x == i && c - y < j)))),
                decreases piece.shape[i as int].len() - j,
            {
                if piece.shape[i][j] {
                    assert(shape[i as int][j as int]);
                    assert(in_bounds(before, x + i, y + j));
                    let r = (x as i64 + i as i64) as usize;
                    let c = (y as i64 + j as i64) as usize;
                    let ghost prior = self.cells();
                    self.grid[r][c] = true;
                    assert forall|r2: int, c2: int|
                        0 <= r2 < GRID_HEIGHT && 0 <= c2 < GRID_WIDTH implies #[trigger] self.cells()[r2][c2]
                        == (prior[r2][c2] || (r2 == r && c2 == c)) by {}
                }
                j += 1;
            }
            i += 1;
        }
        assert(self.cells() =~~= locked(before, shape, x as int, y as int));
    }

    /// The landing row of a hard drop from `anchor`: the deepest row that
    /// the piece reaches by falling through placeable rows. The piece must
    /// have an occupied sub-cell, since a piece without one falls forever.
    pub fn get_ghost_x(&self, piece: &Piece, anchor: (i32, i32)) -> (landing: i32)
        requires
            self.wf(),
            has_cell(piece.cells()),
        ensures
            is_ghost_row(
                self.cells(),
                piece.cells(),
                anchor.0 as int,
                anchor.1 as int,
                landing as int,
            ),
    {
        let (x, y) = anchor;
        let ghost shape = piece.cells();
        let ghost (ci, cj) = choose|i: int, j: int|
            0 <= i < shape.len() && 0 <= j < shape[i].len() && #[trigger] shape[i][j];
        let mut ghost_x = x;
        while ghost_x < i32::MAX && self.is_placeable(piece, (ghost_x + 1, y))
            invariant
                self.wf(),
                shape == piece.cells(),
                x == anchor.0 && y == anchor.1,
                0 <= ci < shape.len() && 0 <= cj < shape[ci].len() && shape[ci][cj],
                x <= ghost_x,
                forall|r: int|
                    x < r <= ghost_x ==> #[trigger] placeable(self.cells(), shape, r, y as int),
            decreases
                    if ghost_x < GRID_HEIGHT {
                        GRID_HEIGHT - ghost_x
                    } else {
                        0
                    },
        {
            assert(in_bounds(self.cells(), ghost_x + 1 + ci, y + cj));
            ghost_x += 1;
        }
        proof {
            if ghost_x == i32::MAX {
                assert(!in_bounds(self.cells(), ghost_x + 1 + ci, y + cj));
            }
        }
        ghost_x
    }

    /// Removes every full row in one pass. The rows that stay move down in
    /// their order and free rows fill the top. Returns the number of rows
    /// removed and the points they are worth at `level`: 40, 100, 300 or
    /// 1200 times the level for one to four rows, nothing otherwise, held
    /// to the range of `i32`.
    pub fn delete_full_rows(&mut self, level: i32) -> (result: (i32, i32))
        requires
            old(self).wf(),
        ensures
            final(self).wf(),
            final(self).cells() == cleared(old(self).cells()),
            result.0 == full_rows(old(self).cells()),
            result.1 == clamped(row_points(result.0 as int) * level),
    {
        let ghost before = self.cells();
        let mut kept: Vec<Vec<bool>> = Vec::new();
        let mut i: usize = 0;
        while i < GRID_HEIGHT
            invariant
                self.wf(),
                before == self.cells(),
                i <= GRID_HEIGHT,
                kept.len() <= i,
                matrix(kept@) == kept_rows(before.take(i as int)),
                forall|k: int| 0 <= k < kept.len() ==> (#[trigger] kept@[k])@.len() == GRID_WIDTH,
            decreases GRID_HEIGHT - i,
        {
            proof {
                lemma_kept_rows_step(before, i as int);
            }
            if !is_full(&self.grid[i]) {
                let row = self.grid[i].clone();
                assert(row@ =~= self.grid@[i as int]@);
                kept.push(row);
                assert(matrix(kept@) =~= kept_rows(before.take(i as int)).push(before[i as int]));
            }
            i += 1;
        }
        assert(before.take(GRID_HEIGHT as int) =~= before);
        let lines: usize = GRID_HEIGHT - kept.len();
        let mut rows: Vec<Vec<bool>> = Vec::new();
        let mut k: usize = 0;
        while k < lines
            invariant
                k <= lines,
                rows.len() == k,
                forall|r: int| 0 <= r < k ==> (#[trigger] rows@[r])@ == empty_row(GRID_WIDTH as int),
            decreases lines - k,
        {
            let row = vec![false; GRID_WIDTH];
            assert(row@ =~= empty_row(GRID_WIDTH as int));
            rows.push(row);
            k += 1;
        }
        rows.append(&mut kept);
        self.grid = rows;
        assert(self.cells() =~= cleared(before));
        let points: i64 = match lines {
            1 => 40,
            2 => 100,
            3 => 300,
            4 => 1200,
            _ => 0,
        };
        assert(-1200 * 0x8000_0000 <= points * level <= 1200 * 0x8000_0000) by (nonlinear_arith)
            requires
                0 <= points <= 1200,
                -0x8000_0000 <= level < 0x8000_0000,
        ;
        (lines as i32, clamp(points * (level as i64)))
    }
}

/// The number of kept rows above row `n`.
pub open spec fn kept_above(grid: Seq<Seq<bool>>, n: int) -> int {
    kept_rows(grid.take(n)).len() as int
}

/// The rows kept of the first `n` rows open the rows kept of the first `m`,
/// for `n <= m`.
proof fn lemma_kept_rows_prefix(grid: Seq<Seq<bool>>, n: int, m: int)
    requires
        0 <= n <= m <= grid.len(),
    ensures
        kept_above(grid, n) <= kept_above(grid, m) <= m,
        kept_rows(grid.take(m)).take(kept_above(grid, n)) == kept_rows(grid.take(n)),
        forall|k: int|
            0 <= k < kept_above(grid, m) ==> !row_full(#[trigger] kept_rows(grid.take(m))[k]) && exists|
                i: int,
            | 0 <= i < m && grid[i] == kept_rows(grid.take(m))[k],
    decreases m,
{
    if m == 0 {
        reveal(Seq::filter);
        assert(kept_rows(grid.take(0)).len() == 0);
        assert(kept_rows(grid.take(m)).take(0) =~= kept_rows(grid.take(n)));
    } else {
        lemma_kept_rows_step(grid, m - 1);
        let short = kept_rows(grid.take(m - 1));
        let long = kept_rows(grid.take(m));
        if n < m {
            lemma_kept_rows_prefix(grid, n, m - 1);
            assert(long.take(kept_above(grid, n)) =~= short.take(kept_above(grid, n)));
        } else {
            lemma_kept_rows_prefix(grid, m - 1, m - 1);
            assert(long.take(kept_above(grid, n)) =~= long);
        }
        assert forall|k: int| 0 <= k < long.len() implies !row_full(#[trigger] long[k]) && exists|
            i: int,
        | 0 <= i < m && grid[i] == long[k] by {
            if k < short.len() {
                assert(long[k] == short[k]);
                let i = choose|i: int| 0 <= i < m - 1 && grid[i] == short[k];
                assert(0 <= i < m && grid[i] == long[k]);
            } else {
                assert(long[k] == grid[m - 1]);
            }
        }
    }
}

/// A clear keeps the size of the grid: as many free rows enter at the top
/// as full rows leave, and every kept row keeps its width. No row of the
/// cleared grid is full.
pub proof fn lemma_cleared_size(grid: Seq<Seq<bool>>, width: int)
    requires
        grid.len() >= 1,
        width >= 1,
        forall|r: int| 0 <= r < grid.len() ==> (#[trigger] grid[r]).len() == width,
    ensures
        0 <= full_rows(grid) <= grid.len(),
        cleared(grid).len() == grid.len(),
        forall|r: int| 0 <= r < grid.len() ==> (#[trigger] cleared(grid)[r]).len() == width,
        forall|r: int| 0 <= r < full_rows(grid) ==> #[trigger] cleared(grid)[r] == empty_row(width),
        forall|r: int| 0 <= r < grid.len() ==> !row_full(#[trigger] cleared(grid)[r]),
{
    let n = grid.len() as int;
    lemma_kept_rows_prefix(grid, n, n);
    assert(grid.take(n) =~= grid);
    let kept = kept_rows(grid);
    let count = full_rows(grid);
    assert forall|r: int| 0 <= r < n implies (#[trigger] cleared(grid)[r]).len() == width
        && !row_full(cleared(grid)[r]) by {
        if r < count {
            assert(cleared(grid)[r] == empty_row(width));
            assert(!empty_row(width)[0]);
        } else {
            assert(cleared(grid)[r] == kept[r - count]);
            let i = choose|i: int| 0 <= i < n && grid[i] == kept[r - count];
            assert(grid[i].len() == width);
        }
    }
}

/// A clear keeps the rows that are not full in their order: such a row
/// lands below the free rows that entered, under exactly the kept rows that
/// were above it. Of two kept rows the upper one stays the upper one.
pub proof fn lemma_clear_keeps_order(grid: Seq<Seq<bool>>, i: int, j: int)
    requires
        0 <= i <= j < grid.len(),
        !row_full(grid[i]),
    ensures
        0 <= full_rows(grid) + kept_above(grid, i) < cleared(grid).len(),
        cleared(grid)[full_rows(grid) + kept_above(grid, i)] == grid[i],
        i < j ==> kept_above(grid, i) < kept_above(grid, j),
{
    let n = grid.len() as int;
    assert(grid.take(n) =~= grid);
    lemma_kept_rows_step(grid, i);
    lemma_kept_rows_prefix(grid, i + 1, n);
    lemma_kept_rows_prefix(grid, i, i + 1);
    let kept = kept_rows(grid);
    assert(kept.take(kept_above(grid, i + 1))[kept_above(grid, i)] == grid[i]);
    if i < j {
        lemma_kept_rows_prefix(grid, i + 1, j);
    }
}

/// Within about 1.7 million levels either way the points of a clear are
/// exact: 0, 40, 100, 300 or 1200 times the level.
pub proof fn lemma_points_exact(count: int, level: int)
    requires
        -1_789_569 <= level <= 1_789_569,
    ensures
        clamped(row_points(count) * level) == row_points(count) * level,
        count == 0 ==> row_points(count) * level == 0,
        count == 1 ==> row_points(count) * level == 40 * level,
        count == 2 ==> row_points(count) * level == 100 * level,
        count == 3 ==> row_points(count) * level == 300 * level,
        count == 4 ==> row_points(count) * level == 1200 * level,
{
}

/// Locking a piece keeps the size of the grid.
pub proof fn lemma_locked_size(grid: Seq<Seq<bool>>, shape: Seq<Seq<bool>>, row: int, col: int)
    ensures
        locked(grid, shape, row, col).len() == grid.len(),
        forall|r: int|
            0 <= r < grid.len() ==> (#[trigger] locked(grid, shape, row, col)[r]).len()
                == grid[r].len(),
{
}

/// The rows among the first `n` that a shape of `height` rows anchored at
/// row `row` touches.
pub open spec fn touched_above(row: int, height: int, n: int) -> int {
    let first = if row > 0 {
        row
    } else {
        0
    };
    let end = if row + height < n {
        row + height
    } else {
        n
    };
    if end > first {
        end - first
    } else {
        0
    }
}

/// Among the first `n` rows of a grid without full rows, locking a shape
/// fills at most the rows that the shape touches.
proof fn lemma_locked_full_rows_above(
    grid: Seq<Seq<bool>>,
    shape: Seq<Seq<bool>>,
    row: int,
    col: int,
    n: int,
)
    requires
        0 <= n <= grid.len(),
        forall|r: int| 0 <= r < grid.len() ==> !row_full(#[trigger] grid[r]),
    ensures
        n - kept_above(locked(grid, shape, row, col), n) <= touched_above(
            row,
            shape.len() as int,
            n,
        ),
    decreases n,
{
    let after = locked(grid, shape, row, col);
    if n == 0 {
        lemma_kept_rows_prefix(after, 0, 0);
    } else {
        lemma_locked_full_rows_above(grid, shape, row, col, n - 1);
        lemma_kept_rows_step(after, n - 1);
        if row_full(after[n - 1]) {
            let c = choose|c: int| 0 <= c < grid[n - 1].len() && !#[trigger] grid[n - 1][c];
            assert(after[n - 1][c]);
            assert(covers(shape, row, col, n - 1, c));
        }
    }
}

/// Locking a shape into a grid without full rows fills at most as many
/// rows as the shape has.
pub proof fn lemma_locked_full_rows(grid: Seq<Seq<bool>>, shape: Seq<Seq<bool>>, row: int, col: int)
    requires
        forall|r: int| 0 <= r < grid.len() ==> !row_full(#[trigger] grid[r]),
    ensures
        0 <= full_rows(locked(grid, shape, row, col)) <= shape.len(),
{
    let after = locked(grid, shape, row, col);
    let n = grid.len() as int;
    lemma_locked_full_rows_above(grid, shape, row, col, n);
    lemma_kept_rows_prefix(after, n, n);
    assert(after.take(n) =~= after);
}

/// A piece with an occupied sub-cell has a landing row on a grid, from
/// every anchor.
pub proof fn lemma_ghost_row_exists(grid: Seq<Seq<bool>>, shape: Seq<Seq<bool>>, row: int, col: int)
    requires
        has_cell(shape),
    ensures
        exists|landing: int| is_ghost_row(grid, shape, row, col, landing),
{
    lemma_landing_below(grid, shape, row, col, row);
}

proof fn lemma_landing_below(
    grid: Seq<Seq<bool>>,
    shape: Seq<Seq<bool>>,
    row: int,
    col: int,
    reached: int,
)
    requires
        has_cell(shape),
        row <= reached,
        forall|r: int| row < r <= reached ==> #[trigger] placeable(grid, shape, r, col),
    ensures
        exists|landing: int| is_ghost_row(grid, shape, row, col, landing),
    decreases
            if reached < grid.len() {
                grid.len() - reached
            } else {
                0
            },
{
    if placeable(grid, shape, reached + 1, col) {
        let (i, j) = choose|i: int, j: int|
            0 <= i < shape.len() && 0 <= j < shape[i].len() && #[trigger] shape[i][j];
        assert(in_bounds(grid, reached + 1 + i, col + j));
        lemma_landing_below(grid, shape, row, col, reached + 1);
    } else {
        assert(is_ghost_row(grid, shape, row, col, reached));
    }
}

} // verus!
