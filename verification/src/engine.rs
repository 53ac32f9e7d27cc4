//! The game engine: the authoritative copy of one game's state, advanced
//! one action at a time.
//!
//! Every move and rotation is checked before it is applied; a request that
//! fails the check leaves the state as it is. Score, level and line counts
//! are held to the range of `i32`, and a cursor never leaves that range.

use vstd::prelude::*;
use crate::action::{Action, ActionType};
use crate::grid::{
    clamp, clamped, cleared, fits, full_rows, in_bounds, is_ghost_row, lemma_cleared_size,
    lemma_ghost_row_exists, lemma_locked_full_rows, lemma_locked_size, locked, placeable,
    row_full, row_points, Grid, GRID_HEIGHT, GRID_WIDTH,
};
use crate::piece::{
    canonical_cells, canonical_color, has_cell, is_rectangular, rotated, Piece, PieceType,
};

verus! {

/// The row at which a new piece appears.
pub const SPAWN_ROW: i32 = 0;

/// The column at which a new piece appears.
pub const SPAWN_COL: i32 = 4;

/// The state of a game as mathematical values.
pub struct EngineState {
    /// The occupancy matrix.
    pub grid: Seq<Seq<bool>>,
    /// The shape of the current piece.
    pub shape: Seq<Seq<bool>>,
    /// The colour name of the current piece.
    pub color: Seq<char>,
    pub score: int,
    pub level: int,
    pub lines: int,
    /// The row of the cursor, the anchor of the current piece.
    pub row: int,
    /// The column of the cursor.
    pub col: int,
}

/// The landing row of a hard drop in state `s`.
pub open spec fn ghost_row(s: EngineState) -> int {
    choose|landing: int| is_ghost_row(s.grid, s.shape, s.row, s.col, landing)
}

/// The state after the piece with wire code `code` has appeared at the spawn
/// anchor.
pub open spec fn spawned(s: EngineState, code: u8) -> EngineState {
    EngineState {
        shape: canonical_cells(code),
        color: canonical_color(code),
        row: SPAWN_ROW as int,
        col: SPAWN_COL as int,
        ..s
    }
}

/// The state after a request to move the cursor by `(drow, dcol)`: the move
/// is made where the piece is placeable at the target, and refused
/// otherwise.
pub open spec fn moved(s: EngineState, drow: int, dcol: int) -> EngineState {
    let (row, col) = (s.row + drow, s.col + dcol);
    if placeable(s.grid, s.shape, row, col) && i32::MIN <= row <= i32::MAX && i32::MIN <= col
        <= i32::MAX {
        EngineState { row, col, ..s }
    } else {
        s
    }
}

/// The state after a request to rotate: the turned shape is taken where it
/// is placeable at the cursor, and refused otherwise.
pub open spec fn turned(s: EngineState) -> EngineState {
    if placeable(s.grid, rotated(s.shape), s.row, s.col) {
        EngineState { shape: rotated(s.shape), ..s }
    } else {
        s
    }
}

/// The state after a hard drop: the piece lands on its ghost row, and each
/// row fallen is worth ten times the level. A piece without an occupied
/// sub-cell has no landing row and stays.
pub open spec fn dropped(s: EngineState) -> EngineState {
    if has_cell(s.shape) {
        let landing = ghost_row(s);
        EngineState {
            score: clamped(s.score + (landing - s.row) * (s.level * 10)),
            row: landing,
            ..s
        }
    } else {
        s
    }
}

/// The state after the current piece has been locked at the cursor, the
/// full rows cleared and scored, and the piece with wire code `code`
/// spawned. The level rises by one when the line count passes a multiple of
/// ten.
pub open spec fn changed(s: EngineState, code: u8) -> EngineState {
    let grid = locked(s.grid, s.shape, s.row, s.col);
    let count = full_rows(grid);
    spawned(
        EngineState {
            grid: cleared(grid),
            score: clamped(s.score + clamped(row_points(count) * s.level)),
            level: if s.lines % 10 > (s.lines + count) % 10 {
                clamped(s.level + 1)
            } else {
                s.level
            },
            lines: clamped(s.lines + count),
            ..s
        },
        code,
    )
}

/// The state after one action.
pub open spec fn step(s: EngineState, action: Action) -> EngineState {
    match action.action_type {
        ActionType::Start => spawned(s, action.piece.code()),
        ActionType::Left => moved(s, 0, -1),
        ActionType::Right => moved(s, 0, 1),
        ActionType::Fall => moved(s, 1, 0),
        ActionType::HardDrop => dropped(s),
        ActionType::Rotate => turned(s),
        ActionType::ChangePiece => changed(s, action.piece.code()),
        ActionType::End => s,
        ActionType::Ping => s,
    }
}

/// What one action yields: the terminal result `(score, level, lines)` for
/// `End`, nothing for every other action.
pub open spec fn outcome(s: EngineState, action: Action) -> Option<(i32, i32, i32)> {
    if action.action_type == ActionType::End {
        Some((s.score as i32, s.level as i32, s.lines as i32))
    } else {
        None
    }
}

/// The state of a fresh game: an empty grid, the yellow piece at the spawn
/// anchor, no score, level one.
pub open spec fn initial_state() -> EngineState {
    EngineState {
        grid: Seq::new(GRID_HEIGHT as nat, |r: int| Seq::new(GRID_WIDTH as nat, |c: int| false)),
        shape: canonical_cells(2),
        color: canonical_color(2),
        score: 0,
        level: 1,
        lines: 0,
        row: SPAWN_ROW as int,
        col: SPAWN_COL as int,
    }
}

/// A state that an engine can be in: the grid has its fixed size and no
/// full row, the shape is a rectangle of at most four by four, the occupied
/// sub-cells of the piece lie inside the grid, and the counters are those
/// of an `i32`, the line count not negative.
pub open spec fn valid_state(s: EngineState) -> bool {
    &&& s.grid.len() == GRID_HEIGHT
    &&& forall|r: int| 0 <= r < GRID_HEIGHT ==> (#[trigger] s.grid[r]).len() == GRID_WIDTH
    &&& forall|r: int| 0 <= r < GRID_HEIGHT ==> !row_full(#[trigger] s.grid[r])
    &&& is_rectangular(s.shape)
    &&& s.shape.len() <= 4
    &&& s.shape[0].len() <= 4
    &&& fits(s.grid, s.shape, s.row, s.col)
    &&& i32::MIN <= s.score <= i32::MAX
    &&& i32::MIN <= s.level <= i32::MAX
    &&& 0 <= s.lines <= i32::MAX
    &&& i32::MIN <= s.row <= i32::MAX
    &&& i32::MIN <= s.col <= i32::MAX
}

/// A piece with an occupied sub-cell has at most one landing row.
pub proof fn lemma_ghost_row_unique(
    grid: Seq<Seq<bool>>,
    shape: Seq<Seq<bool>>,
    row: int,
    col: int,
    a: int,
    b: int,
)
    requires
        is_ghost_row(grid, shape, row, col, a),
        is_ghost_row(grid, shape, row, col, b),
    ensures
        a == b,
{
    if a < b {
        assert(placeable(grid, shape, a + 1, col));
    } else if b < a {
        assert(placeable(grid, shape, b + 1, col));
    }
}

/// A drop is never longer than the grid is high.
pub proof fn lemma_drop_distance(
    grid: Seq<Seq<bool>>,
    shape: Seq<Seq<bool>>,
    row: int,
    col: int,
    landing: int,
)
    requires
        has_cell(shape),
        is_ghost_row(grid, shape, row, col, landing),
    ensures
        0 <= landing - row <= grid.len(),
{
    if landing > row {
        let (i, j) = choose|i: int, j: int|
            0 <= i < shape.len() && 0 <= j < shape[i].len() && #[trigger] shape[i][j];
        assert(placeable(grid, shape, row + 1, col));
        assert(placeable(grid, shape, landing, col));
        assert(in_bounds(grid, row + 1 + i, col + j));
        assert(in_bounds(grid, landing + i, col + j));
    }
}

/// The game engine of one session.
pub struct GameEngine {
    grid: Grid,
    current_piece: Piece,
    score: i32,
    level: i32,
    lines: i32,
    /// The row of the cursor.
    x: i32,
    /// The column of the cursor.
    y: i32,
}

impl View for GameEngine {
    type V = EngineState;

    closed spec fn view(&self) -> EngineState {
        EngineState {
            grid: self.grid.cells(),
            shape: self.current_piece.cells(),
            color: self.current_piece.color@,
            score: self.score as int,
            level: self.level as int,
            lines: self.lines as int,
            row: self.x as int,
            col: self.y as int,
        }
    }
}

impl GameEngine {
    /// The invariant of the engine: its state is valid.
    pub closed spec fn wf(&self) -> bool {
        &&& self.grid.wf()
        &&& valid_state(self@)
    }

    /// The state of a well-formed engine is valid.
    pub proof fn lemma_wf_valid(&self)
        requires
            self.wf(),
        ensures
            valid_state(self@),
    {
    }

    /// A fresh engine.
    pub fn new() -> (engine: Self)
        ensures
            engine.wf(),
            engine@ == initial_state(),
    {
        let engine = GameEngine {
            grid: Grid::new(),
            current_piece: Piece::from_u8(2),
            score: 0,
            level: 1,
            lines: 0,
            x: SPAWN_ROW,
            y: SPAWN_COL,
        };
        proof {
            assert(engine@.grid =~~= initial_state().grid);
            lemma_initial_valid();
        }
        engine
    }

    /// The score so far.
    pub fn score(&self) -> (score: i32)
        ensures
            score == self@.score,
    {
        self.score
    }

    /// The level reached.
    pub fn level(&self) -> (level: i32)
        ensures
            level == self@.level,
    {
        self.level
    }

    /// The number of lines cleared so far.
    pub fn lines(&self) -> (lines: i32)
        ensures
            lines == self@.lines,
    {
        self.lines
    }

    /// The cursor as (row, column).
    pub fn cursor(&self) -> (cursor: (i32, i32))
        ensures
            cursor.0 == self@.row,
            cursor.1 == self@.col,
    {
        (self.x, self.y)
    }

    /// The playing field.
    pub fn grid(&self) -> (grid: &Grid)
        ensures
            grid.cells() == self@.grid,
            self.wf() ==> grid.wf(),
    {
        &self.grid
    }

    /// The current piece.
    pub fn current_piece(&self) -> (piece: &Piece)
        ensures
            piece.cells() == self@.shape,
            piece.color@ == self@.color,
    {
        &self.current_piece
    }

    /// Applies one action to the game and returns the terminal result when
    /// the action is `End`.
    pub fn handle_action(&mut self, action: &Action) -> (result: Option<(i32, i32, i32)>)
        requires
            old(self).wf(),
        ensures
            final(self).wf(),
            final(self)@ == step(old(self)@, *action),
            result == outcome(old(self)@, *action),
    {
        match action.action_type {
            ActionType::Start => {
                self.start(action.piece);
            },
            ActionType::Left => {
                if self.y > i32::MIN && self.grid.is_placeable(
                    &self.current_piece,
                    (self.x, self.y - 1),
                ) {
                    self.move_left();
                }
            },
            ActionType::Right => {
                if self.y < i32::MAX && self.grid.is_placeable(
                    &self.current_piece,
                    (self.x, self.y + 1),
                ) {
                    self.move_right();
                }
            },
            ActionType::Fall => {
                if self.x < i32::MAX && self.grid.is_placeable(
                    &self.current_piece,
                    (self.x + 1, self.y),
                ) {
                    self.move_down();
                }
            },
            ActionType::HardDrop => {
                if occupied(&self.current_piece) {
                    let ghost_x = self.grid.get_ghost_x(&self.current_piece, (self.x, self.y));
                    self.hard_drop(ghost_x);
                }
            },
            ActionType::Rotate => {
                self.rotate();
            },
            ActionType::ChangePiece => {
                self.change_piece(action.piece);
            },
            ActionType::End => {
                return Some(self.end());
            },
            ActionType::Ping => {},
        }
        None
    }

    fn start(&mut self, piece: PieceType)
        requires
            old(self).wf(),
        ensures
            final(self).wf(),
            final(self)@ == spawned(old(self)@, piece.code()),
    {
        self.current_piece = Piece::from_u8(piece.to_u8());
        self.x = SPAWN_ROW;
        self.y = SPAWN_COL;
        proof {
            lemma_spawn_fits(self@.grid, piece.code());
        }
    }

    fn move_left(&mut self)
        requires
            old(self).wf(),
            old(self).y > i32::MIN,
            placeable(old(self)@.grid, old(self)@.shape, old(self)@.row, old(self)@.col - 1),
        ensures
            final(self).wf(),
            final(self)@ == moved(old(self)@, 0, -1),
    {
        self.y -= 1;
    }

    fn move_right(&mut self)
        requires
            old(self).wf(),
            old(self).y < i32::MAX,
            placeable(old(self)@.grid, old(self)@.shape, old(self)@.row, old(self)@.col + 1),
        ensures
            final(self).wf(),
            final(self)@ == moved(old(self)@, 0, 1),
    {
        self.y += 1;
    }

    fn move_down(&mut self)
        requires
            old(self).wf(),
            old(self).x < i32::MAX,
            placeable(old(self)@.grid, old(self)@.shape, old(self)@.row + 1, old(self)@.col),
        ensures
            final(self).wf(),
            final(self)@ == moved(old(self)@, 1, 0),
    {
        self.x += 1;
    }

    fn rotate(&mut self)
        requires
            old(self).wf(),
        ensures
            final(self).wf(),
            final(self)@ == turned(old(self)@),
    {
        let candidate = Piece {
            shape: self.current_piece.rotate(),
            color: self.current_piece.color.clone(),
        };
        if self.grid.is_placeable(&candidate, (self.x, self.y)) {
            self.current_piece = candidate;
        }
    }

    fn change_piece(&mut self, new_piece: PieceType)
        requires
            old(self).wf(),
        ensures
            final(self).wf(),
            final(self)@ == changed(old(self)@, new_piece.code()),
    {
        self.grid.place_piece(&self.current_piece, (self.x, self.y));
        proof {
            lemma_cleared_size(self.grid.cells(), GRID_WIDTH as int);
        }
        let (lines_cleared, score) = self.grid.delete_full_rows(self.level);
        self.score = clamp(self.score as i64 + score as i64);
        let total = self.lines as i64 + lines_cleared as i64;
        if (self.lines as i64) % 10 > total % 10 {
            self.level = clamp(self.level as i64 + 1);
        }
        self.lines = clamp(total);
        self.current_piece = Piece::from_u8(new_piece.to_u8());
        self.x = SPAWN_ROW;
        self.y = SPAWN_COL;
        proof {
            lemma_spawn_fits(self@.grid, new_piece.code());
        }
    }

    fn hard_drop(&mut self, ghost_x: i32)
        requires
            old(self).wf(),
            has_cell(old(self)@.shape),
            is_ghost_row(
                old(self)@.grid,
                old(self)@.shape,
                old(self)@.row,
                old(self)@.col,
                ghost_x as int,
            ),
        ensures
            final(self).wf(),
            final(self)@ == dropped(old(self)@),
    {
        proof {
            let s = self@;
            lemma_ghost_row_unique(s.grid, s.shape, s.row, s.col, ghost_x as int, ghost_row(s));
            lemma_drop_distance(s.grid, s.shape, s.row, s.col, ghost_x as int);
            if ghost_x > self.x {
                assert(placeable(s.grid, s.shape, ghost_x as int, s.col));
            }
        }
        let diff = ghost_x as i64 - self.x as i64;
        assert(-20 * 0x5_0000_0000 <= diff * (self.level * 10) <= 20 * 0x5_0000_0000)
            by (nonlinear_arith)
            requires
                0 <= diff <= 20,
                -0x8000_0000 <= self.level < 0x8000_0000,
        ;
        self.x = ghost_x;
        self.score = clamp(self.score as i64 + diff * (self.level as i64 * 10));
    }

    fn end(&mut self) -> (result: (i32, i32, i32))
        ensures
            *final(self) == *old(self),
            result == (old(self).score, old(self).level, old(self).lines),
    {
        (self.score, self.level, self.lines)
    }
}

/// Whether the piece has an occupied sub-cell.
fn occupied(piece: &Piece) -> (any: bool)
    ensures
        any == has_cell(piece.cells()),
{
    let mut i: usize = 0;
    while i < piece.shape.len()
        invariant
            i <= piece.shape.len(),
            forall|a: int, b: int|
                0 <= a < i && 0 <= b < piece.cells()[a].len() ==> !(#[trigger] piece.cells()[a][b]),
        decreases piece.shape.len() - i,
    {
        let line = &piece.shape[i];
        let mut j: usize = 0;
        while j < line.len()
            invariant
                i < piece.shape.len(),
                line@ == piece.cells()[i as int],
                j <= line.len(),
                forall|b: int| 0 <= b < j ==> !(#[trigger] line[b]),
            decreases line.len() - j,
        {
            if line[j] {
                assert(piece.cells()[i as int][j as int]);
                return true;
            }
            j += 1;
        }
        i += 1;
    }
    false
}

/// Every canonical shape lies inside a grid of the fixed size when it is
/// anchored at the spawn anchor, and is a rectangle of at most four by
/// four.
pub proof fn lemma_spawn_fits(grid: Seq<Seq<bool>>, code: u8)
    requires
        grid.len() == GRID_HEIGHT,
        forall|r: int| 0 <= r < GRID_HEIGHT ==> (#[trigger] grid[r]).len() == GRID_WIDTH,
    ensures
        fits(grid, canonical_cells(code), SPAWN_ROW as int, SPAWN_COL as int),
        is_rectangular(canonical_cells(code)),
        canonical_cells(code).len() <= 4,
        canonical_cells(code)[0].len() <= 4,
{
    let shape = canonical_cells(code);
    assert forall|i: int, j: int|
        0 <= i < shape.len() && 0 <= j < shape[i].len() && #[trigger] shape[i][j] implies in_bounds(
        grid,
        SPAWN_ROW + i,
        SPAWN_COL + j,
    ) by {
        assert(shape.len() <= 4);
        assert(shape[i].len() <= 4);
    }
}

/// The state of a fresh game is valid.
pub proof fn lemma_initial_valid()
    ensures
        valid_state(initial_state()),
{
    let grid = initial_state().grid;
    lemma_spawn_fits(grid, 2);
    assert forall|r: int| 0 <= r < GRID_HEIGHT implies !row_full(#[trigger] grid[r]) by {
        assert(!grid[r][0]);
    }
}

/// A hard drop lands exactly on the ghost row, and a second hard drop right
/// after the first changes nothing: the piece is already on its landing
/// row, and no row fallen earns no points.
pub proof fn lemma_hard_drop_idempotent(s: EngineState)
    requires
        valid_state(s),
    ensures
        has_cell(s.shape) ==> is_ghost_row(s.grid, s.shape, s.row, s.col, dropped(s).row),
        has_cell(s.shape) ==> dropped(s).row == ghost_row(s) && ghost_row(dropped(s))
            == ghost_row(s),
        dropped(dropped(s)) == dropped(s),
{
    if has_cell(s.shape) {
        lemma_ghost_row_exists(s.grid, s.shape, s.row, s.col);
        let landing = ghost_row(s);
        let t = dropped(s);
        assert(is_ghost_row(t.grid, t.shape, t.row, t.col, landing));
        lemma_ghost_row_unique(t.grid, t.shape, t.row, t.col, landing, ghost_row(t));
    }
}

/// A rotation is taken or refused, never repaired: after a rotate request
/// either the state is as it was, or the shape is the turned shape and is
/// placeable at the cursor.
pub proof fn lemma_rotation_placeable(s: EngineState)
    ensures
        turned(s) == s || (turned(s).shape == rotated(s.shape) && placeable(
            turned(s).grid,
            turned(s).shape,
            turned(s).row,
            turned(s).col,
        )),
{
}

/// A move is taken or refused: after a move request either the state is as
/// it was, or the piece is placeable at the new cursor.
pub proof fn lemma_move_placeable(s: EngineState, drow: int, dcol: int)
    ensures
        moved(s, drow, dcol) == s || placeable(
            moved(s, drow, dcol).grid,
            moved(s, drow, dcol).shape,
            moved(s, drow, dcol).row,
            moved(s, drow, dcol).col,
        ),
{
}

/// One change of piece clears at most four rows, and so raises the level by
/// at most one: only the rows that the locked piece touches can have become
/// full.
pub proof fn lemma_change_clears_at_most_four(s: EngineState, code: u8)
    requires
        valid_state(s),
    ensures
        0 <= full_rows(locked(s.grid, s.shape, s.row, s.col)) <= 4,
        changed(s, code).lines == clamped(
            s.lines + full_rows(locked(s.grid, s.shape, s.row, s.col)),
        ),
        s.level <= changed(s, code).level <= s.level + 1,
{
    lemma_locked_full_rows(s.grid, s.shape, s.row, s.col);
}

/// The engine never enters an illegal configuration: every action takes a
/// valid state to a valid state.
pub proof fn lemma_step_valid(s: EngineState, action: Action)
    requires
        valid_state(s),
    ensures
        valid_state(step(s, action)),
{
    match action.action_type {
        ActionType::Start => {
            lemma_spawn_fits(s.grid, action.piece.code());
        },
        ActionType::Left => {},
        ActionType::Right => {},
        ActionType::Fall => {},
        ActionType::HardDrop => {
            if has_cell(s.shape) {
                lemma_ghost_row_exists(s.grid, s.shape, s.row, s.col);
                let landing = ghost_row(s);
                lemma_drop_distance(s.grid, s.shape, s.row, s.col, landing);
                if landing > s.row {
                    assert(placeable(s.grid, s.shape, landing, s.col));
                }
            }
        },
        ActionType::Rotate => {
            let shape = rotated(s.shape);
            assert(is_rectangular(shape));
        },
        ActionType::ChangePiece => {
            let grid = locked(s.grid, s.shape, s.row, s.col);
            lemma_locked_size(s.grid, s.shape, s.row, s.col);
            lemma_cleared_size(grid, GRID_WIDTH as int);
            lemma_spawn_fits(cleared(grid), action.piece.code());
        },
        ActionType::End => {},
        ActionType::Ping => {},
    }
}

} // verus!
