//! Piece types, their wire codes and their canonical shapes.

use vstd::prelude::*;

verus! {

/// The colour tag of a piece: seven playable variants and the void sentinel.
#[derive(Debug, Clone, Copy, PartialEq, Eq, Structural)]
pub enum PieceType {
    Cyan,
    Blue,
    Yellow,
    Orange,
    Purple,
    Green,
    Red,
    Void,
}

impl PieceType {
    /// The wire code of a piece type.
    pub open spec fn code(self) -> u8 {
        match self {
            PieceType::Cyan => 0x00,
            PieceType::Blue => 0x01,
            PieceType::Yellow => 0x02,
            PieceType::Orange => 0x03,
            PieceType::Purple => 0x04,
            PieceType::Green => 0x05,
            PieceType::Red => 0x06,
            PieceType::Void => 0x07,
        }
    }

    /// The piece type a wire code stands for; every code outside
    /// `0x00..=0x06` stands for the void sentinel.
    pub open spec fn of_code(code: u8) -> PieceType {
        if code == 0x00 {
            PieceType::Cyan
        } else if code == 0x01 {
            PieceType::Blue
        } else if code == 0x02 {
            PieceType::Yellow
        } else if code == 0x03 {
            PieceType::Orange
        } else if code == 0x04 {
            PieceType::Purple
        } else if code == 0x05 {
            PieceType::Green
        } else if code == 0x06 {
            PieceType::Red
        } else {
            PieceType::Void
        }
    }

    pub fn to_u8(&self) -> (code: u8)
        ensures
            code == self.code(),
    {
        match self {
            PieceType::Cyan => 0x00,
            PieceType::Blue => 0x01,
            PieceType::Yellow => 0x02,
            PieceType::Orange => 0x03,
            PieceType::Purple => 0x04,
            PieceType::Green => 0x05,
            PieceType::Red => 0x06,
            PieceType::Void => 0x07,
        }
    }

    pub fn from_u8(binary: u8) -> (piece: Self)
        ensures
            piece == Self::of_code(binary),
    {
        match binary {
            0x00 => PieceType::Cyan,
            0x01 => PieceType::Blue,
            0x02 => PieceType::Yellow,
            0x03 => PieceType::Orange,
            0x04 => PieceType::Purple,
            0x05 => PieceType::Green,
            0x06 => PieceType::Red,
            _ => PieceType::Void,
        }
    }
}

/// The mathematical content of a boolean matrix held as nested vectors:
/// row `i`, column `j` of the result is `rows[i][j]`.
pub open spec fn matrix(rows: Seq<Vec<bool>>) -> Seq<Seq<bool>> {
    Seq::new(rows.len(), |i: int| rows[i]@)
}

/// A matrix is rectangular and non-empty: it has at least one row, and all
/// rows have the same, non-zero, number of columns.
pub open spec fn is_rectangular(cells: Seq<Seq<bool>>) -> bool {
    &&& cells.len() >= 1
    &&& cells[0].len() >= 1
    &&& forall|i: int| 0 <= i < cells.len() ==> (#[trigger] cells[i]).len() == cells[0].len()
}

/// The quarter-turn of a matrix: the result has one row per column of
/// `cells`, and entry `(i, j)` of `cells` lands at row `j`, column
/// `cells.len() - 1 - i`.
pub open spec fn rotated(cells: Seq<Seq<bool>>) -> Seq<Seq<bool>> {
    Seq::new(
        cells[0].len(),
        |j: int| Seq::new(cells.len(), |k: int| cells[cells.len() - 1 - k][j]),
    )
}

/// A quarter-turn of a rectangle is a rectangle, with rows and columns
/// exchanged.
pub proof fn lemma_rotated_rectangular(cells: Seq<Seq<bool>>)
    requires
        is_rectangular(cells),
    ensures
        is_rectangular(rotated(cells)),
        rotated(cells).len() == cells[0].len(),
        rotated(cells)[0].len() == cells.len(),
{
}

/// Four quarter-turns give the shape back.
pub proof fn lemma_four_turns(cells: Seq<Seq<bool>>)
    requires
        is_rectangular(cells),
    ensures
        rotated(rotated(rotated(rotated(cells)))) == cells,
{
    let once = rotated(cells);
    let twice = rotated(once);
    let thrice = rotated(twice);
    lemma_rotated_rectangular(cells);
    lemma_rotated_rectangular(once);
    lemma_rotated_rectangular(twice);
    lemma_rotated_rectangular(thrice);
    assert(rotated(thrice) =~~= cells);
}

/// Some cell of the matrix is occupied.
pub open spec fn has_cell(cells: Seq<Seq<bool>>) -> bool {
    exists|i: int, j: int| 0 <= i < cells.len() && 0 <= j < cells[i].len() && #[trigger] cells[i][j]
}

/// The canonical shape of the piece with the given wire code.
pub open spec fn canonical_cells(code: u8) -> Seq<Seq<bool>> {
    if code == 0 {
        seq![
            seq![false, true, false, false],
            seq![false, true, false, false],
            seq![false, true, false, false],
            seq![false, true, false, false],
        ]
    } else if code == 1 {
        seq![seq![false, true, false], seq![false, true, false], seq![false, true, true]]
    } else if code == 2 {
        seq![seq![true, true], seq![true, true]]
    } else if code == 3 {
        seq![seq![false, true, false], seq![false, true, false], seq![true, true, false]]
    } else if code == 4 {
        seq![seq![false, true, false], seq![true, true, true], seq![false, false, false]]
    } else if code == 5 {
        seq![seq![true, true, false], seq![false, true, true], seq![false, false, false]]
    } else if code == 6 {
        seq![seq![false, true, true], seq![true, true, false], seq![false, false, false]]
    } else {
        seq![seq![false, false], seq![false, false]]
    }
}

/// The colour name of the piece with the given wire code.
pub open spec fn canonical_color(code: u8) -> Seq<char> {
    if code == 0 {
        "cyan"@
    } else if code == 1 {
        "blue"@
    } else if code == 2 {
        "yellow"@
    } else if code == 3 {
        "orange"@
    } else if code == 4 {
        "purple"@
    } else if code == 5 {
        "green"@
    } else if code == 6 {
        "red"@
    } else {
        "void"@
    }
}

/// A shape, a matrix of occupied sub-cells, with its colour name.
pub struct Piece {
    pub shape: Vec<Vec<bool>>,
    pub color: String,
}

impl Piece {
    /// The shape as a matrix of booleans.
    pub open spec fn cells(&self) -> Seq<Seq<bool>> {
        matrix(self.shape@)
    }

    /// The shape is a non-empty rectangle.
    pub open spec fn wf(&self) -> bool {
        is_rectangular(self.cells())
    }

    /// The shape turned by a quarter; the piece itself is left as it is.
    pub fn rotate(&self) -> (turned: Vec<Vec<bool>>)
        requires
            self.wf(),
        ensures
            matrix(turned@) == rotated(self.cells()),
            is_rectangular(matrix(turned@)),
    {
        let rows = self.shape.len();
        let cols = self.shape[0].len();
        assert(self.cells()[0].len() == cols);
        let mut turned: Vec<Vec<bool>> = Vec::new();
        let mut j: usize = 0;
        while j < cols
            invariant
                self.wf(),
                rows == self.shape.len(),
                cols == self.shape[0].len(),
                j <= cols,
                turned.len() == j,
                forall|a: int| 0 <= a < j ==> (#[trigger] turned[a])@ == rotated(self.cells())[a],
            decreases cols - j,
        {
            let mut line: Vec<bool> = Vec::new();
            let mut k: usize = 0;
            while k < rows
                invariant
                    self.wf(),
                    rows == self.shape.len(),
                    cols == self.shape[0].len(),
                    j < cols,
                    k <= rows,
                    line.len() == k,
                    forall|b: int| 0 <= b < k ==> #[trigger] line[b] == self.shape[rows - 1 - b][j as int],
                decreases rows - k,
            {
                assert(self.cells()[rows - 1 - k].len() == cols);
                line.push(self.shape[rows - 1 - k][j]);
                k += 1;
            }
            assert(line@ =~= rotated(self.cells())[j as int]);
            turned.push(line);
            j += 1;
        }
        assert(matrix(turned@) =~= rotated(self.cells()));
        turned
    }

    /// The canonical piece for a wire code; codes that name no playable
    /// piece give the void sentinel.
    pub fn from_u8(binary: u8) -> (piece: Self)
        ensures
            piece.cells() == canonical_cells(binary),
            piece.color@ == canonical_color(binary),
            piece.wf(),
    {
        let piece = match binary {
            0 => Piece {
                shape: vec![
                    vec![false, true, false, false],
                    vec![false, true, false, false],
                    vec![false, true, false, false],
                    vec![false, true, false, false],
                ],
                color: "cyan".to_string(),
            },
            1 => Piece {
                shape: vec![
                    vec![false, true, false],
                    vec![false, true, false],
                    vec![false, true, true],
                ],
                color: "blue".to_string(),
            },
            2 => Piece { shape: vec![vec![true, true], vec![true, true]], color: "yellow".to_string() },
            3 => Piece {
                shape: vec![
                    vec![false, true, false],
                    vec![false, true, false],
                    vec![true, true, false],
                ],
                color: "orange".to_string(),
            },
            4 => Piece {
                shape: vec![
                    vec![false, true, false],
                    vec![true, true, true],
                    vec![false, false, false],
                ],
                color: "purple".to_string(),
            },
            5 => Piece {
                shape: vec![
                    vec![true, true, false],
                    vec![false, true, true],
                    vec![false, false, false],
                ],
                color: "green".to_string(),
            },
            6 => Piece {
                shape: vec![
                    vec![false, true, true],
                    vec![true, true, false],
                    vec![false, false, false],
                ],
                color: "red".to_string(),
            },
            _ => Piece { shape: vec![vec![false; 2]; 2], color: "void".to_string() },
        };
        assert(piece.cells() =~~= canonical_cells(binary));
        piece
    }
}

} // verus!
