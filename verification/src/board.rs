//! The playfield: ten columns by twenty rows of tiles.

use vstd::prelude::*;

use crate::tile::Tile;

verus! {

/// The number of columns.
pub const WIDTH: i32 = 10;

/// The number of rows.
pub const HEIGHT: i32 = 20;

/// The number of cells.
pub const CELLS: usize = 200;

/// A read or a write that fell outside the cells of the board.
#[derive(Clone, Copy, Debug, PartialEq, Eq, Structural)]
pub struct OutOfRange;

/// The grid. Its view is the sequence of its cells, row after row from the
/// top, each row from the left.
#[derive(Debug, PartialEq, Eq)]
pub struct Board([Tile; 200]);

impl View for Board {
    type V = Seq<Tile>;

    closed spec fn view(&self) -> Seq<Tile> {
        self.0@
    }
}

/// The place of cell `(x, y)` in the sequence of cells.
pub open spec fn offset(x: int, y: int) -> int {
    y * WIDTH + x
}

/// Whether `(x, y)` names a cell of the board.
pub open spec fn in_range(x: int, y: int) -> bool {
    0 <= offset(x, y) < CELLS
}

/// Whether `(x, y)` lies in the playfield proper: a column and a row.
pub open spec fn in_playfield(x: int, y: int) -> bool {
    0 <= x < WIDTH && 0 <= y < HEIGHT
}

/// What a read of `(x, y)` gives on the given cells.
pub open spec fn cell(cells: Seq<Tile>, x: int, y: int) -> Option<Tile> {
    if in_range(x, y) {
        Some(cells[offset(x, y)])
    } else {
        None
    }
}

/// The cells of a board on which nothing has been placed.
pub open spec fn empty_cells() -> Seq<Tile> {
    Seq::new(CELLS as nat, |i: int| Tile::Empty)
}

impl Board {
    /// A board always has its two hundred cells.
    pub proof fn lemma_len(&self)
        ensures
            self@.len() == CELLS,
    {
    }

    /// The tile at `(x, y)`, or nothing where `(x, y)` names no cell.
    pub fn index(&self, x: i32, y: i32) -> (tile: Option<Tile>)
        ensures
            tile == cell(self@, x as int, y as int),
        no_unwind
    {
        let i: i64 = (y as i64) * 10 + (x as i64);
        if 0 <= i && i < 200 {
            Some(self.0[i as usize])
        } else {
            None
        }
    }

    /// Writes `tile` at `(x, y)`. Where `(x, y)` names no cell the board is
    /// left as it was and the write is refused.
    pub fn set(&mut self, x: i32, y: i32, tile: Tile) -> (done: Result<(), OutOfRange>)
        ensures
            done is Ok <==> in_range(x as int, y as int),
            done is Ok ==> final(self)@ == old(self)@.update(offset(x as int, y as int), tile),
            done is Err ==> final(self)@ == old(self)@,
            final(self)@.len() == CELLS,
        no_unwind
    {
        let i: i64 = (y as i64) * 10 + (x as i64);
        if 0 <= i && i < 200 {
            self.0[i as usize] = tile;
            Ok(())
        } else {
            Err(OutOfRange)
        }
    }
}

impl Default for Board {
    /// The board with every cell empty.
    fn default() -> (board: Board)
        ensures
            board@ == empty_cells(),
    {
        let cells: [Tile; 200] = [Tile::Empty; 200];
        assert(cells == vstd::array::spec_array_fill_for_copy_type::<Tile, 200>(Tile::Empty));
        assert(cells@ =~= empty_cells());
        Board(cells)
    }
}

impl Clone for Board {
    /// A board with the same cells.
    fn clone(&self) -> (board: Board)
        ensures
            board@ == self@,
    {
        Board(self.0)
    }
}

/// A read outside the cells gives nothing, whatever the cells hold.
pub proof fn lemma_outside_reads_nothing(cells: Seq<Tile>, x: int, y: int)
    requires
        !in_range(x, y),
    ensures
        cell(cells, x, y) is None,
{
}

/// Within the ten columns, the cells are the playfield and nothing else: a
/// row above the first or below the last names no cell.
pub proof fn lemma_columns_in_range(x: int, y: int)
    requires
        0 <= x < WIDTH,
    ensures
        in_range(x, y) <==> in_playfield(x, y),
{
}

/// Every cell of the playfield reads as empty on a board on which nothing
/// has been placed.
pub proof fn lemma_empty_board_reads_empty(x: int, y: int)
    requires
        in_playfield(x, y),
    ensures
        cell(empty_cells(), x, y) == Some(Tile::Empty),
{
}

} // verus!
