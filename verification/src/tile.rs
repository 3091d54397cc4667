//! What one cell of the playfield holds.

use vstd::prelude::*;

verus! {

/// The content of a cell: the colour of one of the seven pieces, or nothing.
#[derive(Clone, Copy, Debug, PartialEq, Eq, Structural)]
pub enum Tile {
    I,
    O,
    T,
    S,
    Z,
    L,
    J,
    Empty,
}

/// How many kinds of piece there are.
pub const PIECE_KINDS: u8 = 7;

impl Tile {
    /// Whether the tile is the colour of a piece, that is, not empty.
    pub open spec fn is_piece(self) -> bool {
        self != Tile::Empty
    }

    /// The piece with the given number, where there is one: the numbers
    /// below seven have one each.
    pub open spec fn spec_piece(n: int) -> Option<Tile> {
        if n == 0 {
            Some(Tile::I)
        } else if n == 1 {
            Some(Tile::O)
        } else if n == 2 {
            Some(Tile::T)
        } else if n == 3 {
            Some(Tile::S)
        } else if n == 4 {
            Some(Tile::Z)
        } else if n == 5 {
            Some(Tile::L)
        } else if n == 6 {
            Some(Tile::J)
        } else {
            None
        }
    }

    /// The piece with the given number, where there is one.
    pub fn piece(n: u8) -> (tile: Option<Tile>)
        ensures
            tile == Tile::spec_piece(n as int),
    {
        match n {
            0 => Some(Tile::I),
            1 => Some(Tile::O),
            2 => Some(Tile::T),
            3 => Some(Tile::S),
            4 => Some(Tile::Z),
            5 => Some(Tile::L),
            6 => Some(Tile::J),
            _ => None,
        }
    }

    /// Every piece has a number below seven.
    pub proof fn lemma_every_piece_numbered(t: Tile)
        requires
            t.is_piece(),
        ensures
            exists|n: int| 0 <= n < PIECE_KINDS && Tile::spec_piece(n) == Some(t),
    {
        let n: int = match t {
            Tile::I => 0,
            Tile::O => 1,
            Tile::T => 2,
            Tile::S => 3,
            Tile::Z => 4,
            Tile::L => 5,
            _ => 6,
        };
        assert(0 <= n < PIECE_KINDS && Tile::spec_piece(n) == Some(t));
    }

    /// The numbers below seven, and no others, stand for a tile; the tile is
    /// a piece, and no two numbers stand for one piece.
    pub proof fn lemma_piece_numbers(a: int, b: int)
        ensures
            Tile::spec_piece(a) is Some <==> 0 <= a < PIECE_KINDS,
            Tile::spec_piece(a) matches Some(t) ==> t.is_piece(),
            Tile::spec_piece(a) is Some && Tile::spec_piece(a) == Tile::spec_piece(b) ==> a == b,
    {
    }
}

impl Default for Tile {
    /// The empty tile.
    fn default() -> (tile: Tile)
        ensures
            tile == Tile::Empty,
    {
        Tile::Empty
    }
}

} // verus!
