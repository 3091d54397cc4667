//! The piece in play, the tick that drops it, and the playfield that holds
//! it together with the board.

use vstd::prelude::*;

use crate::board::cell;
use crate::board::empty_cells;
use crate::board::in_playfield;
use crate::board::in_range;
use crate::board::offset;
use crate::board::Board;
use crate::board::OutOfRange;
use crate::layout::Blit;
use crate::layout::Config;
use crate::tile::Tile;

verus! {

/// The column in which a piece enters the playfield.
pub const SPAWN_X: i32 = 5;

/// The row in which a piece enters the playfield.
pub const SPAWN_Y: i32 = 0;

/// What the game does at its next tick.
#[derive(Clone, Copy, Debug, PartialEq, Eq)]
pub enum GameState {
    /// No piece is in play: the next tick brings one.
    Placed,
    /// A piece of the given colour is in play at the given column and row:
    /// the next tick drops it by a row, or locks it where it is.
    Dropping(Tile, (i32, i32)),
}

/// Whether a piece at `(x, y)` can fall no further: the cell below it is
/// taken, or there is none.
pub open spec fn rests(cells: Seq<Tile>, x: int, y: int) -> bool {
    cell(cells, x, y + 1) != Some(Tile::Empty)
}

impl GameState {
    /// Whether the piece in play, if there is one, is inside the playfield.
    pub open spec fn in_playfield(self) -> bool {
        match self {
            GameState::Placed => true,
            GameState::Dropping(_, (x, y)) => in_playfield(x as int, y as int),
        }
    }

    /// The state in which a piece of the given colour has just entered.
    pub open spec fn spawned(tile: Tile) -> GameState {
        GameState::Dropping(tile, (SPAWN_X, SPAWN_Y))
    }

    /// The state and the cells after the piece in play has been given one
    /// tick to fall. A piece that can fall moves down by a row. One that
    /// rests is locked: its colour is written to its cell and no piece is in
    /// play any more. The lock is refused where the piece stands on no cell.
    /// With no piece in play nothing changes.
    pub open spec fn spec_descend(self, cells: Seq<Tile>) -> Result<
        (GameState, Seq<Tile>),
        OutOfRange,
    > {
        match self {
            GameState::Placed => Ok((GameState::Placed, cells)),
            GameState::Dropping(tile, (x, y)) => {
                if !rests(cells, x as int, y as int) {
                    Ok((GameState::Dropping(tile, (x, (y + 1) as i32)), cells))
                } else if in_range(x as int, y as int) {
                    Ok((GameState::Placed, cells.update(offset(x as int, y as int), tile)))
                } else {
                    Err(OutOfRange)
                }
            },
        }
    }

    /// The state after a move to the left was asked for: the piece in play
    /// moves by one column unless that would take it out of the playfield.
    pub open spec fn spec_move_left(self) -> GameState {
        match self {
            GameState::Dropping(tile, (x, y)) if 0 < x => GameState::Dropping(
                tile,
                ((x - 1) as i32, y),
            ),
            _ => self,
        }
    }

    /// The state after one tick, where `drawn` is the piece that the tick
    /// brings into play if none is.
    pub open spec fn spec_tick(self, cells: Seq<Tile>, drawn: Tile) -> Result<
        (GameState, Seq<Tile>),
        OutOfRange,
    > {
        match self {
            GameState::Placed => Ok((GameState::spawned(drawn), cells)),
            GameState::Dropping(_, _) => self.spec_descend(cells),
        }
    }

    /// Gives the piece in play one tick to fall, on the given board.
    pub fn descend(self, board: &mut Board) -> (next: Result<GameState, OutOfRange>)
        ensures
            match self.spec_descend(old(board)@) {
                Ok((state, cells)) => next == Ok::<GameState, OutOfRange>(state) && final(board)@
                    == cells,
                Err(refusal) => next == Err::<GameState, OutOfRange>(refusal) && final(board)@
                    == old(board)@,
            },
        no_unwind
    {
        match self {
            GameState::Placed => Ok(GameState::Placed),
            GameState::Dropping(tile, (x, y)) => {
                let below = if y < i32::MAX {
                    board.index(x, y + 1)
                } else {
                    None
                };
                match below {
                    Some(Tile::Empty) => Ok(GameState::Dropping(tile, (x, y + 1))),
                    _ => match board.set(x, y, tile) {
                        Ok(()) => Ok(GameState::Placed),
                        Err(refusal) => Err(refusal),
                    },
                }
            },
        }
    }

    /// Moves the piece in play one column to the left, unless it is in the
    /// leftmost column already or further out, or no piece is in play.
    pub fn move_left(self) -> (next: GameState)
        ensures
            next == self.spec_move_left(),
    {
        match self {
            GameState::Dropping(tile, (x, y)) => {
                if 0 < x {
                    GameState::Dropping(tile, (x - 1, y))
                } else {
                    self
                }
            },
            GameState::Placed => self,
        }
    }
}

/// The board together with the piece in play.
pub struct Playfield {
    state: GameState,
    board: Board,
}

/// What a playfield is, to its contracts.
pub struct PlayfieldView {
    /// The piece in play, if any.
    pub state: GameState,
    /// The cells of the board.
    pub cells: Seq<Tile>,
}

impl PlayfieldView {
    /// What holds of every playfield: the board has its two hundred cells,
    /// and the piece in play, if there is one, is inside the playfield.
    pub open spec fn wf(self) -> bool {
        self.cells.len() == 200 && self.state.in_playfield()
    }

    /// The copies that draw the playfield, in the order in which they are
    /// made: the cells of the board, row after row from the top and each row
    /// from the left, empty cells too, and last the piece in play, if any.
    pub open spec fn scene(self, config: Config) -> Seq<Blit> {
        let cells = Seq::new(
            200,
            |i: int| config.spec_blit(self.cells[i], i % 10, i / 10)->Some_0,
        );
        match self.state {
            GameState::Dropping(tile, (x, y)) => cells.push(
                config.spec_blit(tile, x as int, y as int)->Some_0,
            ),
            GameState::Placed => cells,
        }
    }
}

impl View for Playfield {
    type V = PlayfieldView;

    closed spec fn view(&self) -> PlayfieldView {
        PlayfieldView { state: self.state, cells: self.board@ }
    }
}

impl Playfield {
    /// The piece in play never leaves the playfield.
    #[verifier::type_invariant]
    closed spec fn piece_inside(self) -> bool {
        self.state.in_playfield()
    }

    /// An empty board with no piece in play.
    pub fn new() -> (field: Playfield)
        ensures
            field@ == (PlayfieldView { state: GameState::Placed, cells: empty_cells() }),
            field@.wf(),
    {
        Playfield { state: GameState::Placed, board: Board::default() }
    }

    /// The piece in play, if any.
    pub fn state(&self) -> (state: GameState)
        ensures
            state == self@.state,
            self@.wf(),
    {
        proof {
            use_type_invariant(self);
            self.board.lemma_len();
        }
        self.state
    }

    /// The board.
    pub fn board(&self) -> (board: &Board)
        ensures
            board@ == self@.cells,
    {
        &self.board
    }

    /// Brings a piece of the given colour into play at the top of the middle
    /// column, in place of the one in play, if any.
    pub fn spawn(&mut self, tile: Tile)
        ensures
            final(self)@ == (PlayfieldView { state: GameState::spawned(tile), ..old(self)@ }),
            final(self)@.wf(),
    {
        proof {
            self.board.lemma_len();
        }
        self.state = GameState::Dropping(tile, (SPAWN_X, SPAWN_Y));
    }

    /// Gives the piece in play one tick to fall: it moves down by a row, or,
    /// where it rests, it is locked into the board.
    pub fn descend(&mut self)
        ensures
            old(self)@.state.spec_descend(old(self)@.cells) == Ok::<
                (GameState, Seq<Tile>),
                OutOfRange,
            >((final(self)@.state, final(self)@.cells)),
            final(self)@.wf(),
    {
        proof {
            use_type_invariant(&*self);
            self.board.lemma_len();
        }
        if let Ok(state) = self.state.descend(&mut self.board) {
            self.state = state;
        }
    }

    /// Moves the piece in play one column to the left and says whether it
    /// moved: a piece in the leftmost column stays, and nothing moves where
    /// no piece is in play.
    pub fn move_left(&mut self) -> (moved: bool)
        ensures
            final(self)@ == (PlayfieldView {
                state: old(self)@.state.spec_move_left(),
                ..old(self)@
            }),
            moved == (final(self)@.state != old(self)@.state),
            final(self)@.wf(),
    {
        proof {
            use_type_invariant(&*self);
            self.board.lemma_len();
        }
        let before = self.state;
        let after = before.move_left();
        self.state = after;
        match (before, after) {
            (GameState::Dropping(_, (from, _)), GameState::Dropping(_, (to, _))) => from != to,
            _ => false,
        }
    }

    /// Empties the board and takes the piece in play, if any, out of play.
    pub fn clear(&mut self)
        ensures
            final(self)@ == (PlayfieldView { state: GameState::Placed, cells: empty_cells() }),
            final(self)@.wf(),
    {
        self.state = GameState::Placed;
        self.board = Board::default();
    }

    /// The copies from the sprite sheet that draw the playfield on top of
    /// the backdrop, in the order in which they are to be made.
    pub fn scene(&self, config: &Config) -> (blits: Vec<Blit>)
        ensures
            blits@ == self@.scene(*config),
    {
        proof {
            use_type_invariant(self);
            self.board.lemma_len();
        }
        let mut blits: Vec<Blit> = Vec::new();
        let mut i: i32 = 0;
        while i < 200
            invariant
                0 <= i <= 200,
                self@.cells.len() == 200,
                blits@ == Seq::new(
                    i as nat,
                    |k: int| config.spec_blit(self@.cells[k], k % 10, k / 10)->Some_0,
                ),
            decreases 200 - i,
        {
            let x: i32 = i % 10;
            let y: i32 = i / 10;
            proof {
                config.lemma_playfield_fits(x as int, y as int);
            }
            if let Some(tile) = self.board.index(x, y) {
                if let Some(blit) = config.blit(tile, x, y) {
                    blits.push(blit);
                }
            }
            i = i + 1;
            assert(blits@ =~= Seq::new(
                i as nat,
                |k: int| config.spec_blit(self@.cells[k], k % 10, k / 10)->Some_0,
            ));
        }
        if let GameState::Dropping(tile, (x, y)) = self.state {
            proof {
                config.lemma_playfield_fits(x as int, y as int);
            }
            if let Some(blit) = config.blit(tile, x, y) {
                blits.push(blit);
            }
        }
        blits
    }
}

/// A piece inside the playfield is still inside it after a tick, and the
/// lock of such a piece is never refused.
pub proof fn lemma_tick_keeps_playfield(state: GameState, cells: Seq<Tile>, drawn: Tile)
    requires
        state.in_playfield(),
        cells.len() == 200,
    ensures
        state.spec_tick(cells, drawn) matches Ok((next, after)) && next.in_playfield()
            && after.len() == 200,
{
}

/// With no piece in play, a tick brings the drawn piece in at the top of the
/// middle column and leaves the cells alone.
pub proof fn lemma_tick_spawns(cells: Seq<Tile>, drawn: Tile)
    ensures
        GameState::Placed.spec_tick(cells, drawn) == Ok::<(GameState, Seq<Tile>), OutOfRange>(
            (GameState::Dropping(drawn, (5, 0)), cells),
        ),
{
}

/// A piece in the bottom row of the playfield is locked by the next tick: no
/// piece is in play after it, and the piece's colour stands in its cell.
pub proof fn lemma_bottom_row_locks(cells: Seq<Tile>, tile: Tile, x: i32, drawn: Tile)
    requires
        GameState::Dropping(tile, (x, 19)).in_playfield(),
        cells.len() == 200,
    ensures
        GameState::Dropping(tile, (x, 19)).spec_tick(cells, drawn) matches Ok((next, after))
            && next == GameState::Placed && cell(after, x as int, 19) == Some(tile),
{
}

/// A move to the left never takes a piece out of the playfield.
pub proof fn lemma_move_left_keeps_playfield(state: GameState)
    requires
        state.in_playfield(),
    ensures
        state.spec_move_left().in_playfield(),
{
}

} // verus!
