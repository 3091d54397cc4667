//! The game as a whole: its playfield, its ticker and its source of pieces,
//! and what the events and the passing of time do to them.

use std::time::Duration;
use vstd::prelude::*;

use crate::board::empty_cells;
use crate::board::OutOfRange;
use crate::game::GameState;
use crate::game::Playfield;
use crate::game::PlayfieldView;
use crate::interval::Interval;
use crate::interval::IntervalView;
use crate::randomizer::Randomizer;
use crate::tile::Tile;

verus! {

/// A key that the game tells from the others.
#[derive(Clone, Copy, Debug, PartialEq, Eq, Structural)]
pub enum Key {
    /// Ends the game.
    Escape,
    /// Moves the piece in play to the left.
    Left,
    /// Clears the board.
    Delete,
    /// Any other key.
    Other,
}

/// What the player or the window did.
#[derive(Clone, Copy, Debug, PartialEq, Eq, Structural)]
pub enum Event {
    /// The window was asked to close.
    Quit,
    /// A key went down.
    KeyDown(Key),
    /// Anything else.
    Other,
}

/// Whether the game goes on after an event.
#[derive(Clone, Copy, Debug, PartialEq, Eq, Structural)]
pub enum Flow {
    /// The game goes on.
    Continue,
    /// The game is over.
    Quit,
}

/// Whether the given event ends the game: the window's request to close
/// does, and so does the escape key.
pub open spec fn ends_game(event: Event) -> bool {
    event == Event::Quit || event == Event::KeyDown(Key::Escape)
}

/// The playfield after the given event: the left key moves the piece in
/// play, the delete key empties the board and takes the piece out of play,
/// and nothing else changes anything.
pub open spec fn after_event(field: PlayfieldView, event: Event) -> PlayfieldView {
    match event {
        Event::KeyDown(Key::Left) => PlayfieldView { state: field.state.spec_move_left(), ..field },
        Event::KeyDown(Key::Delete) => PlayfieldView {
            state: GameState::Placed,
            cells: empty_cells(),
        },
        _ => field,
    }
}

/// Whether one tick of the game can lead from `before` to `after`: it does
/// for some piece that the tick may draw.
pub open spec fn ticks_to(before: PlayfieldView, after: PlayfieldView) -> bool {
    exists|drawn: Tile|
        drawn.is_piece() && #[trigger] before.state.spec_tick(before.cells, drawn) == Ok::<
            (GameState, Seq<Tile>),
            OutOfRange,
        >((after.state, after.cells))
}

/// What a game is, to its contracts.
pub struct TetrisView {
    /// The board and the piece in play.
    pub field: PlayfieldView,
    /// The ticker.
    pub ticker: IntervalView,
}

/// The game.
pub struct Tetris {
    field: Playfield,
    ticker: Interval,
    rng: Randomizer,
}

impl View for Tetris {
    type V = TetrisView;

    closed spec fn view(&self) -> TetrisView {
        TetrisView { field: self.field@, ticker: self.ticker@ }
    }
}

impl Tetris {
    /// A game with an empty board, no piece in play and a ticker of the
    /// given period that has not ticked yet.
    pub fn new(period: Duration) -> (game: Tetris)
        ensures
            game@ == (TetrisView {
                field: PlayfieldView { state: GameState::Placed, cells: empty_cells() },
                ticker: IntervalView { period, last_tick: None },
            }),
    {
        Tetris { field: Playfield::new(), ticker: Interval::new(period), rng: Randomizer::new() }
    }

    /// A game that goes on from the given playfield, with a ticker of the
    /// given period that has not ticked yet.
    pub fn with_playfield(field: Playfield, period: Duration) -> (game: Tetris)
        ensures
            game@ == (TetrisView {
                field: field@,
                ticker: IntervalView { period, last_tick: None },
            }),
    {
        Tetris { field, ticker: Interval::new(period), rng: Randomizer::new() }
    }

    /// The board and the piece in play.
    pub fn playfield(&self) -> (field: &Playfield)
        ensures
            field@ == self@.field,
    {
        &self.field
    }

    /// The ticker.
    pub fn ticker(&self) -> (ticker: &Interval)
        ensures
            ticker@ == self@.ticker,
    {
        &self.ticker
    }

    /// One tick of the game. With no piece in play, a piece is drawn and
    /// enters at the top of the middle column. Otherwise the piece in play
    /// is given its tick to fall: it moves down by a row, or is locked into
    /// the board where it rests.
    pub fn game_tick(&mut self)
        ensures
            ticks_to(old(self)@.field, final(self)@.field),
            old(self)@.field.state is Placed ==> final(self)@.field.cells == old(self)@.field.cells
                && (final(self)@.field.state matches GameState::Dropping(tile, at)
                && tile.is_piece() && at == (5i32, 0i32)),
            old(self)@.field.state is Dropping ==> old(self)@.field.state.spec_descend(
                old(self)@.field.cells,
            ) == Ok::<(GameState, Seq<Tile>), OutOfRange>(
                (final(self)@.field.state, final(self)@.field.cells),
            ),
            final(self)@.ticker == old(self)@.ticker,
    {
        let ghost before = self@.field;
        match self.field.state() {
            GameState::Placed => {
                let tile = self.rng.next();
                self.field.spawn(tile);
                assert(before.state.spec_tick(before.cells, tile) == Ok::<
                    (GameState, Seq<Tile>),
                    OutOfRange,
                >((self@.field.state, self@.field.cells)));
            },
            GameState::Dropping(_, _) => {
                self.field.descend();
                assert(before.state.spec_tick(before.cells, Tile::I) == Ok::<
                    (GameState, Seq<Tile>),
                    OutOfRange,
                >((self@.field.state, self@.field.cells)));
            },
        }
    }

    /// Takes one event and says whether the game goes on. The window's
    /// request to close and the escape key end the game. The left key moves
    /// the piece in play by a column, unless it stands in the leftmost one.
    /// The delete key empties the board and takes the piece out of play.
    /// Anything else changes nothing.
    pub fn handle_event(&mut self, event: Event) -> (flow: Flow)
        ensures
            flow == (if ends_game(event) {
                Flow::Quit
            } else {
                Flow::Continue
            }),
            final(self)@.field == after_event(old(self)@.field, event),
            final(self)@.ticker == old(self)@.ticker,
    {
        match event {
            Event::Quit => Flow::Quit,
            Event::KeyDown(Key::Escape) => Flow::Quit,
            Event::KeyDown(Key::Left) => {
                self.field.move_left();
                Flow::Continue
            },
            Event::KeyDown(Key::Delete) => {
                self.field.clear();
                Flow::Continue
            },
            _ => Flow::Continue,
        }
    }

    /// What a frame does once its events are taken: polls the ticker, and
    /// where a tick is due, lets the game tick once. Says whether it did.
    pub fn update(&mut self) -> (ticked: bool)
        ensures
            exists|now: nat|
                ticked == #[trigger] old(self)@.ticker.due(now) && final(self)@.ticker == old(
                    self,
                )@.ticker.polled(now),
            ticked ==> ticks_to(old(self)@.field, final(self)@.field),
            !ticked ==> final(self)@.field == old(self)@.field,
    {
        let ticked = self.ticker.try_tick();
        if ticked {
            self.game_tick();
        }
        ticked
    }
}

} // verus!
