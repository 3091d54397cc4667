//! The draw of the next piece.

use rand::rngs::ThreadRng;
use rand::Rng;
use vstd::prelude::*;

use crate::tile::Tile;
use crate::tile::PIECE_KINDS;

verus! {

/// The generator of random numbers that each thread has. Nothing is known
/// of what it holds.
#[verifier::external_type_specification]
#[verifier::external_body]
pub struct ExThreadRng(ThreadRng);

/// `rand::thread_rng`: a handle to the generator of this thread, which the
/// system seeds. Nothing is claimed of it.
pub assume_specification[ rand::thread_rng ]() -> (rng: ThreadRng)
;

/// `Rng::gen_range` on the half-open range from zero to `bound`: some number
/// below `bound`. Which one is left open; an empty range is kept out, since
/// the call panics on it.
#[verifier::external_body]
fn draw_below(rng: &mut ThreadRng, bound: u8) -> (n: u8)
    requires
        bound > 0,
    ensures
        n < bound,
{
    rng.gen_range(0..bound)
}

/// The source of pieces: each draw is one of the seven kinds, picked without
/// regard to the draws before it.
pub struct Randomizer {
    state: ThreadRng,
}

impl Randomizer {
    /// A source that draws from the generator of this thread.
    pub fn new() -> Randomizer {
        Randomizer { state: rand::thread_rng() }
    }

    /// The next piece: never the empty tile.
    pub fn next(&mut self) -> (tile: Tile)
        ensures
            tile.is_piece(),
    {
        let n: u8 = draw_below(&mut self.state, PIECE_KINDS);
        match Tile::piece(n) {
            Some(tile) => tile,
            None => vstd::pervasive::unreached(),
        }
    }
}

} // verus!
