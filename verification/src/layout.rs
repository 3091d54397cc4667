//! Where things go on the screen: the measures of the layout, and the
//! rectangles of the sprite sheet and of the window that they give.

use vstd::prelude::*;

use crate::board::in_playfield;
use crate::tile::Tile;

verus! {

/// A rectangle of pixels: its top left corner and its size.
#[derive(Clone, Copy, Debug, PartialEq, Eq, Structural)]
pub struct Rect {
    pub x: i32,
    pub y: i32,
    pub width: u32,
    pub height: u32,
}

/// One copy from the sprite sheet to the window.
#[derive(Clone, Copy, Debug, PartialEq, Eq, Structural)]
pub struct Blit {
    /// The rectangle of the sprite sheet that is copied.
    pub source: Rect,
    /// The rectangle of the window that it is copied to.
    pub target: Rect,
}

/// The measures of the layout.
#[derive(Clone, Copy, Debug, PartialEq, Eq, Structural)]
pub struct Config {
    /// The side of a tile on the sprite sheet, in pixels.
    pub tile_size: u16,
    /// By how much the window enlarges the backdrop and the tiles.
    pub scale: u8,
    /// The column of the backdrop at which the playfield begins.
    pub board_x: u16,
    /// The row of the backdrop at which the playfield begins.
    pub board_y: u16,
    /// The width of the backdrop, in its own pixels.
    pub backdrop_width: u16,
    /// The height of the backdrop, in its own pixels.
    pub backdrop_height: u16,
    /// The time between two ticks of the game, in milliseconds.
    pub tick_millis: u64,
}

/// The column of the sprite sheet that shows the given tile, counted in
/// tiles from the left.
pub open spec fn spec_sprite_column(tile: Tile) -> int {
    match tile {
        Tile::I => 0,
        Tile::O => 1,
        Tile::T => 2,
        Tile::S => 3,
        Tile::Z => 4,
        Tile::L => 5,
        Tile::J => 6,
        Tile::Empty => 7,
    }
}

/// The column of the sprite sheet that shows the given tile.
pub fn sprite_column(tile: Tile) -> (column: u8)
    ensures
        column == spec_sprite_column(tile),
{
    match tile {
        Tile::I => 0,
        Tile::O => 1,
        Tile::T => 2,
        Tile::S => 3,
        Tile::Z => 4,
        Tile::L => 5,
        Tile::J => 6,
        Tile::Empty => 7,
    }
}

impl Config {
    /// The side of a tile in the window, in pixels.
    pub open spec fn cell_side(self) -> int {
        self.tile_size * self.scale
    }

    /// The column of the window at which the cells of column `x` begin.
    pub open spec fn left_of(self, x: int) -> int {
        self.board_x * self.scale + x * self.cell_side()
    }

    /// The row of the window at which the cells of row `y` begin.
    pub open spec fn top_of(self, y: int) -> int {
        self.board_y * self.scale + y * self.cell_side()
    }

    /// Whether the corner of cell `(x, y)` can be written as a pixel of the
    /// window.
    pub open spec fn fits(self, x: int, y: int) -> bool {
        i32::MIN <= self.left_of(x) <= i32::MAX && i32::MIN <= self.top_of(y) <= i32::MAX
    }

    /// The rectangle of the sprite sheet that shows the given tile.
    pub open spec fn spec_source(self, tile: Tile) -> Rect {
        Rect {
            x: (spec_sprite_column(tile) * self.tile_size) as i32,
            y: 0,
            width: self.tile_size as u32,
            height: self.tile_size as u32,
        }
    }

    /// The rectangle of the window that cell `(x, y)` takes, where its
    /// corner fits.
    pub open spec fn spec_target(self, x: int, y: int) -> Option<Rect> {
        if self.fits(x, y) {
            Some(
                Rect {
                    x: self.left_of(x) as i32,
                    y: self.top_of(y) as i32,
                    width: self.cell_side() as u32,
                    height: self.cell_side() as u32,
                },
            )
        } else {
            None
        }
    }

    /// The copy that draws the given tile in cell `(x, y)`, where the
    /// cell's corner fits.
    pub open spec fn spec_blit(self, tile: Tile, x: int, y: int) -> Option<Blit> {
        match self.spec_target(x, y) {
            Some(target) => Some(Blit { source: self.spec_source(tile), target }),
            None => None,
        }
    }

    /// The size of the window: the backdrop, enlarged.
    pub fn window_size(&self) -> (size: (u32, u32))
        ensures
            size.0 == self.backdrop_width * self.scale,
            size.1 == self.backdrop_height * self.scale,
    {
        let scale: u32 = self.scale as u32;
        assert(self.backdrop_width * self.scale <= 65535 * 255) by (nonlinear_arith);
        assert(self.backdrop_height * self.scale <= 65535 * 255) by (nonlinear_arith);
        ((self.backdrop_width as u32) * scale, (self.backdrop_height as u32) * scale)
    }

    /// The rectangle of the sprite sheet that shows the given tile.
    pub fn source(&self, tile: Tile) -> (rect: Rect)
        ensures
            rect == self.spec_source(tile),
            rect.x == spec_sprite_column(tile) * self.tile_size,
    {
        let column: i32 = sprite_column(tile) as i32;
        let side: i32 = self.tile_size as i32;
        assert(0 <= column * side <= 7 * 65535) by (nonlinear_arith)
            requires
                0 <= column <= 7,
                0 <= side <= 65535,
        ;
        Rect { x: column * side, y: 0, width: self.tile_size as u32, height: self.tile_size as u32 }
    }

    /// The rectangle of the window that cell `(x, y)` takes, or nothing
    /// where its corner lies beyond what a pixel's coordinate can hold.
    pub fn target(&self, x: i32, y: i32) -> (rect: Option<Rect>)
        ensures
            rect == self.spec_target(x as int, y as int),
    {
        let tile_size: i64 = self.tile_size as i64;
        let scale: i64 = self.scale as i64;
        assert(0 <= tile_size * scale <= 65535 * 255) by (nonlinear_arith)
            requires
                0 <= tile_size <= 65535,
                0 <= scale <= 255,
        ;
        let side: i64 = tile_size * scale;
        assert(0 <= self.board_x as i64 * scale <= 65535 * 255) by (nonlinear_arith)
            requires
                0 <= scale <= 255,
        ;
        assert(0 <= self.board_y as i64 * scale <= 65535 * 255) by (nonlinear_arith)
            requires
                0 <= scale <= 255,
        ;
        assert(-0x8000_0000 * 0x100_0000 <= x as i64 * side <= 0x8000_0000 * 0x100_0000)
            by (nonlinear_arith)
            requires
                0 <= side <= 0x100_0000,
        ;
        assert(-0x8000_0000 * 0x100_0000 <= y as i64 * side <= 0x8000_0000 * 0x100_0000)
            by (nonlinear_arith)
            requires
                0 <= side <= 0x100_0000,
        ;
        let left: i64 = (self.board_x as i64) * scale + (x as i64) * side;
        let top: i64 = (self.board_y as i64) * scale + (y as i64) * side;
        if -0x8000_0000 <= left && left <= 0x7fff_ffff && -0x8000_0000 <= top && top
            <= 0x7fff_ffff {
            Some(Rect { x: left as i32, y: top as i32, width: side as u32, height: side as u32 })
        } else {
            None
        }
    }

    /// The copy that draws the given tile in cell `(x, y)`, or nothing
    /// where the cell's corner lies beyond what a pixel's coordinate can
    /// hold.
    pub fn blit(&self, tile: Tile, x: i32, y: i32) -> (blit: Option<Blit>)
        ensures
            blit == self.spec_blit(tile, x as int, y as int),
    {
        match self.target(x, y) {
            Some(target) => Some(Blit { source: self.source(tile), target }),
            None => None,
        }
    }

    /// Every cell of the playfield has its place in the window, whatever
    /// the measures.
    pub proof fn lemma_playfield_fits(self, x: int, y: int)
        requires
            in_playfield(x, y),
        ensures
            self.fits(x, y),
            self.spec_target(x, y) is Some,
    {
        let side = self.cell_side();
        assert(0 <= side <= 65535 * 255) by (nonlinear_arith)
            requires
                side == self.tile_size * self.scale,
        ;
        assert(0 <= self.board_x * self.scale <= 65535 * 255) by (nonlinear_arith);
        assert(0 <= self.board_y * self.scale <= 65535 * 255) by (nonlinear_arith);
        assert(0 <= x * side <= 9 * (65535 * 255)) by (nonlinear_arith)
            requires
                0 <= x <= 9,
                0 <= side <= 65535 * 255,
        ;
        assert(0 <= y * side <= 19 * (65535 * 255)) by (nonlinear_arith)
            requires
                0 <= y <= 19,
                0 <= side <= 65535 * 255,
        ;
    }
}

impl Default for Config {
    /// Tiles of eight pixels shown at four times their size, on a backdrop
    /// of 256 by 224 pixels with the playfield at (96, 41), and one tick
    /// each second.
    fn default() -> (config: Config)
        ensures
            config == (Config {
                tile_size: 8,
                scale: 4,
                board_x: 96,
                board_y: 41,
                backdrop_width: 256,
                backdrop_height: 224,
                tick_millis: 1000,
            }),
    {
        Config {
            tile_size: 8,
            scale: 4,
            board_x: 96,
            board_y: 41,
            backdrop_width: 256,
            backdrop_height: 224,
            tick_millis: 1000,
        }
    }
}

} // verus!
