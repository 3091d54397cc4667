use tetris::layout::sprite_column;
use tetris::layout::Blit;
use tetris::layout::Config;
use tetris::layout::Rect;
use tetris::Playfield;
use tetris::Tile;

#[test]
fn default_measures() {
    let config = Config::default();
    assert_eq!(config.tile_size, 8);
    assert_eq!(config.scale, 4);
    assert_eq!((config.board_x, config.board_y), (96, 41));
    assert_eq!((config.backdrop_width, config.backdrop_height), (256, 224));
    assert_eq!(config.tick_millis, 1000);
    assert_eq!(config.window_size(), (1024, 896));
}

#[test]
fn sprite_columns() {
    assert_eq!(sprite_column(Tile::I), 0);
    assert_eq!(sprite_column(Tile::O), 1);
    assert_eq!(sprite_column(Tile::T), 2);
    assert_eq!(sprite_column(Tile::S), 3);
    assert_eq!(sprite_column(Tile::Z), 4);
    assert_eq!(sprite_column(Tile::L), 5);
    assert_eq!(sprite_column(Tile::J), 6);
    assert_eq!(sprite_column(Tile::Empty), 7);
}

#[test]
fn source_rectangles() {
    let config = Config::default();
    assert_eq!(config.source(Tile::I), Rect { x: 0, y: 0, width: 8, height: 8 });
    assert_eq!(config.source(Tile::T), Rect { x: 16, y: 0, width: 8, height: 8 });
    assert_eq!(config.source(Tile::Empty), Rect { x: 56, y: 0, width: 8, height: 8 });
}

#[test]
fn target_rectangles() {
    let config = Config::default();
    assert_eq!(config.target(0, 0), Some(Rect { x: 384, y: 164, width: 32, height: 32 }));
    assert_eq!(config.target(5, 1), Some(Rect { x: 544, y: 196, width: 32, height: 32 }));
    assert_eq!(config.target(9, 19), Some(Rect { x: 672, y: 772, width: 32, height: 32 }));
    assert_eq!(config.target(-1, -2), Some(Rect { x: 352, y: 100, width: 32, height: 32 }));
}

#[test]
fn target_beyond_a_pixel_coordinate_is_nothing() {
    let config = Config::default();
    assert_eq!(config.target(i32::MAX, 0), None);
    assert_eq!(config.target(0, i32::MIN), None);
    // 384 + 32 * 67_108_851 is the largest coordinate that fits.
    assert_eq!(
        config.target(67_108_851, 0),
        Some(Rect { x: 2_147_483_616, y: 164, width: 32, height: 32 })
    );
    assert_eq!(config.target(67_108_852, 0), None);
}

#[test]
fn largest_measures_still_fit_the_playfield() {
    let config = Config {
        tile_size: u16::MAX,
        scale: u8::MAX,
        board_x: u16::MAX,
        board_y: u16::MAX,
        backdrop_width: u16::MAX,
        backdrop_height: u16::MAX,
        tick_millis: 1,
    };
    assert_eq!(config.window_size(), (16_711_425, 16_711_425));
    assert_eq!(
        config.target(9, 19),
        Some(Rect { x: 167_114_250, y: 334_228_500, width: 16_711_425, height: 16_711_425 })
    );
    assert_eq!(config.source(Tile::Empty).x, 458_745);
}

#[test]
fn blit_pairs_source_and_target() {
    let config = Config::default();
    assert_eq!(
        config.blit(Tile::Z, 2, 3),
        Some(Blit {
            source: Rect { x: 32, y: 0, width: 8, height: 8 },
            target: Rect { x: 448, y: 260, width: 32, height: 32 },
        })
    );
    assert_eq!(config.blit(Tile::Z, i32::MIN, 3), None);
}

#[test]
fn scene_of_a_new_playfield_draws_every_cell_empty() {
    let config = Config::default();
    let field = Playfield::new();
    let scene = field.scene(&config);
    assert_eq!(scene.len(), 200);
    for (i, blit) in scene.iter().enumerate() {
        let x = (i % 10) as i32;
        let y = (i / 10) as i32;
        assert_eq!(blit.source, Rect { x: 56, y: 0, width: 8, height: 8 });
        assert_eq!(
            blit.target,
            Rect { x: 384 + 32 * x, y: 164 + 32 * y, width: 32, height: 32 }
        );
    }
}

#[test]
fn scene_draws_locked_tiles_and_the_piece_in_play_last() {
    let config = Config::default();
    let mut field = Playfield::new();
    field.spawn(Tile::O);
    for _ in 0..20 {
        field.descend();
    }
    field.spawn(Tile::T);
    field.descend();
    field.move_left();
    let scene = field.scene(&config);
    assert_eq!(scene.len(), 201);
    assert_eq!(scene[195], config.blit(Tile::O, 5, 19).unwrap());
    assert_eq!(scene[194], config.blit(Tile::Empty, 4, 19).unwrap());
    assert_eq!(scene[200], config.blit(Tile::T, 4, 1).unwrap());
    assert_eq!(
        scene[200],
        Blit {
            source: Rect { x: 16, y: 0, width: 8, height: 8 },
            target: Rect { x: 512, y: 196, width: 32, height: 32 },
        }
    );
}
