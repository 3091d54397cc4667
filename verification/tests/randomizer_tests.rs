use tetris::Randomizer;
use tetris::Tile;

fn slot(tile: Tile) -> usize {
    match tile {
        Tile::I => 0,
        Tile::O => 1,
        Tile::T => 2,
        Tile::S => 3,
        Tile::Z => 4,
        Tile::L => 5,
        Tile::J => 6,
        Tile::Empty => 7,
    }
}

#[test]
fn next_is_never_empty() {
    let mut randomizer = Randomizer::new();
    for _ in 0..10_000 {
        assert_ne!(randomizer.next(), Tile::Empty);
    }
}

#[test]
fn every_kind_comes_about_one_time_in_seven() {
    let mut randomizer = Randomizer::new();
    let mut counts = [0u32; 8];
    let draws = 70_000;
    for _ in 0..draws {
        counts[slot(randomizer.next())] += 1;
    }
    assert_eq!(counts[7], 0);
    for kind in 0..7 {
        // Ten thousand are expected of each kind; the bounds lie more than
        // ten standard deviations away.
        assert!(counts[kind] > 9_000, "kind {} came {} times", kind, counts[kind]);
        assert!(counts[kind] < 11_000, "kind {} came {} times", kind, counts[kind]);
    }
}
