use tetris::board::OutOfRange;
use tetris::Board;
use tetris::Tile;

#[test]
fn default_board_is_empty_everywhere() {
    let board = Board::default();
    for y in 0..20 {
        for x in 0..10 {
            assert_eq!(board.index(x, y), Some(Tile::Empty));
        }
    }
}

#[test]
fn default_tile_is_empty() {
    assert_eq!(Tile::default(), Tile::Empty);
}

#[test]
fn index_outside_the_cells_gives_nothing() {
    let board = Board::default();
    assert_eq!(board.index(0, 20), None);
    assert_eq!(board.index(5, 20), None);
    assert_eq!(board.index(9, 20), None);
    assert_eq!(board.index(0, -1), None);
    assert_eq!(board.index(-1, 0), None);
    assert_eq!(board.index(200, 0), None);
    assert_eq!(board.index(0, 1000), None);
    assert_eq!(board.index(i32::MAX, i32::MAX), None);
    assert_eq!(board.index(i32::MIN, i32::MIN), None);
    assert_eq!(board.index(i32::MAX, i32::MIN), None);
    assert_eq!(board.index(i32::MIN, i32::MAX), None);
}

#[test]
fn index_reads_by_position_in_the_rows() {
    let mut board = Board::default();
    assert_eq!(board.set(0, 1, Tile::S), Ok(()));
    // Column ten of the top row is the first cell of the row below.
    assert_eq!(board.index(10, 0), Some(Tile::S));
    assert_eq!(board.index(0, 1), Some(Tile::S));
    assert_eq!(board.index(-10, 2), Some(Tile::S));
}

#[test]
fn last_cell_is_read_and_the_one_after_is_not() {
    let mut board = Board::default();
    assert_eq!(board.set(9, 19, Tile::J), Ok(()));
    assert_eq!(board.index(9, 19), Some(Tile::J));
    assert_eq!(board.index(10, 19), None);
    assert_eq!(board.index(0, 20), None);
}

#[test]
fn set_writes_one_cell_only() {
    let mut board = Board::default();
    assert_eq!(board.set(3, 7, Tile::T), Ok(()));
    for y in 0..20 {
        for x in 0..10 {
            let expected = if (x, y) == (3, 7) { Tile::T } else { Tile::Empty };
            assert_eq!(board.index(x, y), Some(expected));
        }
    }
}

#[test]
fn set_overwrites() {
    let mut board = Board::default();
    assert_eq!(board.set(4, 4, Tile::L), Ok(()));
    assert_eq!(board.set(4, 4, Tile::Z), Ok(()));
    assert_eq!(board.index(4, 4), Some(Tile::Z));
    assert_eq!(board.set(4, 4, Tile::Empty), Ok(()));
    assert_eq!(board, Board::default());
}

#[test]
fn set_outside_the_cells_is_refused() {
    let mut board = Board::default();
    assert_eq!(board.set(0, 20, Tile::I), Err(OutOfRange));
    assert_eq!(board.set(-1, 0, Tile::I), Err(OutOfRange));
    assert_eq!(board.set(0, -1, Tile::I), Err(OutOfRange));
    assert_eq!(board.set(i32::MAX, i32::MAX, Tile::I), Err(OutOfRange));
    assert_eq!(board.set(i32::MIN, 0, Tile::I), Err(OutOfRange));
    assert_eq!(board, Board::default());
}

#[test]
fn clone_keeps_the_cells() {
    let mut board = Board::default();
    assert_eq!(board.set(1, 2, Tile::O), Ok(()));
    let copy = board.clone();
    assert_eq!(copy, board);
    assert_eq!(copy.index(1, 2), Some(Tile::O));
}

#[test]
fn piece_by_number() {
    assert_eq!(Tile::piece(0), Some(Tile::I));
    assert_eq!(Tile::piece(1), Some(Tile::O));
    assert_eq!(Tile::piece(2), Some(Tile::T));
    assert_eq!(Tile::piece(3), Some(Tile::S));
    assert_eq!(Tile::piece(4), Some(Tile::Z));
    assert_eq!(Tile::piece(5), Some(Tile::L));
    assert_eq!(Tile::piece(6), Some(Tile::J));
    assert_eq!(Tile::piece(7), None);
    assert_eq!(Tile::piece(255), None);
}
