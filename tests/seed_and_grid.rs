use spelunkicons::autotile::{get_floor_styled_texture_coords, styled_neighbour_mask};
use spelunkicons::grid::{empty_grid, neighbour_empty, set_tile, Direction, PlacedTile};
use spelunkicons::seed::{grid_from_hash, Spelunkicon};

fn bits(rows: &[&str]) -> Vec<Vec<bool>> {
    rows.iter()
        .map(|r| r.chars().map(|c| c == '1').collect())
        .collect()
}

#[test]
fn hash_of_input_is_crc32() {
    let a = Spelunkicon::from_input("a", None, 6, 2);
    let b = Spelunkicon::from_input("b", None, 6, 2);
    assert_eq!(a.hash, 0xe8b7be43);
    assert_eq!(b.hash, 0x71beeff9);
    assert_ne!(a.hash, b.hash);
    assert_ne!(a.grid, b.grid);
}

#[test]
fn grid_of_a_height_six() {
    let a = Spelunkicon::from_input("a", None, 6, 2);
    // The top 18 bits of 0xe8b7be43, three per row, mirrored.
    let expected = bits(&["111111", "010010", "001100", "011110", "011110", "110011"]);
    assert_eq!(a.grid, expected);
    assert_eq!(a.grid_width, 6);
    assert_eq!(a.grid_height, 6);
    assert_eq!(a.max_misc, 2);
    assert_eq!(a.input, "a");
}

#[test]
fn same_input_same_grid() {
    let x = Spelunkicon::from_input("spelunky", None, 7, 4);
    let y = Spelunkicon::from_input("spelunky", None, 7, 4);
    assert_eq!(x.hash, y.hash);
    assert_eq!(x.grid, y.grid);
}

#[test]
fn odd_height_uses_centre_bits() {
    // 0b101100... : side bits 1,0,1 for the three rows; the centre bits are read from
    // the end of the six consumed bits, last first: bits 5, 4, 3 = 0, 0, 1.
    let hash: u32 = 0b1011_0000_0000_0000_0000_0000_0000_0000;
    let g3 = grid_from_hash(hash, 3);
    assert_eq!(g3, bits(&["101", "000", "111"]));
    for row in &g3 {
        assert_eq!(row.len(), 3);
    }
    let g4 = grid_from_hash(hash, 4);
    assert_eq!(g4, bits(&["1001", "1111", "0000", "0000"]));
}

#[test]
fn grids_are_mirrored() {
    for input in ["a", "b", "hello", "dungeon", "x1", "olmec"] {
        for h in 3u8..=8 {
            let c = Spelunkicon::from_input(input, None, h, 2);
            assert_eq!(c.grid.len(), h as usize);
            for row in &c.grid {
                assert_eq!(row.len(), h as usize);
                for col in 0..h as usize {
                    assert_eq!(row[col], row[h as usize - 1 - col]);
                }
            }
        }
    }
}

#[test]
fn neighbours_beyond_the_edge_are_solid() {
    let grid = empty_grid(4, 4);
    let dirs = [
        Direction::Left,
        Direction::UpLeft,
        Direction::Up,
        Direction::UpRight,
        Direction::Right,
        Direction::DownRight,
        Direction::Down,
        Direction::DownLeft,
    ];
    // At the top-left corner the left, up and diagonal-up neighbours are outside.
    for d in [Direction::Left, Direction::UpLeft, Direction::Up, Direction::UpRight, Direction::DownLeft] {
        assert!(!neighbour_empty(&grid, (0, 0), d, None));
        assert!(!neighbour_empty(&grid, (0, 0), d, Some(PlacedTile::Floor)));
    }
    // At the bottom-right corner the right, down and diagonal-down ones are.
    for d in [Direction::Right, Direction::DownRight, Direction::Down, Direction::UpRight, Direction::DownLeft] {
        assert!(!neighbour_empty(&grid, (3, 3), d, None));
    }
    // Inside, every neighbour of an empty grid is empty.
    for d in dirs {
        assert!(neighbour_empty(&grid, (1, 1), d, None));
    }
    assert!(neighbour_empty(&grid, (0, 0), Direction::Right, None));
    assert!(neighbour_empty(&grid, (0, 0), Direction::Centre, None));
}

#[test]
fn filled_kind_inverts_the_question() {
    let mut grid = empty_grid(3, 3);
    set_tile(&mut grid, 1, 0, PlacedTile::FloorStyled);
    assert!(!neighbour_empty(&grid, (1, 1), Direction::Up, None));
    assert!(!neighbour_empty(&grid, (1, 1), Direction::Up, Some(PlacedTile::FloorStyled)));
    assert!(neighbour_empty(&grid, (1, 1), Direction::Up, Some(PlacedTile::Floor)));
    assert!(neighbour_empty(&grid, (1, 1), Direction::Down, Some(PlacedTile::FloorStyled)));
}

#[test]
fn isolated_styled_cell_gets_isolated_tile() {
    let mut grid = empty_grid(3, 3);
    set_tile(&mut grid, 1, 1, PlacedTile::FloorStyled);
    let mask = styled_neighbour_mask(&grid, (1, 1));
    assert_eq!(mask, 0);
    assert_eq!(get_floor_styled_texture_coords(mask), (7, 2));
    assert_ne!(get_floor_styled_texture_coords(mask), (1, 3));
}

#[test]
fn resolver_covers_every_mask() {
    for m in 0..=255u8 {
        let (x, y) = get_floor_styled_texture_coords(m);
        assert!(x < 8 && y < 8);
    }
    assert_eq!(get_floor_styled_texture_coords(0xff), (1, 3));
    assert_eq!(get_floor_styled_texture_coords(0b0101_0101), (5, 3));
    assert_eq!(get_floor_styled_texture_coords(0b0101_1101), (2, 6));
    assert_eq!(get_floor_styled_texture_coords(0b0001_0100), (4, 2));
    assert_eq!(get_floor_styled_texture_coords(0b0000_0100), (3, 2));
}

#[test]
fn corner_mask_of_a_block() {
    // A 2x2 styled block at the top-left of a 4x4 grid: the top-left cell sees styled
    // cells right, down and down-right, and the grid edge left, up and on both
    // upper diagonals and down-left.
    let mut grid = empty_grid(4, 4);
    for (x, y) in [(0, 0), (1, 0), (0, 1), (1, 1)] {
        set_tile(&mut grid, x, y, PlacedTile::FloorStyled);
    }
    let mask = styled_neighbour_mask(&grid, (0, 0));
    assert_eq!(mask, 0b1111_1111);
    let mask = styled_neighbour_mask(&grid, (1, 1));
    // left, up-left, up are styled; right, down and down-left, down-right are empty.
    assert_eq!(mask, 0b1100_0001);
}

/// The mask with each corner bit cleared unless both of its edge neighbours are set.
fn canonical(m: u8) -> u8 {
    let bit = |i: u8| (m >> i) & 1 == 1;
    let mut c = m;
    if !(bit(0) && bit(2)) {
        c &= !(1 << 1);
    }
    if !(bit(2) && bit(4)) {
        c &= !(1 << 3);
    }
    if !(bit(4) && bit(6)) {
        c &= !(1 << 5);
    }
    if !(bit(6) && bit(0)) {
        c &= !(1 << 7);
    }
    c
}

#[test]
fn resolver_shape_values() {
    assert_eq!(get_floor_styled_texture_coords(0x7f), (0, 0));
    assert_eq!(get_floor_styled_texture_coords(0xdf), (1, 0));
    assert_eq!(get_floor_styled_texture_coords(0x55), (5, 3));
    assert_eq!(get_floor_styled_texture_coords(0x15), (5, 2));
    assert_eq!(get_floor_styled_texture_coords(0x1f), (1, 2));
    assert_eq!(get_floor_styled_texture_coords(0x44), (3, 3));
    assert_eq!(get_floor_styled_texture_coords(0x40), (3, 4));
    assert_eq!(get_floor_styled_texture_coords(0x01), (2, 5));
    assert_eq!(get_floor_styled_texture_coords(0x10), (0, 5));
    assert_eq!(get_floor_styled_texture_coords(0x11), (1, 5));
    assert_eq!(get_floor_styled_texture_coords(0x77), (3, 5));
    assert_eq!(get_floor_styled_texture_coords(0xdd), (4, 5));
}

#[test]
fn resolver_tells_every_shape_apart() {
    let mut seen = std::collections::HashSet::new();
    for m1 in 0..=255u8 {
        seen.insert(get_floor_styled_texture_coords(m1));
        for m2 in 0..=255u8 {
            let same_tile = get_floor_styled_texture_coords(m1) == get_floor_styled_texture_coords(m2);
            assert_eq!(same_tile, canonical(m1) == canonical(m2), "{:#x} {:#x}", m1, m2);
        }
    }
    assert_eq!(seen.len(), 47);
}
