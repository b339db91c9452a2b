use vstd::prelude::*;
use crate::grid::{neighbour_empty, neighbour_empty_at, rect, tiles, Direction, PlacedTile, PlacedTileGrid};

verus! {

/// Bit `n` of a neighbour mask: bit 0 is left, then down-left, down, down-right,
/// right, up-right, up, and bit 7 is up-left.
pub open spec fn mask_bit(mask: u8, n: u8) -> bool {
    ((mask >> n) & 1u8) == 1u8
}

/// The atlas tile (column, row) of a styled-floor cell whose neighbour mask is `mask`.
/// A set bit marks a neighbour that belongs to the same styled region (or lies beyond
/// the grid). The shapes are tried in order and the first that matches wins; a mask
/// that matches none gets the interior tile.
pub open spec fn styled_coords(mask: u8) -> (u32, u32) {
    let left = mask_bit(mask, 0);
    let down_left = mask_bit(mask, 1);
    let down = mask_bit(mask, 2);
    let down_right = mask_bit(mask, 3);
    let right = mask_bit(mask, 4);
    let up_right = mask_bit(mask, 5);
    let up = mask_bit(mask, 6);
    let up_left = mask_bit(mask, 7);
    if !left && down && !down_right && right && !up {
        (4, 2)
    } else if left && !down_left && down && !down_right && right && !up {
        (5, 2)
    } else if left && !down_left && down && !right && !up {
        (6, 2)
    } else if left && !down_left && down && !right && up && !up_left {
        (6, 3)
    } else if left && !down && !right && up && !up_left {
        (6, 4)
    } else if left && !down && right && !up_right && up && !up_left {
        (5, 4)
    } else if !left && !down && right && !up_right && up {
        (4, 4)
    } else if !left && down && !down_right && right && !up_right && up {
        (4, 3)
    } else if !left && !down && !right && !up {
        (7, 2)
    } else if !left && down && !right && !up {
        (3, 2)
    } else if !left && down && !right && up {
        (3, 3)
    } else if !left && !down && !right && up {
        (3, 4)
    } else if !left && !down && right && !up {
        (0, 5)
    } else if left && !down && right && !up {
        (1, 5)
    } else if left && !down && !right && !up {
        (2, 5)
    } else if !left && down && right && !up {
        (0, 2)
    } else if left && down_left && down && down_right && right && !up {
        (1, 2)
    } else if left && down && !right && !up {
        (2, 2)
    } else if !left && !down && right && up {
        (0, 4)
    } else if left && !down && right && up_right && up && up_left {
        (1, 4)
    } else if left && !down && !right && up {
        (2, 4)
    } else if !left && down && down_right && right && up_right && up {
        (0, 3)
    } else if left && down_left && down && !right && up && up_left {
        (2, 3)
    } else if mask == 0b01111111u8 {
        (0, 0)
    } else if mask == 0b11011111u8 {
        (1, 0)
    } else if mask == 0b11110111u8 {
        (1, 1)
    } else if mask == 0b11111101u8 {
        (0, 1)
    } else if left && !down_left && down && down_right && right && !up {
        (2, 0)
    } else if left && down_left && down && !down_right && right && !up {
        (3, 0)
    } else if left && !down && right && up_right && up && !up_left {
        (2, 1)
    } else if left && !down && right && !up_right && up && up_left {
        (3, 1)
    } else if !left && down && !down_right && right && up_right && up {
        (0, 6)
    } else if left && !down_left && down && !right && up && up_left {
        (1, 6)
    } else if !left && down && down_right && right && !up_right && up {
        (0, 7)
    } else if left && down_left && down && !right && up && !up_left {
        (1, 7)
    } else if mask == 0b01011111u8 {
        (4, 0)
    } else if mask == 0b11110101u8 {
        (4, 1)
    } else if mask == 0b01111101u8 {
        (5, 0)
    } else if mask == 0b11010111u8 {
        (5, 1)
    } else if mask == 0b01110111u8 {
        (3, 5)
    } else if mask == 0b11011101u8 {
        (4, 5)
    } else if mask == 0b01011101u8 {
        (2, 6)
    } else if mask == 0b01010111u8 {
        (3, 6)
    } else if mask == 0b11010101u8 {
        (3, 7)
    } else if mask == 0b01110101u8 {
        (2, 7)
    } else if mask == 0b11111111u8 {
        (1, 3)
    } else if mask == 0b01010101u8 {
        (5, 3)
    } else {
        (1, 3)
    }
}

fn nth_bit(mask: u8, n: u8) -> (r: bool)
    requires
        n < 8,
    ensures
        r == mask_bit(mask, n),
{
    ((mask >> n) & 1u8) == 1u8
}

/// Maps a styled-floor neighbour mask to the atlas tile that draws it.
pub fn get_floor_styled_texture_coords(neighbour_mask: u8) -> (r: (u32, u32))
    ensures
        r == styled_coords(neighbour_mask),
{
    let left = nth_bit(neighbour_mask, 0);
    let down_left = nth_bit(neighbour_mask, 1);
    let down = nth_bit(neighbour_mask, 2);
    let down_right = nth_bit(neighbour_mask, 3);
    let right = nth_bit(neighbour_mask, 4);
    let up_right = nth_bit(neighbour_mask, 5);
    let up = nth_bit(neighbour_mask, 6);
    let up_left = nth_bit(neighbour_mask, 7);

    if !left && down && !down_right && right && !up {
        return (4, 2);
    }
    if left && !down_left && down && !down_right && right && !up {
        return (5, 2);
    }
    if left && !down_left && down && !right && !up {
        return (6, 2);
    }
    if left && !down_left && down && !right && up && !up_left {
        return (6, 3);
    }
    if left && !down && !right && up && !up_left {
        return (6, 4);
    }
    if left && !down && right && !up_right && up && !up_left {
        return (5, 4);
    }
    if !left && !down && right && !up_right && up {
        return (4, 4);
    }
    if !left && down && !down_right && right && !up_right && up {
        return (4, 3);
    }
    if !left && !down && !right && !up {
        return (7, 2);
    }
    if !left && down && !right && !up {
        return (3, 2);
    }
    if !left && down && !right && up {
        return (3, 3);
    }
    if !left && !down && !right && up {
        return (3, 4);
    }
    if !left && !down && right && !up {
        return (0, 5);
    }
    if left && !down && right && !up {
        return (1, 5);
    }
    if left && !down && !right && !up {
        return (2, 5);
    }
    if !left && down && right && !up {
        return (0, 2);
    }
    if left && down_left && down && down_right && right && !up {
        return (1, 2);
    }
    if left && down && !right && !up {
        return (2, 2);
    }
    if !left && !down && right && up {
        return (0, 4);
    }
    if left && !down && right && up_right && up && up_left {
        return (1, 4);
    }
    if left && !down && !right && up {
        return (2, 4);
    }
    if !left && down && down_right && right && up_right && up {
        return (0, 3);
    }
    if left && down_left && down && !right && up && up_left {
        return (2, 3);
    }
    if neighbour_mask == 0b01111111u8 {
        return (0, 0);
    }
    if neighbour_mask == 0b11011111u8 {
        return (1, 0);
    }
    if neighbour_mask == 0b11110111u8 {
        return (1, 1);
    }
    if neighbour_mask == 0b11111101u8 {
        return (0, 1);
    }
    if left && !down_left && down && down_right && right && !up {
        return (2, 0);
    }
    if left && down_left && down && !down_right && right && !up {
        return (3, 0);
    }
    if left && !down && right && up_right && up && !up_left {
        return (2, 1);
    }
    if left && !down && right && !up_right && up && up_left {
        return (3, 1);
    }
    if !left && down && !down_right && right && up_right && up {
        return (0, 6);
    }
    if left && !down_left && down && !right && up && up_left {
        return (1, 6);
    }
    if !left && down && down_right && right && !up_right && up {
        return (0, 7);
    }
    if left && down_left && down && !right && up && !up_left {
        return (1, 7);
    }
    if neighbour_mask == 0b01011111u8 {
        return (4, 0);
    }
    if neighbour_mask == 0b11110101u8 {
        return (4, 1);
    }
    if neighbour_mask == 0b01111101u8 {
        return (5, 0);
    }
    if neighbour_mask == 0b11010111u8 {
        return (5, 1);
    }
    if neighbour_mask == 0b01110111u8 {
        return (3, 5);
    }
    if neighbour_mask == 0b11011101u8 {
        return (4, 5);
    }
    if neighbour_mask == 0b01011101u8 {
        return (2, 6);
    }
    if neighbour_mask == 0b01010111u8 {
        return (3, 6);
    }
    if neighbour_mask == 0b11010101u8 {
        return (3, 7);
    }
    if neighbour_mask == 0b01110101u8 {
        return (2, 7);
    }
    if neighbour_mask == 0b11111111u8 {
        return (1, 3);
    }
    if neighbour_mask == 0b01010101u8 {
        return (5, 3);
    }
    (1, 3)
}

/// Every one of the 256 masks resolves to a tile inside the atlas's 8 by 8 block of
/// styled-floor shapes.
pub proof fn lemma_styled_coords_in_atlas(mask: u8)
    ensures
        styled_coords(mask).0 < 8,
        styled_coords(mask).1 < 8,
{
}

/// The neighbour mask as a number: a neighbour that is not outside the styled region
/// adds its bit's weight.
pub open spec fn mask_of_flags(
    left: bool,
    down_left: bool,
    down: bool,
    down_right: bool,
    right: bool,
    up_right: bool,
    up: bool,
    up_left: bool,
) -> int {
    (if !left { 1int } else { 0 }) + (if !down_left { 2int } else { 0 }) + (if !down { 4int } else { 0 })
        + (if !down_right { 8int } else { 0 }) + (if !right { 16int } else { 0 }) + (if !up_right {
        32int
    } else {
        0
    }) + (if !up { 64int } else { 0 }) + (if !up_left { 128int } else { 0 })
}

/// The styled-floor neighbour mask of the cell at `(x, y)`.
pub open spec fn styled_mask_at(t: Seq<Seq<PlacedTile>>, x: int, y: int) -> int {
    let e = |d: Direction| neighbour_empty_at(t, x, y, d, Some(PlacedTile::FloorStyled));
    mask_of_flags(
        e(Direction::Left),
        e(Direction::DownLeft),
        e(Direction::Down),
        e(Direction::DownRight),
        e(Direction::Right),
        e(Direction::UpRight),
        e(Direction::Up),
        e(Direction::UpLeft),
    )
}

/// Computes the styled-floor neighbour mask of the cell at `pos` (column, row).
pub fn styled_neighbour_mask(grid: &PlacedTileGrid, pos: (usize, usize)) -> (r: u8)
    requires
        rect(tiles(grid@)),
    ensures
        r as int == styled_mask_at(tiles(grid@), pos.0 as int, pos.1 as int),
{
    let styled = Some(PlacedTile::FloorStyled);
    let mut mask: u8 = 0;
    if !neighbour_empty(grid, pos, Direction::Left, styled) {
        mask = mask + 1;
    }
    if !neighbour_empty(grid, pos, Direction::DownLeft, styled) {
        mask = mask + 2;
    }
    if !neighbour_empty(grid, pos, Direction::Down, styled) {
        mask = mask + 4;
    }
    if !neighbour_empty(grid, pos, Direction::DownRight, styled) {
        mask = mask + 8;
    }
    if !neighbour_empty(grid, pos, Direction::Right, styled) {
        mask = mask + 16;
    }
    if !neighbour_empty(grid, pos, Direction::UpRight, styled) {
        mask = mask + 32;
    }
    if !neighbour_empty(grid, pos, Direction::Up, styled) {
        mask = mask + 64;
    }
    if !neighbour_empty(grid, pos, Direction::UpLeft, styled) {
        mask = mask + 128;
    }
    mask
}

} // verus!
