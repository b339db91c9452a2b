use vstd::prelude::*;
use crate::biome::Biome;
use crate::grid::{
    in_bounds, is_grid, neighbour_empty, neighbour_empty_at, rect, set_tile, tiles, width_of,
    Direction, PlacedTile, PlacedTileGrid,
};
use crate::placement::{put, put_tile, GridGenerator};
use crate::rng::{ratio_draw, usize_draw, Stream};
use crate::seed::Spelunkicon;

verus! {

/// Which of the nine cells around a position (the position itself included) are empty,
/// taken before a misc attempt changes anything.
#[derive(Debug, Clone, Copy, PartialEq, Eq, Structural)]
pub struct Neighbours {
    pub centre: bool,
    pub left: bool,
    pub down_left: bool,
    pub down: bool,
    pub down_right: bool,
    pub right: bool,
    pub up_right: bool,
    pub up: bool,
    pub up_left: bool,
}

pub open spec fn neighbours_at(t: Seq<Seq<PlacedTile>>, x: int, y: int) -> Neighbours {
    Neighbours {
        centre: neighbour_empty_at(t, x, y, Direction::Centre, None),
        left: neighbour_empty_at(t, x, y, Direction::Left, None),
        down_left: neighbour_empty_at(t, x, y, Direction::DownLeft, None),
        down: neighbour_empty_at(t, x, y, Direction::Down, None),
        down_right: neighbour_empty_at(t, x, y, Direction::DownRight, None),
        right: neighbour_empty_at(t, x, y, Direction::Right, None),
        up_right: neighbour_empty_at(t, x, y, Direction::UpRight, None),
        up: neighbour_empty_at(t, x, y, Direction::Up, None),
        up_left: neighbour_empty_at(t, x, y, Direction::UpLeft, None),
    }
}

/// Takes the emptiness snapshot around `pos` (column, row).
pub fn neighbours(grid: &PlacedTileGrid, pos: (usize, usize)) -> (n: Neighbours)
    requires
        rect(tiles(grid@)),
    ensures
        n == neighbours_at(tiles(grid@), pos.0 as int, pos.1 as int),
{
    Neighbours {
        centre: neighbour_empty(grid, pos, Direction::Centre, None),
        left: neighbour_empty(grid, pos, Direction::Left, None),
        down_left: neighbour_empty(grid, pos, Direction::DownLeft, None),
        down: neighbour_empty(grid, pos, Direction::Down, None),
        down_right: neighbour_empty(grid, pos, Direction::DownRight, None),
        right: neighbour_empty(grid, pos, Direction::Right, None),
        up_right: neighbour_empty(grid, pos, Direction::UpRight, None),
        up: neighbour_empty(grid, pos, Direction::Up, None),
        up_left: neighbour_empty(grid, pos, Direction::UpLeft, None),
    }
}

/// A cell of the grid that is not on its border.
pub open spec fn interior(t: Seq<Seq<PlacedTile>>, x: int, y: int) -> bool {
    1 <= x < width_of(t) - 1 && 1 <= y < t.len() - 1
}

pub open spec fn advanced(s: Stream, pos: u64) -> Stream {
    Stream { seed: s.seed, pos }
}

/// Cave: an empty cell on top of floor with open space above becomes a two-high bone
/// pile, or a totem trap when both upper diagonals and both sides are open; a solid cell
/// with exactly one open side becomes an arrow trap.
pub open spec fn cave_rule(t: Seq<Seq<PlacedTile>>, x: int, y: int, n: Neighbours) -> Seq<Seq<PlacedTile>> {
    if n.centre {
        if n.up && !n.down {
            let m = if n.left && n.up_left && n.right && n.up_right {
                PlacedTile::TotemTrap
            } else {
                PlacedTile::BoneBlock
            };
            put(put(t, x, y, m), x, y - 1, m)
        } else {
            t
        }
    } else if n.left != n.right {
        put(t, x, y, PlacedTile::ArrowTrap)
    } else {
        t
    }
}

/// Jungle and beehive: a floor cell with an open side becomes a spear trap or a bush
/// (even odds); in a beehive, an empty cell under or over styled floor gets honey.
pub open spec fn jungle_rule(
    t: Seq<Seq<PlacedTile>>,
    s: Stream,
    biome: Biome,
    x: int,
    y: int,
    n: Neighbours,
) -> (Seq<Seq<PlacedTile>>, Stream) {
    if !neighbour_empty_at(t, x, y, Direction::Centre, Some(PlacedTile::Floor)) {
        if n.left || n.right || n.up || n.down {
            let (b, p) = ratio_draw(s.seed, s.pos, 1, 2);
            (put(t, x, y, if b { PlacedTile::SpearTrap } else { PlacedTile::BushBlock }), advanced(s, p))
        } else {
            (t, s)
        }
    } else if neighbour_empty_at(t, x, y, Direction::Centre, None) && biome == Biome::Beehive {
        if !neighbour_empty_at(t, x, y, Direction::Up, Some(PlacedTile::FloorStyled)) {
            (put(t, x, y, PlacedTile::HoneyUp), s)
        } else if !neighbour_empty_at(t, x, y, Direction::Down, Some(PlacedTile::FloorStyled)) {
            (put(t, x, y, PlacedTile::HoneyDown), s)
        } else {
            (t, s)
        }
    } else {
        (t, s)
    }
}

/// A chain hanging in column `x` from row `y`: links down from step `i`, ending in a
/// bottom link at the grid's last row, at the fourth link, or above an occupied cell.
pub open spec fn chain(t: Seq<Seq<PlacedTile>>, x: int, y: int, i: nat) -> Seq<Seq<PlacedTile>>
    decreases 4 - i,
{
    if i >= 4 {
        t
    } else if y + i == t.len() - 1 || i == 3 || t[y + i][x] != PlacedTile::Empty {
        put(t, x, y + i, PlacedTile::ChainBot)
    } else {
        chain(put(t, x, y + i, PlacedTile::ChainMid), x, y, i + 1)
    }
}

/// Volcana: on floor, rarely (1 in 100) an udjat socket; under a ceiling with open space
/// below, a hanging chain; a solid cell with open space above and floor below becomes a
/// conveyor (either way, even odds), widened sideways under open space over floor.
pub open spec fn volcana_rule(
    t: Seq<Seq<PlacedTile>>,
    s: Stream,
    x: int,
    y: int,
    n: Neighbours,
) -> (Seq<Seq<PlacedTile>>, Stream) {
    if n.centre {
        if !n.down {
            let (b, p) = ratio_draw(s.seed, s.pos, 1, 100);
            if b {
                (put(put(t, x, y - 1, PlacedTile::UdjatSocketTop), x, y, PlacedTile::UdjatSocketBot), advanced(s, p))
            } else {
                (t, advanced(s, p))
            }
        } else if !n.up {
            (chain(put(t, x, y - 1, PlacedTile::ChainTop), x, y, 0), s)
        } else {
            (t, s)
        }
    } else if n.up && !neighbour_empty_at(t, x, y, Direction::Down, Some(PlacedTile::Floor)) {
        let (flip, p) = ratio_draw(s.seed, s.pos, 1, 2);
        let tile = if flip { PlacedTile::ConveyorLeft } else { PlacedTile::ConveyorRight };
        let t1 = put(t, x, y, tile);
        let t2 = if n.left && n.up_left && !neighbour_empty_at(t1, x, y, Direction::DownLeft, Some(PlacedTile::Floor)) {
            put(t1, x - 1, y, tile)
        } else {
            t1
        };
        let t3 = if n.right && n.up_right && !neighbour_empty_at(t2, x, y, Direction::DownRight, Some(PlacedTile::Floor)) {
            put(t2, x + 1, y, tile)
        } else {
            t2
        };
        (t3, advanced(s, p))
    } else {
        (t, s)
    }
}

/// Tide pool: an empty cell on floor, open above and on both sides and both upper
/// diagonals, becomes a two-high lion trap.
pub open spec fn tidepool_rule(t: Seq<Seq<PlacedTile>>, x: int, y: int, n: Neighbours) -> Seq<Seq<PlacedTile>> {
    if n.centre && n.up && !n.down && n.left && n.up_left && n.right && n.up_right {
        put(put(t, x, y, PlacedTile::LionTrap), x, y - 1, PlacedTile::LionTrap)
    } else {
        t
    }
}

/// Whether the neighbour holds neither kind of floor.
pub open spec fn no_floor_at(t: Seq<Seq<PlacedTile>>, x: int, y: int, d: Direction) -> bool {
    neighbour_empty_at(t, x, y, d, Some(PlacedTile::Floor))
        && neighbour_empty_at(t, x, y, d, Some(PlacedTile::FloorStyled))
}

/// Temple and city of gold: a floor cell with floor to its right, below and below
/// right becomes, at even odds, a large crush trap over the four cells; otherwise a floor
/// cell with an open side becomes a crush trap.
pub open spec fn temple_rule(
    t: Seq<Seq<PlacedTile>>,
    s: Stream,
    x: int,
    y: int,
    n: Neighbours,
) -> (Seq<Seq<PlacedTile>>, Stream) {
    if !no_floor_at(t, x, y, Direction::Centre) {
        let right = no_floor_at(t, x, y, Direction::Right);
        let down = no_floor_at(t, x, y, Direction::Down);
        let down_right = no_floor_at(t, x, y, Direction::DownRight);
        let (large, s1) = if !right && !down && !down_right {
            let (b, p) = ratio_draw(s.seed, s.pos, 1, 2);
            (b, advanced(s, p))
        } else {
            (false, s)
        };
        if large {
            let t1 = put(t, x, y, PlacedTile::LargeCrushTrapTopLeft);
            let t2 = put(t1, x + 1, y, PlacedTile::LargeCrushTrapTopRight);
            let t3 = put(t2, x, y + 1, PlacedTile::LargeCrushTrapBotLeft);
            (put(t3, x + 1, y + 1, PlacedTile::LargeCrushTrapBotRight), s1)
        } else if n.left || right || n.up || down {
            (put(t, x, y, PlacedTile::CrushTrap), s1)
        } else {
            (t, s1)
        }
    } else {
        (t, s)
    }
}

/// Ice, Babylon and the sunken city: a solid cell becomes an ice block; a solid cell
/// with exactly one open side becomes a laser trap; a solid cell with exactly one open
/// side becomes, with its solid neighbour on the other side, a frog trap facing the
/// open side.
pub open spec fn simple_rule(t: Seq<Seq<PlacedTile>>, biome: Biome, x: int, y: int, n: Neighbours) -> Seq<Seq<PlacedTile>> {
    match biome {
        Biome::Ice => if !n.centre { put(t, x, y, PlacedTile::IceBlock) } else { t },
        Biome::Babylon => if !n.centre && n.left != n.right { put(t, x, y, PlacedTile::LaserTrap) } else { t },
        Biome::Sunken => if !n.centre && !n.left && n.right {
            put(put(t, x - 1, y, PlacedTile::FrogTrapLeft), x, y, PlacedTile::FrogTrapRight)
        } else if !n.centre && n.left && !n.right {
            put(put(t, x, y, PlacedTile::FrogTrapLeft), x + 1, y, PlacedTile::FrogTrapRight)
        } else {
            t
        },
        _ => t,
    }
}

/// The biome's own rule for the cell at `(x, y)`.
pub open spec fn biome_rule(
    t: Seq<Seq<PlacedTile>>,
    s: Stream,
    biome: Biome,
    x: int,
    y: int,
    n: Neighbours,
) -> (Seq<Seq<PlacedTile>>, Stream) {
    match biome {
        Biome::Cave => (cave_rule(t, x, y, n), s),
        Biome::Jungle | Biome::Beehive => jungle_rule(t, s, biome, x, y, n),
        Biome::Volcana => volcana_rule(t, s, x, y, n),
        Biome::TidePool => (tidepool_rule(t, x, y, n), s),
        Biome::Temple | Biome::CityOfGold => temple_rule(t, s, x, y, n),
        _ => (simple_rule(t, biome, x, y, n), s),
    }
}

/// The altar kind of a biome, as (left half, right half): cave, volcana and tide pool
/// pick a plain or an idol altar at even odds; ice picks a plain altar 3333 times in
/// 10000, else an eggplant or an idol altar at even odds; other biomes draw nothing and
/// get a plain altar.
pub open spec fn altar_kind(biome: Biome, s: Stream) -> (PlacedTile, PlacedTile, Stream) {
    match biome {
        Biome::Cave | Biome::Volcana | Biome::TidePool => {
            let (b, p) = ratio_draw(s.seed, s.pos, 1, 2);
            if b {
                (PlacedTile::AltarLeft, PlacedTile::AltarRight, advanced(s, p))
            } else {
                (PlacedTile::IdolAltarLeft, PlacedTile::IdolAltarRight, advanced(s, p))
            }
        },
        Biome::Ice => {
            let (b, p) = ratio_draw(s.seed, s.pos, 3333, 10000);
            if b {
                (PlacedTile::AltarLeft, PlacedTile::AltarRight, advanced(s, p))
            } else {
                let (b2, pos2) = ratio_draw(s.seed, p, 1, 2);
                if b2 {
                    (PlacedTile::EggplantAltarLeft, PlacedTile::EggplantAltarRight, advanced(s, pos2))
                } else {
                    (PlacedTile::IdolAltarLeft, PlacedTile::IdolAltarRight, advanced(s, pos2))
                }
            }
        },
        _ => (PlacedTile::AltarLeft, PlacedTile::AltarRight, s),
    }
}

/// Biomes whose open cells between floor and ceiling can hold a platform.
pub open spec fn platform_biome(biome: Biome) -> bool {
    match biome {
        Biome::Cave | Biome::TidePool | Biome::Surface | Biome::PalaceOfPleasure | Biome::Ice | Biome::Volcana => true,
        _ => false,
    }
}

/// The rule that follows the biome's own, when that left the cell as it was and the
/// cell was empty. On floor: once per pass, 1 in 5, with open space above and an open
/// side whose lower diagonal is solid and upper diagonal open, an altar over that side
/// and the cell; else, with an open side, a powder keg (1 in 20) or a push block. Between
/// open space above and below: a platform, in the biomes that have them.
pub open spec fn generic_rule(
    t: Seq<Seq<PlacedTile>>,
    s: Stream,
    biome: Biome,
    x: int,
    y: int,
    n: Neighbours,
    before: PlacedTile,
    placed_altar: bool,
) -> (Seq<Seq<PlacedTile>>, Stream, bool) {
    if t[y][x] == before && n.centre {
        if !n.down {
            let (lucky, s1) = if !placed_altar {
                let (b, p) = ratio_draw(s.seed, s.pos, 1, 5);
                (b, advanced(s, p))
            } else {
                (false, s)
            };
            let anchor_left = n.left && !n.down_left && n.up_left;
            let anchor_right = n.right && !n.down_right && n.up_right;
            if !placed_altar && lucky && n.up && (anchor_left || anchor_right) {
                let (lt, rt, s2) = altar_kind(biome, s1);
                let t1 = if anchor_left {
                    put(put(t, x - 1, y, lt), x, y, rt)
                } else {
                    put(put(t, x, y, lt), x + 1, y, rt)
                };
                (t1, s2, true)
            } else if n.left || n.right {
                let (b, p) = ratio_draw(s1.seed, s1.pos, 1, 20);
                (put(t, x, y, if b { PlacedTile::PowderKeg } else { PlacedTile::PushBlock }), advanced(s1, p), placed_altar)
            } else {
                (t, s1, placed_altar)
            }
        } else if n.up && platform_biome(biome) {
            (put(t, x, y, PlacedTile::Platform), s, placed_altar)
        } else {
            (t, s, placed_altar)
        }
    } else {
        (t, s, placed_altar)
    }
}

/// One misc attempt: draw a column below `height - 2` and a row below `width - 2` (each
/// plus one, off the border), take the snapshot there, run the biome's rule, then the
/// generic one.
pub open spec fn misc_attempt(
    t: Seq<Seq<PlacedTile>>,
    s: Stream,
    biome: Biome,
    placed_altar: bool,
) -> (Seq<Seq<PlacedTile>>, Stream, bool) {
    let (a, pos1) = usize_draw(s.seed, s.pos);
    let (b, pos2) = usize_draw(s.seed, pos1);
    let x = (a as int) % (t.len() - 2) + 1;
    let y = (b as int) % (width_of(t) - 2) + 1;
    let n = neighbours_at(t, x, y);
    let (t1, s1) = biome_rule(t, advanced(s, pos2), biome, x, y, n);
    generic_rule(t1, s1, biome, x, y, n, t[y][x], placed_altar)
}

/// `count` misc attempts in a row.
pub open spec fn misc_attempts(
    t: Seq<Seq<PlacedTile>>,
    s: Stream,
    biome: Biome,
    placed_altar: bool,
    count: nat,
) -> (Seq<Seq<PlacedTile>>, Stream, bool)
    decreases count,
{
    if count == 0 {
        (t, s, placed_altar)
    } else {
        let (t1, s1, pos1) = misc_attempts(t, s, biome, placed_altar, (count - 1) as nat);
        misc_attempt(t1, s1, biome, pos1)
    }
}

/// Two grids of the same number of rows and the same width.
pub open spec fn same_shape(a: Seq<Seq<PlacedTile>>, b: Seq<Seq<PlacedTile>>) -> bool {
    a.len() == b.len() && width_of(a) == width_of(b)
}

/// Requirements shared by the rules: a rectangular grid, an interior cell, and the
/// snapshot taken there.
pub open spec fn rule_ready(t: Seq<Seq<PlacedTile>>, x: int, y: int, n: Neighbours) -> bool {
    &&& rect(t)
    &&& interior(t, x, y)
    &&& n == neighbours_at(t, x, y)
}

fn place_floormisc_cave(grid: &mut PlacedTileGrid, x: usize, y: usize, n: &Neighbours)
    requires
        rule_ready(tiles(old(grid)@), x as int, y as int, *n),
    ensures
        tiles(final(grid)@) == cave_rule(tiles(old(grid)@), x as int, y as int, *n),
        rect(tiles(final(grid)@)),
        same_shape(tiles(old(grid)@), tiles(final(grid)@)),
{
    if n.centre {
        if n.up && !n.down {
            let misc_tile = if n.left && n.up_left && n.right && n.up_right {
                PlacedTile::TotemTrap
            } else {
                PlacedTile::BoneBlock
            };
            put_tile(grid, x, y, misc_tile);
            put_tile(grid, x, y - 1, misc_tile);
        }
    } else if n.left != n.right {
        put_tile(grid, x, y, PlacedTile::ArrowTrap);
    }
}

fn place_floormisc_jungle(grid: &mut PlacedTileGrid, rng: &mut Stream, biome: Biome, x: usize, y: usize, n: &Neighbours)
    requires
        rule_ready(tiles(old(grid)@), x as int, y as int, *n),
    ensures
        (tiles(final(grid)@), *final(rng)) == jungle_rule(tiles(old(grid)@), *old(rng), biome, x as int, y as int, *n),
        rect(tiles(final(grid)@)),
        same_shape(tiles(old(grid)@), tiles(final(grid)@)),
{
    let pos = (x, y);
    if !neighbour_empty(grid, pos, Direction::Centre, Some(PlacedTile::Floor)) {
        if n.left || n.right || n.up || n.down {
            let tile = if rng.ratio(1, 2) { PlacedTile::SpearTrap } else { PlacedTile::BushBlock };
            put_tile(grid, x, y, tile);
        }
    } else if neighbour_empty(grid, pos, Direction::Centre, None) && biome == Biome::Beehive {
        if !neighbour_empty(grid, pos, Direction::Up, Some(PlacedTile::FloorStyled)) {
            put_tile(grid, x, y, PlacedTile::HoneyUp);
        } else if !neighbour_empty(grid, pos, Direction::Down, Some(PlacedTile::FloorStyled)) {
            put_tile(grid, x, y, PlacedTile::HoneyDown);
        }
    }
}

fn stamp_chain(grid: &mut PlacedTileGrid, x: usize, y: usize, i: usize)
    requires
        rect(tiles(old(grid)@)),
        i <= 4,
        in_bounds(tiles(old(grid)@), x as int, y as int),
        y + i <= tiles(old(grid)@).len() - 1 || i == 4,
    ensures
        tiles(final(grid)@) == chain(tiles(old(grid)@), x as int, y as int, i as nat),
        rect(tiles(final(grid)@)),
        same_shape(tiles(old(grid)@), tiles(final(grid)@)),
    decreases 4 - i,
{
    if i >= 4 {
        return;
    }
    let h: usize = grid.len();
    assert(tiles(grid@)[(y + i) as int] == grid@[(y + i) as int]@);
    if y + i == h - 1 || i == 3 || grid[y + i][x] != PlacedTile::Empty {
        put_tile(grid, x, y + i, PlacedTile::ChainBot);
    } else {
        put_tile(grid, x, y + i, PlacedTile::ChainMid);
        stamp_chain(grid, x, y, i + 1);
    }
}

fn place_floormisc_volcana(grid: &mut PlacedTileGrid, rng: &mut Stream, x: usize, y: usize, n: &Neighbours)
    requires
        rule_ready(tiles(old(grid)@), x as int, y as int, *n),
    ensures
        (tiles(final(grid)@), *final(rng)) == volcana_rule(tiles(old(grid)@), *old(rng), x as int, y as int, *n),
        rect(tiles(final(grid)@)),
        same_shape(tiles(old(grid)@), tiles(final(grid)@)),
{
    let pos = (x, y);
    if n.centre {
        if !n.down {
            if rng.ratio(1, 100) {
                put_tile(grid, x, y - 1, PlacedTile::UdjatSocketTop);
                put_tile(grid, x, y, PlacedTile::UdjatSocketBot);
            }
        } else if !n.up {
            put_tile(grid, x, y - 1, PlacedTile::ChainTop);
            stamp_chain(grid, x, y, 0);
        }
    } else if n.up && !neighbour_empty(grid, pos, Direction::Down, Some(PlacedTile::Floor)) {
        let tile = if rng.ratio(1, 2) { PlacedTile::ConveyorLeft } else { PlacedTile::ConveyorRight };
        put_tile(grid, x, y, tile);
        if n.left && n.up_left && !neighbour_empty(grid, pos, Direction::DownLeft, Some(PlacedTile::Floor)) {
            put_tile(grid, x - 1, y, tile);
        }
        if n.right && n.up_right && !neighbour_empty(grid, pos, Direction::DownRight, Some(PlacedTile::Floor)) {
            put_tile(grid, x + 1, y, tile);
        }
    }
}

fn place_floormisc_tidepool(grid: &mut PlacedTileGrid, x: usize, y: usize, n: &Neighbours)
    requires
        rule_ready(tiles(old(grid)@), x as int, y as int, *n),
    ensures
        tiles(final(grid)@) == tidepool_rule(tiles(old(grid)@), x as int, y as int, *n),
        rect(tiles(final(grid)@)),
        same_shape(tiles(old(grid)@), tiles(final(grid)@)),
{
    if n.centre && n.up && !n.down && n.left && n.up_left && n.right && n.up_right {
        put_tile(grid, x, y, PlacedTile::LionTrap);
        put_tile(grid, x, y - 1, PlacedTile::LionTrap);
    }
}

fn no_floor(grid: &PlacedTileGrid, pos: (usize, usize), d: Direction) -> (r: bool)
    requires
        rect(tiles(grid@)),
    ensures
        r == no_floor_at(tiles(grid@), pos.0 as int, pos.1 as int, d),
{
    neighbour_empty(grid, pos, d, Some(PlacedTile::Floor))
        && neighbour_empty(grid, pos, d, Some(PlacedTile::FloorStyled))
}

fn place_floormisc_temple(grid: &mut PlacedTileGrid, rng: &mut Stream, x: usize, y: usize, n: &Neighbours)
    requires
        rule_ready(tiles(old(grid)@), x as int, y as int, *n),
    ensures
        (tiles(final(grid)@), *final(rng)) == temple_rule(tiles(old(grid)@), *old(rng), x as int, y as int, *n),
        rect(tiles(final(grid)@)),
        same_shape(tiles(old(grid)@), tiles(final(grid)@)),
{
    let pos = (x, y);
    if !no_floor(grid, pos, Direction::Centre) {
        let right = no_floor(grid, pos, Direction::Right);
        let down = no_floor(grid, pos, Direction::Down);
        let down_right = no_floor(grid, pos, Direction::DownRight);
        if !right && !down && !down_right && rng.ratio(1, 2) {
            put_tile(grid, x, y, PlacedTile::LargeCrushTrapTopLeft);
            put_tile(grid, x + 1, y, PlacedTile::LargeCrushTrapTopRight);
            put_tile(grid, x, y + 1, PlacedTile::LargeCrushTrapBotLeft);
            put_tile(grid, x + 1, y + 1, PlacedTile::LargeCrushTrapBotRight);
        } else if n.left || right || n.up || down {
            put_tile(grid, x, y, PlacedTile::CrushTrap);
        }
    }
}

fn place_floormisc_simple(grid: &mut PlacedTileGrid, biome: Biome, x: usize, y: usize, n: &Neighbours)
    requires
        rule_ready(tiles(old(grid)@), x as int, y as int, *n),
    ensures
        tiles(final(grid)@) == simple_rule(tiles(old(grid)@), biome, x as int, y as int, *n),
        rect(tiles(final(grid)@)),
        same_shape(tiles(old(grid)@), tiles(final(grid)@)),
{
    match biome {
        Biome::Ice => {
            if !n.centre {
                put_tile(grid, x, y, PlacedTile::IceBlock);
            }
        },
        Biome::Babylon => {
            if !n.centre && n.left != n.right {
                put_tile(grid, x, y, PlacedTile::LaserTrap);
            }
        },
        Biome::Sunken => {
            if !n.centre && !n.left && n.right {
                put_tile(grid, x - 1, y, PlacedTile::FrogTrapLeft);
                put_tile(grid, x, y, PlacedTile::FrogTrapRight);
            } else if !n.centre && n.left && !n.right {
                put_tile(grid, x, y, PlacedTile::FrogTrapLeft);
                put_tile(grid, x + 1, y, PlacedTile::FrogTrapRight);
            }
        },
        _ => {},
    }
}

fn choose_altar(biome: Biome, rng: &mut Stream) -> (r: (PlacedTile, PlacedTile))
    ensures
        (r.0, r.1, *final(rng)) == altar_kind(biome, *old(rng)),
{
    match biome {
        Biome::Cave | Biome::Volcana | Biome::TidePool => {
            if rng.ratio(1, 2) {
                (PlacedTile::AltarLeft, PlacedTile::AltarRight)
            } else {
                (PlacedTile::IdolAltarLeft, PlacedTile::IdolAltarRight)
            }
        },
        Biome::Ice => {
            if rng.ratio(3333, 10000) {
                (PlacedTile::AltarLeft, PlacedTile::AltarRight)
            } else if rng.ratio(1, 2) {
                (PlacedTile::EggplantAltarLeft, PlacedTile::EggplantAltarRight)
            } else {
                (PlacedTile::IdolAltarLeft, PlacedTile::IdolAltarRight)
            }
        },
        _ => (PlacedTile::AltarLeft, PlacedTile::AltarRight),
    }
}

fn is_platform_biome(biome: Biome) -> (r: bool)
    ensures
        r == platform_biome(biome),
{
    match biome {
        Biome::Cave | Biome::TidePool | Biome::Surface | Biome::PalaceOfPleasure | Biome::Ice | Biome::Volcana => true,
        _ => false,
    }
}

fn place_floormisc_generic(
    grid: &mut PlacedTileGrid,
    rng: &mut Stream,
    biome: Biome,
    x: usize,
    y: usize,
    n: &Neighbours,
    before: PlacedTile,
    placed_altar: bool,
) -> (placed: bool)
    requires
        rect(tiles(old(grid)@)),
        interior(tiles(old(grid)@), x as int, y as int),
    ensures
        (tiles(final(grid)@), *final(rng), placed) == generic_rule(
            tiles(old(grid)@),
            *old(rng),
            biome,
            x as int,
            y as int,
            *n,
            before,
            placed_altar,
        ),
        rect(tiles(final(grid)@)),
        same_shape(tiles(old(grid)@), tiles(final(grid)@)),
{
    assert(tiles(grid@)[y as int] == grid@[y as int]@);
    if grid[y][x] == before && n.centre {
        if !n.down {
            if !placed_altar && rng.ratio(1, 5) && n.up && ((n.left && !n.down_left && n.up_left) || (n.right
                && !n.down_right && n.up_right)) {
                let (left_type, right_type) = choose_altar(biome, rng);
                if n.left && !n.down_left && n.up_left {
                    put_tile(grid, x - 1, y, left_type);
                    put_tile(grid, x, y, right_type);
                } else {
                    put_tile(grid, x, y, left_type);
                    put_tile(grid, x + 1, y, right_type);
                }
                return true;
            } else if n.left || n.right {
                let tile = if rng.ratio(1, 20) { PlacedTile::PowderKeg } else { PlacedTile::PushBlock };
                put_tile(grid, x, y, tile);
            }
        } else if n.up && is_platform_biome(biome) {
            put_tile(grid, x, y, PlacedTile::Platform);
        }
    }
    placed_altar
}

/// One misc attempt on the grid; returns whether an altar has been placed in the pass.
fn misc_attempt_exec(grid: &mut PlacedTileGrid, rng: &mut Stream, biome: Biome, placed_altar: bool) -> (placed: bool)
    requires
        rect(tiles(old(grid)@)),
        tiles(old(grid)@).len() >= 3,
        width_of(tiles(old(grid)@)) == tiles(old(grid)@).len(),
    ensures
        (tiles(final(grid)@), *final(rng), placed) == misc_attempt(tiles(old(grid)@), *old(rng), biome, placed_altar),
        rect(tiles(final(grid)@)),
        tiles(final(grid)@).len() == tiles(old(grid)@).len(),
        width_of(tiles(final(grid)@)) == width_of(tiles(old(grid)@)),
{
    let h: usize = grid.len();
    let w: usize = grid[0].len();
    let col_idx = rng.next_usize() % (h - 2) + 1;
    let row_idx = rng.next_usize() % (w - 2) + 1;
    let n = neighbours(grid, (col_idx, row_idx));
    assert(tiles(grid@)[row_idx as int] == grid@[row_idx as int]@);
    let before = grid[row_idx][col_idx];
    match biome {
        Biome::Cave => place_floormisc_cave(grid, col_idx, row_idx, &n),
        Biome::Jungle | Biome::Beehive => place_floormisc_jungle(grid, rng, biome, col_idx, row_idx, &n),
        Biome::Volcana => place_floormisc_volcana(grid, rng, col_idx, row_idx, &n),
        Biome::TidePool => place_floormisc_tidepool(grid, col_idx, row_idx, &n),
        Biome::Temple | Biome::CityOfGold => place_floormisc_temple(grid, rng, col_idx, row_idx, &n),
        _ => place_floormisc_simple(grid, biome, col_idx, row_idx, &n),
    }
    place_floormisc_generic(grid, rng, biome, col_idx, row_idx, &n, before, placed_altar)
}

/// An altar half of any kind.
pub open spec fn is_altar(k: PlacedTile) -> bool {
    k.is_altar_left() || k.is_altar_right()
}

/// Every cell of `a` that holds a special tile still holds one in `b`.
pub open spec fn keeps_special(a: Seq<Seq<PlacedTile>>, b: Seq<Seq<PlacedTile>>) -> bool {
    forall|r: int, c: int|
        0 <= r < a.len() && 0 <= c < a[r].len() && a[r][c].is_special() ==> (#[trigger] b[r][c]).is_special()
}

/// No cell holds an altar.
pub open spec fn no_altar(t: Seq<Seq<PlacedTile>>) -> bool {
    forall|r: int, c: int| 0 <= r < t.len() && 0 <= c < t[r].len() ==> !is_altar(#[trigger] t[r][c])
}

/// At most one cell holds a left altar half, and at most one a right altar half.
pub open spec fn at_most_one_altar(t: Seq<Seq<PlacedTile>>) -> bool {
    forall|r1: int, c1: int, r2: int, c2: int|
        0 <= r1 < t.len() && 0 <= c1 < t[r1].len() && 0 <= r2 < t.len() && 0 <= c2 < t[r2].len() ==> {
            &&& (#[trigger] t[r1][c1]).is_altar_left() && (#[trigger] t[r2][c2]).is_altar_left() ==> r1 == r2 && c1 == c2
            &&& t[r1][c1].is_altar_right() && t[r2][c2].is_altar_right() ==> r1 == r2 && c1 == c2
        }
}

/// `b` is `a` with some cells stamped with special tiles that are not altars.
pub open spec fn stamps(a: Seq<Seq<PlacedTile>>, b: Seq<Seq<PlacedTile>>) -> bool {
    &&& b.len() == a.len()
    &&& forall|r: int| 0 <= r < a.len() ==> #[trigger] b[r].len() == a[r].len()
    &&& forall|r: int, c: int|
        0 <= r < a.len() && 0 <= c < a[r].len() ==> (#[trigger] b[r][c]) == a[r][c] || (b[r][c].is_special()
            && !is_altar(b[r][c]))
}

proof fn lemma_put_stamps(t: Seq<Seq<PlacedTile>>, x: int, y: int, k: PlacedTile)
    requires
        0 <= y < t.len(),
        0 <= x < t[y].len(),
        k.is_special(),
        !is_altar(k),
    ensures
        stamps(t, put(t, x, y, k)),
{
}

proof fn lemma_stamps_trans(a: Seq<Seq<PlacedTile>>, b: Seq<Seq<PlacedTile>>, c: Seq<Seq<PlacedTile>>)
    requires
        stamps(a, b),
        stamps(b, c),
    ensures
        stamps(a, c),
{
    assert forall|r: int, k: int| 0 <= r < a.len() && 0 <= k < a[r].len() implies (#[trigger] c[r][k]) == a[r][k]
        || (c[r][k].is_special() && !is_altar(c[r][k])) by {
        assert(b[r].len() == a[r].len());
    }
}

proof fn lemma_put2_stamps(t: Seq<Seq<PlacedTile>>, x1: int, y1: int, k1: PlacedTile, x2: int, y2: int, k2: PlacedTile)
    requires
        rect(t),
        0 <= y1 < t.len(),
        0 <= x1 < width_of(t),
        0 <= y2 < t.len(),
        0 <= x2 < width_of(t),
        k1.is_special(),
        !is_altar(k1),
        k2.is_special(),
        !is_altar(k2),
    ensures
        stamps(t, put(put(t, x1, y1, k1), x2, y2, k2)),
{
    let t1 = put(t, x1, y1, k1);
    lemma_put_stamps(t, x1, y1, k1);
    assert(t1[y2].len() == t[y2].len());
    lemma_put_stamps(t1, x2, y2, k2);
    lemma_stamps_trans(t, t1, put(t1, x2, y2, k2));
}

proof fn lemma_chain_stamps(t: Seq<Seq<PlacedTile>>, x: int, y: int, i: nat)
    requires
        rect(t),
        0 <= x < width_of(t),
        0 <= y,
        i <= 4,
        y + i <= t.len() - 1 || i == 4,
    ensures
        stamps(t, chain(t, x, y, i)),
        rect(chain(t, x, y, i)),
        chain(t, x, y, i).len() == t.len(),
        width_of(chain(t, x, y, i)) == width_of(t),
    decreases 4 - i,
{
    if i >= 4 {
    } else if y + i == t.len() - 1 || i == 3 || t[y + i][x] != PlacedTile::Empty {
        lemma_put_stamps(t, x, y + i, PlacedTile::ChainBot);
    } else {
        let t1 = put(t, x, y + i, PlacedTile::ChainMid);
        lemma_put_stamps(t, x, y + i, PlacedTile::ChainMid);
        assert(t1[0].len() == t[0].len());
        lemma_chain_stamps(t1, x, y, i + 1);
        lemma_stamps_trans(t, t1, chain(t1, x, y, i + 1));
    }
}

proof fn lemma_biome_rule_stamps(t: Seq<Seq<PlacedTile>>, s: Stream, biome: Biome, x: int, y: int, n: Neighbours)
    requires
        rect(t),
        interior(t, x, y),
    ensures
        stamps(t, biome_rule(t, s, biome, x, y, n).0),
{
    let w = width_of(t);
    assert(t[y].len() == w && t[y - 1].len() == w && t[y + 1].len() == w);
    match biome {
        Biome::Cave => {
            if n.centre && n.up && !n.down {
                let m = if n.left && n.up_left && n.right && n.up_right { PlacedTile::TotemTrap } else { PlacedTile::BoneBlock };
                lemma_put2_stamps(t, x, y, m, x, y - 1, m);
            } else if !n.centre && n.left != n.right {
                lemma_put_stamps(t, x, y, PlacedTile::ArrowTrap);
            }
        },
        Biome::Jungle | Biome::Beehive => {
            lemma_put_stamps(t, x, y, PlacedTile::SpearTrap);
            lemma_put_stamps(t, x, y, PlacedTile::BushBlock);
            lemma_put_stamps(t, x, y, PlacedTile::HoneyUp);
            lemma_put_stamps(t, x, y, PlacedTile::HoneyDown);
        },
        Biome::Volcana => {
            lemma_put2_stamps(t, x, y - 1, PlacedTile::UdjatSocketTop, x, y, PlacedTile::UdjatSocketBot);
            let t1 = put(t, x, y - 1, PlacedTile::ChainTop);
            lemma_put_stamps(t, x, y - 1, PlacedTile::ChainTop);
            assert(t1[0].len() == w);
            lemma_chain_stamps(t1, x, y, 0);
            lemma_stamps_trans(t, t1, chain(t1, x, y, 0));
            let (flip, p) = ratio_draw(s.seed, s.pos, 1, 2);
            let tile = if flip { PlacedTile::ConveyorLeft } else { PlacedTile::ConveyorRight };
            let c1 = put(t, x, y, tile);
            lemma_put_stamps(t, x, y, tile);
            lemma_put2_stamps(t, x, y, tile, x - 1, y, tile);
            lemma_put2_stamps(t, x, y, tile, x + 1, y, tile);
            let c2 = put(c1, x - 1, y, tile);
            assert(c2 == put(put(t, x, y, tile), x - 1, y, tile));
            assert(c2[y].len() == w && c2[0].len() == w);
            lemma_put_stamps(c2, x + 1, y, tile);
            lemma_stamps_trans(t, c2, put(c2, x + 1, y, tile));
        },
        Biome::TidePool => {
            lemma_put2_stamps(t, x, y, PlacedTile::LionTrap, x, y - 1, PlacedTile::LionTrap);
        },
        Biome::Temple | Biome::CityOfGold => {
            lemma_put_stamps(t, x, y, PlacedTile::CrushTrap);
            let t1 = put(t, x, y, PlacedTile::LargeCrushTrapTopLeft);
            let t2 = put(t1, x + 1, y, PlacedTile::LargeCrushTrapTopRight);
            let t3 = put(t2, x, y + 1, PlacedTile::LargeCrushTrapBotLeft);
            lemma_put2_stamps(t, x, y, PlacedTile::LargeCrushTrapTopLeft, x + 1, y, PlacedTile::LargeCrushTrapTopRight);
            assert(t2[0].len() == w && t2[y + 1].len() == w);
            lemma_put2_stamps(t2, x, y + 1, PlacedTile::LargeCrushTrapBotLeft, x + 1, y + 1, PlacedTile::LargeCrushTrapBotRight);
            lemma_stamps_trans(t, t2, put(t3, x + 1, y + 1, PlacedTile::LargeCrushTrapBotRight));
        },
        _ => {
            lemma_put_stamps(t, x, y, PlacedTile::IceBlock);
            lemma_put_stamps(t, x, y, PlacedTile::LaserTrap);
            lemma_put2_stamps(t, x - 1, y, PlacedTile::FrogTrapLeft, x, y, PlacedTile::FrogTrapRight);
            lemma_put2_stamps(t, x, y, PlacedTile::FrogTrapLeft, x + 1, y, PlacedTile::FrogTrapRight);
        },
    }
}

proof fn lemma_stamps_keeps(a: Seq<Seq<PlacedTile>>, b: Seq<Seq<PlacedTile>>)
    requires
        stamps(a, b),
    ensures
        keeps_special(a, b),
        no_altar(a) ==> no_altar(b),
        at_most_one_altar(a) ==> at_most_one_altar(b),
{
    assert forall|r: int, c: int| 0 <= r < a.len() && 0 <= c < a[r].len() && a[r][c].is_special()
        implies (#[trigger] b[r][c]).is_special() by {}
    if no_altar(a) {
        assert forall|r: int, c: int| 0 <= r < b.len() && 0 <= c < b[r].len() implies !is_altar(#[trigger] b[r][c]) by {
            assert(b[r].len() == a[r].len());
        }
    }
    if at_most_one_altar(a) {
        assert forall|r1: int, c1: int, r2: int, c2: int|
            0 <= r1 < b.len() && 0 <= c1 < b[r1].len() && 0 <= r2 < b.len() && 0 <= c2 < b[r2].len() implies {
                &&& (#[trigger] b[r1][c1]).is_altar_left() && (#[trigger] b[r2][c2]).is_altar_left() ==> r1 == r2 && c1 == c2
                &&& b[r1][c1].is_altar_right() && b[r2][c2].is_altar_right() ==> r1 == r2 && c1 == c2
            } by {
            assert(b[r1].len() == a[r1].len() && b[r2].len() == a[r2].len());
            assert(a[r1][c1] == a[r1][c1] && a[r2][c2] == a[r2][c2]);
        }
    }
}

proof fn lemma_no_altar_at_most_one(t: Seq<Seq<PlacedTile>>)
    requires
        no_altar(t),
    ensures
        at_most_one_altar(t),
{
    assert forall|r1: int, c1: int, r2: int, c2: int|
        0 <= r1 < t.len() && 0 <= c1 < t[r1].len() && 0 <= r2 < t.len() && 0 <= c2 < t[r2].len() implies {
            &&& (#[trigger] t[r1][c1]).is_altar_left() && (#[trigger] t[r2][c2]).is_altar_left() ==> r1 == r2 && c1 == c2
            &&& t[r1][c1].is_altar_right() && t[r2][c2].is_altar_right() ==> r1 == r2 && c1 == c2
        } by {
        assert(!is_altar(t[r1][c1]));
    }
}

/// What holds of the grid and the altar flag between attempts: before the altar no
/// cell holds an altar, and after it at most one cell holds each half.
pub open spec fn altar_invariant(t: Seq<Seq<PlacedTile>>, placed_altar: bool) -> bool {
    if placed_altar { at_most_one_altar(t) } else { no_altar(t) }
}

/// Every cell that differs between `a` and `b` holds a special tile in `b`.
pub open spec fn only_special_changes(a: Seq<Seq<PlacedTile>>, b: Seq<Seq<PlacedTile>>) -> bool {
    forall|r: int, c: int|
        0 <= r < a.len() && 0 <= c < a[r].len() && (#[trigger] b[r][c]) != a[r][c] ==> b[r][c].is_special()
}

/// Two rectangular grids of the same size.
pub open spec fn same_rect(a: Seq<Seq<PlacedTile>>, b: Seq<Seq<PlacedTile>>) -> bool {
    rect(a) && rect(b) && a.len() == b.len() && width_of(a) == width_of(b)
}

proof fn lemma_stamps_changes(a: Seq<Seq<PlacedTile>>, b: Seq<Seq<PlacedTile>>)
    requires
        stamps(a, b),
    ensures
        keeps_special(a, b),
        only_special_changes(a, b),
{
    lemma_stamps_keeps(a, b);
}

proof fn lemma_changes_compose(a: Seq<Seq<PlacedTile>>, b: Seq<Seq<PlacedTile>>, c: Seq<Seq<PlacedTile>>)
    requires
        same_rect(a, b),
        same_rect(b, c),
        keeps_special(a, b),
        only_special_changes(a, b),
        keeps_special(b, c),
        only_special_changes(b, c),
    ensures
        keeps_special(a, c),
        only_special_changes(a, c),
{
    assert forall|r: int, k: int| 0 <= r < a.len() && 0 <= k < a[r].len() && a[r][k].is_special()
        implies (#[trigger] c[r][k]).is_special() by {
        assert(a[r].len() == width_of(a) && b[r].len() == width_of(b));
        assert(b[r][k].is_special());
    }
    assert forall|r: int, k: int| 0 <= r < a.len() && 0 <= k < a[r].len() && (#[trigger] c[r][k]) != a[r][k]
        implies c[r][k].is_special() by {
        assert(a[r].len() == width_of(a) && b[r].len() == width_of(b));
        if c[r][k] == b[r][k] {
            assert(b[r][k] != a[r][k]);
        }
    }
}

/// One misc attempt keeps every special tile special, changes cells only into special
/// tiles, and keeps the altar invariant.
pub proof fn lemma_misc_attempt_laws(t: Seq<Seq<PlacedTile>>, s: Stream, biome: Biome, placed_altar: bool)
    requires
        rect(t),
        t.len() >= 3,
        width_of(t) == t.len(),
    ensures
        ({
            let (t2, _, pos2) = misc_attempt(t, s, biome, placed_altar);
            &&& same_rect(t, t2)
            &&& keeps_special(t, t2)
            &&& only_special_changes(t, t2)
            &&& altar_invariant(t, placed_altar) ==> altar_invariant(t2, pos2)
        }),
{
    let (a, pos1) = usize_draw(s.seed, s.pos);
    let (b, pp) = usize_draw(s.seed, pos1);
    let x = (a as int) % (t.len() - 2) + 1;
    let y = (b as int) % (width_of(t) - 2) + 1;
    let n = neighbours_at(t, x, y);
    let (t1, s1) = biome_rule(t, advanced(s, pp), biome, x, y, n);
    let w = width_of(t);
    lemma_biome_rule_stamps(t, advanced(s, pp), biome, x, y, n);
    lemma_stamps_changes(t, t1);
    assert(t1[0].len() == w && t1[y].len() == w);
    assert(rect(t1));
    let (t2, s2, pos2) = generic_rule(t1, s1, biome, x, y, n, t[y][x], placed_altar);
    assert(misc_attempt(t, s, biome, placed_altar) == (t2, s2, pos2));
    if t2 == t1 {
        if altar_invariant(t, placed_altar) {
            lemma_stamps_keeps(t, t1);
        }
    } else if pos2 != placed_altar {
        // The altar branch: two halves on a grid that held none.
        assert(!placed_altar);
        assert(t2[0].len() == w);
        assert(forall|r: int| 0 <= r < t2.len() ==> #[trigger] t2[r].len() == t1[r].len());
        assert(rect(t2));
        assert(keeps_special(t1, t2));
        assert(only_special_changes(t1, t2));
        lemma_changes_compose(t, t1, t2);
        if altar_invariant(t, placed_altar) {
            lemma_stamps_keeps(t, t1);
            assert(no_altar(t1));
            assert(at_most_one_altar(t2)) by {
                assert forall|r1: int, c1: int, r2: int, c2: int|
                    0 <= r1 < t2.len() && 0 <= c1 < t2[r1].len() && 0 <= r2 < t2.len() && 0 <= c2 < t2[r2].len() implies {
                        &&& (#[trigger] t2[r1][c1]).is_altar_left() && (#[trigger] t2[r2][c2]).is_altar_left() ==> r1 == r2 && c1 == c2
                        &&& t2[r1][c1].is_altar_right() && t2[r2][c2].is_altar_right() ==> r1 == r2 && c1 == c2
                    } by {
                    assert(t1[r1].len() == w && t1[r2].len() == w);
                    assert(!is_altar(t1[r1][c1]) && !is_altar(t1[r2][c2]));
                }
            }
        }
    } else {
        lemma_put_stamps(t1, x, y, PlacedTile::PowderKeg);
        lemma_put_stamps(t1, x, y, PlacedTile::PushBlock);
        lemma_put_stamps(t1, x, y, PlacedTile::Platform);
        lemma_stamps_changes(t1, t2);
        lemma_stamps_keeps(t1, t2);
        assert(t2[0].len() == w);
        assert(rect(t2));
        lemma_changes_compose(t, t1, t2);
        if altar_invariant(t, placed_altar) {
            lemma_stamps_keeps(t, t1);
        }
    }
}

/// Over a whole misc pass: no cell that once holds a special tile is turned back into
/// floor, styled floor or empty; every cell that changes ends up holding a special tile;
/// and when the grid started with no altar, at most one cell ends up holding each half
/// of an altar.
pub proof fn lemma_misc_attempts_laws(t: Seq<Seq<PlacedTile>>, s: Stream, biome: Biome, count: nat)
    requires
        rect(t),
        t.len() >= 3,
        width_of(t) == t.len(),
    ensures
        ({
            let (t2, _, pos2) = misc_attempts(t, s, biome, false, count);
            &&& same_rect(t, t2)
            &&& keeps_special(t, t2)
            &&& only_special_changes(t, t2)
            &&& no_altar(t) ==> altar_invariant(t2, pos2)
            &&& no_altar(t) ==> at_most_one_altar(t2)
        }),
    decreases count,
{
    if count == 0 {
        if no_altar(t) {
            lemma_no_altar_at_most_one(t);
        }
    } else {
        let (t1, s1, pos1) = misc_attempts(t, s, biome, false, (count - 1) as nat);
        lemma_misc_attempts_laws(t, s, biome, (count - 1) as nat);
        lemma_misc_attempt_laws(t1, s1, biome, pos1);
        let (t2, _, pos2) = misc_attempt(t1, s1, biome, pos1);
        lemma_changes_compose(t, t1, t2);
        if no_altar(t) && !pos2 {
            lemma_no_altar_at_most_one(t2);
        }
    }
}

impl GridGenerator {
    /// Pass C: `config.max_misc` misc attempts over the grid of the earlier passes.
    pub fn place_floormisc_tiles(
        &self,
        biome: &Biome,
        config: &Spelunkicon,
        rng: &mut Stream,
        grid: PlacedTileGrid,
    ) -> (r: PlacedTileGrid)
        requires
            config.wf(),
            is_grid(tiles(grid@), config.grid_width as nat, config.grid_height as nat),
        ensures
            ({
                let (t, s, _) = misc_attempts(tiles(grid@), *old(rng), *biome, false, config.max_misc as nat);
                tiles(r@) == t && *final(rng) == s
            }),
            is_grid(tiles(r@), config.grid_width as nat, config.grid_height as nat),
            keeps_special(tiles(grid@), tiles(r@)),
            only_special_changes(tiles(grid@), tiles(r@)),
            no_altar(tiles(grid@)) ==> at_most_one_altar(tiles(r@)),
    {
        let biome = *biome;
        let mut grid = grid;
        let ghost t0 = tiles(grid@);
        let mut placed_altar = false;
        let mut k: u8 = 0;
        assert(rect(t0)) by {
            assert(t0[0].len() == config.grid_width);
        }
        while k < config.max_misc
            invariant
                config.wf(),
                rect(tiles(grid@)),
                tiles(grid@).len() == config.grid_height,
                width_of(tiles(grid@)) == config.grid_width,
                k <= config.max_misc,
                (tiles(grid@), *rng, placed_altar) == misc_attempts(t0, *old(rng), biome, false, k as nat),
            decreases config.max_misc - k,
        {
            placed_altar = misc_attempt_exec(&mut grid, rng, biome, placed_altar);
            k = k + 1;
        }
        proof {
            lemma_misc_attempts_laws(t0, *old(rng), biome, config.max_misc as nat);
        }
        grid
    }
}

} // verus!
