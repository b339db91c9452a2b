use vstd::prelude::*;
use crate::atlas::{
    floor_atlas, spec_floor_atlas, spec_styled_atlas, styled_atlas, Atlas, Blit, Draw, TILE_HEIGHT,
    TILE_WIDTH,
};
use crate::autotile::{get_floor_styled_texture_coords, styled_coords, styled_mask_at, styled_neighbour_mask};
use crate::biome::Biome;
use crate::grid::{is_grid, neighbour_empty, neighbour_empty_at, rect, tiles, width_of, Direction, PlacedTile, PlacedTileGrid};
use crate::misc::advanced;
use crate::rng::{choose_draw, range_draw, ratio_draw, u32_draw, Stream};
use crate::seed::{occupancy_grid, Spelunkicon};

verus! {

/// What painting has produced so far: the draw commands in order, the stream, and
/// whether a rare character has been drawn already.
pub type Paint = (Seq<Draw>, Stream, bool);

/// The paint after visiting, in row-major order, every cell of the rows before `r` and
/// the first `c` cells of row `r` of a grid `w` cells wide, each with `f`.
pub open spec fn fold_cells(f: spec_fn(Paint, int, int) -> Paint, init: Paint, w: nat, r: nat, c: nat) -> Paint
    decreases r, c,
{
    if c == 0 {
        if r == 0 {
            init
        } else {
            fold_cells(f, init, w, (r - 1) as nat, w)
        }
    } else {
        f(fold_cells(f, init, w, r, (c - 1) as nat), (c - 1) as int, r as int)
    }
}

pub open spec fn tile_draw(atlas: Atlas, tx: u32, ty: u32, x: int, y: int) -> Draw {
    Draw { atlas, tile_x: tx, tile_y: ty, x: x as i64, y: y as i64, blit: Blit::Tile }
}

pub open spec fn flipped_draw(atlas: Atlas, tx: u32, ty: u32, x: int, y: int) -> Draw {
    Draw { atlas, tile_x: tx, tile_y: ty, x: x as i64, y: y as i64, blit: Blit::Flipped }
}

pub open spec fn whole_draw(atlas: Atlas, x: int, y: int) -> Draw {
    Draw { atlas, tile_x: 0, tile_y: 0, x: x as i64, y: y as i64, blit: Blit::Whole }
}

/// Pixel column of grid column `c`.
pub open spec fn px(c: int) -> int {
    c * TILE_WIDTH
}

/// Pixel row of grid row `r`.
pub open spec fn py(r: int) -> int {
    r * TILE_HEIGHT
}

/// The painting passes. The texture set is the caller's concern: the passes decide
/// which atlas tiles go where, the same in either set.
pub struct GridRenderer {
    pub classic_mode: bool,
}

impl GridRenderer {
    pub fn new(classic_mode: bool) -> (r: GridRenderer)
        ensures
            r.classic_mode == classic_mode,
    {
        GridRenderer { classic_mode }
    }
}

/// The paint being built: the draw commands, the stream and the rare-character flag.
pub struct Canvas {
    pub draws: Vec<Draw>,
    pub rng: Stream,
    pub placed_egg: bool,
}

impl Canvas {
    pub open spec fn paint(&self) -> Paint {
        (self.draws@, self.rng, self.placed_egg)
    }

    /// An empty canvas over the stream `rng`.
    pub fn new(rng: Stream) -> (r: Canvas)
        ensures
            r.paint() == (Seq::<Draw>::empty(), rng, false),
    {
        Canvas { draws: Vec::new(), rng, placed_egg: false }
    }

    pub fn push_draw(&mut self, atlas: Atlas, tx: u32, ty: u32, x: i64, y: i64, blit: Blit)
        ensures
            final(self).paint() == (
                old(self).draws@.push(Draw { atlas, tile_x: tx, tile_y: ty, x, y, blit }),
                old(self).rng,
                old(self).placed_egg,
            ),
    {
        self.draws.push(Draw { atlas, tile_x: tx, tile_y: ty, x, y, blit });
    }
}

// ---------------------------------------------------------------- plain floor

/// A plain floor cell gets one of the four base tiles of the biome's floor atlas,
/// chosen at random.
pub open spec fn floor_cell(t: Seq<Seq<PlacedTile>>, atlas: Atlas, acc: Paint, x: int, y: int) -> Paint {
    if t[y][x] == PlacedTile::Floor {
        let (k, p) = choose_draw(acc.1.seed, acc.1.pos, 4);
        (acc.0.push(tile_draw(atlas, (k % 2) as u32, (k / 2) as u32, px(x), py(y))), advanced(acc.1, p), acc.2)
    } else {
        acc
    }
}

pub open spec fn floor_paint(t: Seq<Seq<PlacedTile>>, atlas: Atlas, init: Paint) -> Paint {
    fold_cells(|acc: Paint, x: int, y: int| floor_cell(t, atlas, acc, x, y), init, width_of(t), t.len(), 0)
}

impl GridRenderer {
    /// Paints the plain floor cells.
    pub fn render_floor_tiles(&self, canvas: &mut Canvas, biome: &Biome, grid: &PlacedTileGrid)
        requires
            rect(tiles(grid@)),
            spec_floor_atlas(*biome) is Some,
        ensures
            final(canvas).paint() == floor_paint(tiles(grid@), spec_floor_atlas(*biome)->Some_0, old(canvas).paint()),
    {
        let biome = *biome;
        let atlas = floor_atlas(biome).unwrap();
        let ghost t = tiles(grid@);
        let ghost f = |acc: Paint, x: int, y: int| floor_cell(t, atlas, acc, x, y);
        let ghost init = canvas.paint();
        let h: usize = grid.len();
        let w: usize = if h > 0 { grid[0].len() } else { 0 };
        let mut r: usize = 0;
        while r < h
            invariant
                t == tiles(grid@),
                rect(t),
                h == t.len(),
                w == width_of(t),
                r <= h,
                f == (|acc: Paint, x: int, y: int| floor_cell(t, atlas, acc, x, y)),
                canvas.paint() == fold_cells(f, init, w as nat, r as nat, 0),
            decreases h - r,
        {
            let mut c: usize = 0;
            while c < w
                invariant
                    t == tiles(grid@),
                    rect(t),
                    h == t.len(),
                    w == width_of(t),
                    r < h,
                    c <= w,
                    f == (|acc: Paint, x: int, y: int| floor_cell(t, atlas, acc, x, y)),
                    canvas.paint() == fold_cells(f, init, w as nat, r as nat, c as nat),
                decreases w - c,
            {
                assert(t[r as int] == grid@[r as int]@);
                if grid[r][c] == PlacedTile::Floor {
                    let k = canvas.rng.choose_index(4);
                    canvas.push_draw(atlas, (k % 2) as u32, (k / 2) as u32, c as i64 * TILE_WIDTH, r as i64 * TILE_HEIGHT, Blit::Tile);
                }
                c = c + 1;
            }
            r = r + 1;
        }
        if h > 0 {
            assert(canvas.paint() == fold_cells(f, init, w as nat, h as nat, 0));
        }
    }
}

// ---------------------------------------------------------------- styled floor

/// A styled floor cell gets the atlas tile that its neighbour mask resolves to.
pub open spec fn styled_cell(t: Seq<Seq<PlacedTile>>, atlas: Atlas, acc: Paint, x: int, y: int) -> Paint {
    if t[y][x] == PlacedTile::FloorStyled {
        let (ix, iy) = styled_coords(styled_mask_at(t, x, y) as u8);
        (acc.0.push(tile_draw(atlas, ix, iy, px(x), py(y))), acc.1, acc.2)
    } else {
        acc
    }
}

pub open spec fn styled_paint(t: Seq<Seq<PlacedTile>>, atlas: Atlas, init: Paint) -> Paint {
    fold_cells(|acc: Paint, x: int, y: int| styled_cell(t, atlas, acc, x, y), init, width_of(t), t.len(), 0)
}

impl GridRenderer {
    /// Paints the styled floor cells, each autotiled against its styled neighbours.
    pub fn render_floorstyled_tiles(&self, canvas: &mut Canvas, biome: &Biome, grid: &PlacedTileGrid)
        requires
            rect(tiles(grid@)),
            spec_styled_atlas(*biome) is Some,
        ensures
            final(canvas).paint() == styled_paint(tiles(grid@), spec_styled_atlas(*biome)->Some_0, old(canvas).paint()),
    {
        let biome = *biome;
        let atlas = styled_atlas(biome).unwrap();
        let ghost t = tiles(grid@);
        let ghost f = |acc: Paint, x: int, y: int| styled_cell(t, atlas, acc, x, y);
        let ghost init = canvas.paint();
        let h: usize = grid.len();
        let w: usize = if h > 0 { grid[0].len() } else { 0 };
        let mut r: usize = 0;
        while r < h
            invariant
                t == tiles(grid@),
                rect(t),
                h == t.len(),
                w == width_of(t),
                r <= h,
                f == (|acc: Paint, x: int, y: int| styled_cell(t, atlas, acc, x, y)),
                canvas.paint() == fold_cells(f, init, w as nat, r as nat, 0),
            decreases h - r,
        {
            let mut c: usize = 0;
            while c < w
                invariant
                    t == tiles(grid@),
                    rect(t),
                    h == t.len(),
                    w == width_of(t),
                    r < h,
                    c <= w,
                    f == (|acc: Paint, x: int, y: int| styled_cell(t, atlas, acc, x, y)),
                    canvas.paint() == fold_cells(f, init, w as nat, r as nat, c as nat),
                decreases w - c,
            {
                assert(t[r as int] == grid@[r as int]@);
                if grid[r][c] == PlacedTile::FloorStyled {
                    let mask = styled_neighbour_mask(grid, (c, r));
                    let (ix, iy) = get_floor_styled_texture_coords(mask);
                    canvas.push_draw(atlas, ix, iy, c as i64 * TILE_WIDTH, r as i64 * TILE_HEIGHT, Blit::Tile);
                }
                c = c + 1;
            }
            r = r + 1;
        }
    }
}

// ---------------------------------------------------------------- special tiles

/// The floor atlas that special tiles borrow from: the biome's own, else the cave's.
pub open spec fn misc_floor_atlas(biome: Biome) -> Atlas {
    match spec_floor_atlas(biome) {
        Some(a) => a,
        None => Atlas::FloorCave,
    }
}

/// The styled atlas that special tiles borrow from: the biome's own, else the stone one.
pub open spec fn misc_styled_atlas(biome: Biome) -> Atlas {
    match spec_styled_atlas(biome) {
        Some(a) => a,
        None => Atlas::StyledStone,
    }
}

/// The tiles of a platform that hangs down column `x` from below row `y`: from step `i`
/// on, a rope tile per open cell, ending in the bottom tile above the first occupied cell
/// or at the grid's last row.
pub open spec fn platform_rope(
    t: Seq<Seq<PlacedTile>>,
    sheet: Atlas,
    ix: u32,
    iy: u32,
    x: int,
    y: int,
    i: nat,
    d: Seq<Draw>,
) -> Seq<Draw>
    decreases t.len() - i,
{
    if i >= t.len() {
        d
    } else if y + i + 1 >= t.len() || t[y + i + 1][x] != PlacedTile::Empty {
        d.push(tile_draw(sheet, ix, (iy + 1) as u32, px(x), py(y) + i * TILE_HEIGHT))
    } else {
        platform_rope(t, sheet, ix, iy, x, y, i + 1, d.push(tile_draw(sheet, ix, iy, px(x), py(y) + i * TILE_HEIGHT)))
    }
}

/// How an altar half is painted at `(x, y)`.
pub open spec fn misc_altar_cell(t: Seq<Seq<PlacedTile>>, biome: Biome, acc: Paint, x: int, y: int) -> Paint {
    let d = acc.0;
    let s = acc.1;
    let egg = acc.2;
    let bs = misc_floor_atlas(biome);
    let ss = misc_styled_atlas(biome);
    let fm = Atlas::FloorMisc;
    let xp = px(x);
    let yp = py(y);
    let gold = biome == Biome::CityOfGold;
    match t[y][x] {
        PlacedTile::AltarLeft => (d.push(tile_draw(fm, 2, 0, xp, yp)), s, egg),
        PlacedTile::AltarRight => (d.push(tile_draw(fm, 3, 0, xp, yp)), s, egg),
        PlacedTile::IdolAltarLeft => (d.push(tile_draw(bs, 10, 0, xp, yp)), s, egg),
        PlacedTile::IdolAltarRight => {
            let d1 = d.push(tile_draw(bs, 11, 0, xp, yp));
            let (lucky, s1) = if biome == Biome::Volcana && !egg {
                let (b, p) = ratio_draw(s.seed, s.pos, 3, 10);
                (b, advanced(s, p))
            } else {
                (false, s)
            };
            if lucky {
                (
                    d1.push(whole_draw(Atlas::CharPrecious, xp - TILE_WIDTH + 8, yp - TILE_HEIGHT + 8)).push(
                        tile_draw(Atlas::Items, 15, 1, xp - TILE_WIDTH / 2, yp - TILE_HEIGHT + 13),
                    ),
                    s1,
                    true,
                )
            } else {
                (d1.push(tile_draw(Atlas::Items, 15, 1, xp - TILE_WIDTH / 2, yp - TILE_HEIGHT + 18)), s1, egg)
            }
        },
        PlacedTile::EggplantAltarLeft => (d.push(tile_draw(bs, 10, 2, xp, yp)), s, egg),
        PlacedTile::EggplantAltarRight => (d.push(tile_draw(bs, 11, 2, xp, yp)), s, egg),
        _ => acc,
    }
}

/// How a trap is painted at `(x, y)`.
pub open spec fn misc_trap_cell(t: Seq<Seq<PlacedTile>>, biome: Biome, acc: Paint, x: int, y: int) -> Paint {
    let d = acc.0;
    let s = acc.1;
    let egg = acc.2;
    let bs = misc_floor_atlas(biome);
    let ss = misc_styled_atlas(biome);
    let fm = Atlas::FloorMisc;
    let xp = px(x);
    let yp = py(y);
    let gold = biome == Biome::CityOfGold;
    match t[y][x] {
        PlacedTile::ArrowTrap | PlacedTile::LaserTrap => {
            let (ix, iy) = match biome {
                Biome::Sunken => (6u32, 0u32),
                Biome::Babylon => (5u32, 4u32),
                _ => (1u32, 0u32),
            };
            if neighbour_empty_at(t, x, y, Direction::Left, None) {
                (d.push(flipped_draw(fm, ix, iy, xp, yp)), s, egg)
            } else {
                (d.push(tile_draw(fm, ix, iy, xp, yp)), s, egg)
            }
        },
        PlacedTile::TotemTrap | PlacedTile::LionTrap => {
            let ix: u32 = if biome == Biome::TidePool { 5 } else { 4 };
            let stacked = y > 0 && t[y - 1][x] == t[y][x];
            (d.push(tile_draw(fm, ix, if stacked { 1 } else { 0 }, xp, yp)), s, egg)
        },
        PlacedTile::SpearTrap => (d.push(tile_draw(fm, 5, 3, xp, yp)), s, egg),
        PlacedTile::FrogTrapLeft => (d.push(tile_draw(bs, 8, 9, xp, yp)), s, egg),
        PlacedTile::FrogTrapRight => (d.push(tile_draw(bs, 9, 9, xp, yp)), s, egg),
        PlacedTile::CrushTrap => (d.push(if gold { tile_draw(ss, 9, 0, xp, yp) } else { tile_draw(fm, 0, 6, xp, yp) }), s, egg),
        PlacedTile::LargeCrushTrapTopLeft => (d.push(if gold { tile_draw(ss, 6, 0, xp, yp) } else { tile_draw(fm, 0, 4, xp, yp) }), s, egg),
        PlacedTile::LargeCrushTrapTopRight => (d.push(if gold { tile_draw(ss, 7, 0, xp, yp) } else { tile_draw(fm, 1, 4, xp, yp) }), s, egg),
        PlacedTile::LargeCrushTrapBotLeft => (d.push(if gold { tile_draw(ss, 6, 1, xp, yp) } else { tile_draw(fm, 0, 5, xp, yp) }), s, egg),
        PlacedTile::LargeCrushTrapBotRight => (d.push(if gold { tile_draw(ss, 7, 1, xp, yp) } else { tile_draw(fm, 1, 5, xp, yp) }), s, egg),
        _ => acc,
    }
}

/// How a block, chain or platform is painted at `(x, y)`.
pub open spec fn misc_block_cell(t: Seq<Seq<PlacedTile>>, biome: Biome, acc: Paint, x: int, y: int) -> Paint {
    let d = acc.0;
    let s = acc.1;
    let egg = acc.2;
    let bs = misc_floor_atlas(biome);
    let ss = misc_styled_atlas(biome);
    let fm = Atlas::FloorMisc;
    let xp = px(x);
    let yp = py(y);
    let gold = biome == Biome::CityOfGold;
    match t[y][x] {
        PlacedTile::BushBlock | PlacedTile::BoneBlock => (d.push(tile_draw(bs, 10, 2, xp, yp)), s, egg),
        PlacedTile::IceBlock => {
            let (lucky, s1) = if !egg {
                let (b, p) = ratio_draw(s.seed, s.pos, 1, 5);
                (b, advanced(s, p))
            } else {
                (false, s)
            };
            let d1 = if lucky { d.push(whole_draw(Atlas::CharBeg, xp, yp)) } else { d };
            let ice = Draw { atlas: bs, tile_x: 7, tile_y: 1, x: (xp - 4) as i64, y: (yp - 4) as i64, blit: Blit::Ice };
            (d1.push(ice), s1, egg || lucky)
        },
        PlacedTile::ChainTop => (d.push(tile_draw(bs, 4, 0, xp, yp)).push(tile_draw(bs, 7, 1, xp, yp)), s, egg),
        PlacedTile::ChainMid => (d.push(tile_draw(bs, 4, 1, xp, yp)), s, egg),
        PlacedTile::ChainBot => (d.push(tile_draw(bs, 4, 2, xp, yp)).push(tile_draw(bs, 7, 3, xp, yp)), s, egg),
        PlacedTile::Platform => match biome {
            Biome::Cave | Biome::TidePool | Biome::Surface | Biome::PalaceOfPleasure => {
                let (ix, iy) = match biome {
                    Biome::TidePool => (7u32, 3u32),
                    Biome::PalaceOfPleasure => (9u32, 2u32),
                    _ => (1u32, 1u32),
                };
                let sheet = if biome == Biome::PalaceOfPleasure { ss } else { fm };
                if !neighbour_empty_at(t, x, y, Direction::Down, None) {
                    (d.push(tile_draw(sheet, (ix - 1) as u32, iy, xp, yp)), s, egg)
                } else {
                    (platform_rope(t, sheet, ix, (iy + 1) as u32, x, y, 1, d.push(tile_draw(sheet, ix, iy, xp, yp))), s, egg)
                }
            },
            Biome::Ice | Biome::Volcana => (d.push(tile_draw(bs, 4, 5, xp, yp)), s, egg),
            _ => acc,
        },
        _ => acc,
    }
}

/// How the remaining special tiles are painted at `(x, y)`.
pub open spec fn misc_other_cell(t: Seq<Seq<PlacedTile>>, biome: Biome, acc: Paint, x: int, y: int) -> Paint {
    let d = acc.0;
    let s = acc.1;
    let egg = acc.2;
    let bs = misc_floor_atlas(biome);
    let ss = misc_styled_atlas(biome);
    let fm = Atlas::FloorMisc;
    let xp = px(x);
    let yp = py(y);
    let gold = biome == Biome::CityOfGold;
    match t[y][x] {
        PlacedTile::UdjatSocketTop => {
            let (b, p) = ratio_draw(s.seed, s.pos, 1, 2);
            (d.push(tile_draw(fm, if b { 5 } else { 4 }, 5, xp, yp)), advanced(s, p), egg)
        },
        PlacedTile::UdjatSocketBot => (d.push(tile_draw(Atlas::StyledBabylon, 7, 2, xp, yp)), s, egg),
        PlacedTile::ConveyorLeft => (d.push(tile_draw(bs, 11, 11, xp, yp)), s, egg),
        PlacedTile::ConveyorRight => (d.push(tile_draw(bs, 11, 10, xp, yp)), s, egg),
        PlacedTile::PushBlock => {
            let gold_or_duat = biome == Biome::CityOfGold || biome == Biome::Duat;
            let sheet = if gold_or_duat { ss } else if biome == Biome::Surface { Atlas::FloorCave } else { bs };
            (d.push(tile_draw(sheet, if gold_or_duat { 9 } else { 7 }, 0, xp, yp)), s, egg)
        },
        PlacedTile::PowderKeg => (d.push(tile_draw(fm, 2, 2, xp, yp)), s, egg),
        PlacedTile::HoneyUp => (d.push(tile_draw(Atlas::Items, 14, 14, xp, yp - 22)), s, egg),
        PlacedTile::HoneyDown => (d.push(tile_draw(Atlas::Items, 13, 14, xp, yp + 22)), s, egg),
        _ => acc,
    }
}

/// How a special tile is painted at `(x, y)`; other cells are left to other passes.
pub open spec fn misc_cell(t: Seq<Seq<PlacedTile>>, biome: Biome, acc: Paint, x: int, y: int) -> Paint {
    match t[y][x] {
        PlacedTile::AltarLeft | PlacedTile::AltarRight | PlacedTile::IdolAltarLeft | PlacedTile::IdolAltarRight | PlacedTile::EggplantAltarLeft | PlacedTile::EggplantAltarRight => misc_altar_cell(t, biome, acc, x, y),
        PlacedTile::ArrowTrap | PlacedTile::LaserTrap | PlacedTile::TotemTrap | PlacedTile::LionTrap | PlacedTile::SpearTrap | PlacedTile::FrogTrapLeft | PlacedTile::FrogTrapRight | PlacedTile::CrushTrap | PlacedTile::LargeCrushTrapTopLeft | PlacedTile::LargeCrushTrapTopRight | PlacedTile::LargeCrushTrapBotLeft | PlacedTile::LargeCrushTrapBotRight => misc_trap_cell(t, biome, acc, x, y),
        PlacedTile::BushBlock | PlacedTile::BoneBlock | PlacedTile::IceBlock | PlacedTile::ChainTop | PlacedTile::ChainMid | PlacedTile::ChainBot | PlacedTile::Platform => misc_block_cell(t, biome, acc, x, y),
        _ => misc_other_cell(t, biome, acc, x, y),
    }
}

pub open spec fn misc_paint(t: Seq<Seq<PlacedTile>>, biome: Biome, init: Paint) -> Paint {
    fold_cells(|acc: Paint, x: int, y: int| misc_cell(t, biome, acc, x, y), init, width_of(t), t.len(), 0)
}

fn render_platform_rope(canvas: &mut Canvas, grid: &PlacedTileGrid, sheet: Atlas, ix: u32, iy: u32, x: usize, y: usize, i: usize)
    requires
        rect(tiles(grid@)),
        x < width_of(tiles(grid@)),
        y < tiles(grid@).len(),
        iy < 100,
        i >= 1,
    ensures
        final(canvas).paint() == (
            platform_rope(tiles(grid@), sheet, ix, iy, x as int, y as int, i as nat, old(canvas).draws@),
            old(canvas).rng,
            old(canvas).placed_egg,
        ),
    decreases grid@.len() - i,
{
    let h: usize = grid.len();
    if i >= h {
        return;
    }
    let ghost t = tiles(grid@);
    let yy: i64 = y as i64 * TILE_HEIGHT + i as i64 * TILE_HEIGHT;
    if y + i + 1 >= h {
        canvas.push_draw(sheet, ix, iy + 1, x as i64 * TILE_WIDTH, yy, Blit::Tile);
        return;
    }
    assert(t[(y + i + 1) as int] == grid@[(y + i + 1) as int]@);
    if grid[y + i + 1][x] != PlacedTile::Empty {
        canvas.push_draw(sheet, ix, iy + 1, x as i64 * TILE_WIDTH, yy, Blit::Tile);
    } else {
        canvas.push_draw(sheet, ix, iy, x as i64 * TILE_WIDTH, yy, Blit::Tile);
        render_platform_rope(canvas, grid, sheet, ix, iy, x, y, i + 1);
    }
}

fn render_misc_altar(canvas: &mut Canvas, biome: Biome, grid: &PlacedTileGrid, x: usize, y: usize)
    requires
        rect(tiles(grid@)),
        x < width_of(tiles(grid@)),
        y < tiles(grid@).len(),
    ensures
        final(canvas).paint() == misc_altar_cell(tiles(grid@), biome, old(canvas).paint(), x as int, y as int),
{
    let ghost t = tiles(grid@);
    let bs = match floor_atlas(biome) {
        Some(a) => a,
        None => Atlas::FloorCave,
    };
    let ss = match styled_atlas(biome) {
        Some(a) => a,
        None => Atlas::StyledStone,
    };
    let fm = Atlas::FloorMisc;
    let xp: i64 = x as i64 * TILE_WIDTH;
    let yp: i64 = y as i64 * TILE_HEIGHT;
    let gold = biome == Biome::CityOfGold;
    let tl = Blit::Tile;
    assert(t[y as int] == grid@[y as int]@);
    match grid[y][x] {
        PlacedTile::AltarLeft => canvas.push_draw(fm, 2, 0, xp, yp, tl),
        PlacedTile::AltarRight => canvas.push_draw(fm, 3, 0, xp, yp, tl),
        PlacedTile::IdolAltarLeft => canvas.push_draw(bs, 10, 0, xp, yp, tl),
        PlacedTile::IdolAltarRight => {
            canvas.push_draw(bs, 11, 0, xp, yp, tl);
            if biome == Biome::Volcana && !canvas.placed_egg && canvas.rng.ratio(3, 10) {
                canvas.push_draw(Atlas::CharPrecious, 0, 0, xp - TILE_WIDTH + 8, yp - TILE_HEIGHT + 8, Blit::Whole);
                canvas.push_draw(Atlas::Items, 15, 1, xp - TILE_WIDTH / 2, yp - TILE_HEIGHT + 13, tl);
                canvas.placed_egg = true;
            } else {
                canvas.push_draw(Atlas::Items, 15, 1, xp - TILE_WIDTH / 2, yp - TILE_HEIGHT + 18, tl);
            }
        },
        PlacedTile::EggplantAltarLeft => canvas.push_draw(bs, 10, 2, xp, yp, tl),
        PlacedTile::EggplantAltarRight => canvas.push_draw(bs, 11, 2, xp, yp, tl),
        _ => {},
    }
}

fn render_misc_trap(canvas: &mut Canvas, biome: Biome, grid: &PlacedTileGrid, x: usize, y: usize)
    requires
        rect(tiles(grid@)),
        x < width_of(tiles(grid@)),
        y < tiles(grid@).len(),
    ensures
        final(canvas).paint() == misc_trap_cell(tiles(grid@), biome, old(canvas).paint(), x as int, y as int),
{
    let ghost t = tiles(grid@);
    let bs = match floor_atlas(biome) {
        Some(a) => a,
        None => Atlas::FloorCave,
    };
    let ss = match styled_atlas(biome) {
        Some(a) => a,
        None => Atlas::StyledStone,
    };
    let fm = Atlas::FloorMisc;
    let xp: i64 = x as i64 * TILE_WIDTH;
    let yp: i64 = y as i64 * TILE_HEIGHT;
    let gold = biome == Biome::CityOfGold;
    let tl = Blit::Tile;
    assert(t[y as int] == grid@[y as int]@);
    match grid[y][x] {
        PlacedTile::ArrowTrap | PlacedTile::LaserTrap => {
            let (ix, iy): (u32, u32) = match biome {
                Biome::Sunken => (6, 0),
                Biome::Babylon => (5, 4),
                _ => (1, 0),
            };
            if neighbour_empty(grid, (x, y), Direction::Left, None) {
                canvas.push_draw(fm, ix, iy, xp, yp, Blit::Flipped);
            } else {
                canvas.push_draw(fm, ix, iy, xp, yp, tl);
            }
        },
        PlacedTile::TotemTrap | PlacedTile::LionTrap => {
            let ix: u32 = if biome == Biome::TidePool { 5 } else { 4 };
            let stacked = if y > 0 {
                assert(t[y - 1] == grid@[y - 1]@);
                grid[y - 1][x] == grid[y][x]
            } else {
                false
            };
            canvas.push_draw(fm, ix, if stacked { 1 } else { 0 }, xp, yp, tl);
        },
        PlacedTile::SpearTrap => canvas.push_draw(fm, 5, 3, xp, yp, tl),
        PlacedTile::FrogTrapLeft => canvas.push_draw(bs, 8, 9, xp, yp, tl),
        PlacedTile::FrogTrapRight => canvas.push_draw(bs, 9, 9, xp, yp, tl),
        PlacedTile::CrushTrap => if gold { canvas.push_draw(ss, 9, 0, xp, yp, tl) } else { canvas.push_draw(fm, 0, 6, xp, yp, tl) },
        PlacedTile::LargeCrushTrapTopLeft => if gold { canvas.push_draw(ss, 6, 0, xp, yp, tl) } else { canvas.push_draw(fm, 0, 4, xp, yp, tl) },
        PlacedTile::LargeCrushTrapTopRight => if gold { canvas.push_draw(ss, 7, 0, xp, yp, tl) } else { canvas.push_draw(fm, 1, 4, xp, yp, tl) },
        PlacedTile::LargeCrushTrapBotLeft => if gold { canvas.push_draw(ss, 6, 1, xp, yp, tl) } else { canvas.push_draw(fm, 0, 5, xp, yp, tl) },
        PlacedTile::LargeCrushTrapBotRight => if gold { canvas.push_draw(ss, 7, 1, xp, yp, tl) } else { canvas.push_draw(fm, 1, 5, xp, yp, tl) },
        _ => {},
    }
}

fn render_misc_block(canvas: &mut Canvas, biome: Biome, grid: &PlacedTileGrid, x: usize, y: usize)
    requires
        rect(tiles(grid@)),
        x < width_of(tiles(grid@)),
        y < tiles(grid@).len(),
    ensures
        final(canvas).paint() == misc_block_cell(tiles(grid@), biome, old(canvas).paint(), x as int, y as int),
{
    let ghost t = tiles(grid@);
    let bs = match floor_atlas(biome) {
        Some(a) => a,
        None => Atlas::FloorCave,
    };
    let ss = match styled_atlas(biome) {
        Some(a) => a,
        None => Atlas::StyledStone,
    };
    let fm = Atlas::FloorMisc;
    let xp: i64 = x as i64 * TILE_WIDTH;
    let yp: i64 = y as i64 * TILE_HEIGHT;
    let gold = biome == Biome::CityOfGold;
    let tl = Blit::Tile;
    assert(t[y as int] == grid@[y as int]@);
    match grid[y][x] {
        PlacedTile::BushBlock | PlacedTile::BoneBlock => canvas.push_draw(bs, 10, 2, xp, yp, tl),
        PlacedTile::IceBlock => {
            if !canvas.placed_egg && canvas.rng.ratio(1, 5) {
                canvas.push_draw(Atlas::CharBeg, 0, 0, xp, yp, Blit::Whole);
                canvas.placed_egg = true;
            }
            canvas.push_draw(bs, 7, 1, xp - 4, yp - 4, Blit::Ice);
        },
        PlacedTile::ChainTop => {
            canvas.push_draw(bs, 4, 0, xp, yp, tl);
            canvas.push_draw(bs, 7, 1, xp, yp, tl);
        },
        PlacedTile::ChainMid => canvas.push_draw(bs, 4, 1, xp, yp, tl),
        PlacedTile::ChainBot => {
            canvas.push_draw(bs, 4, 2, xp, yp, tl);
            canvas.push_draw(bs, 7, 3, xp, yp, tl);
        },
        PlacedTile::Platform => match biome {
            Biome::Cave | Biome::TidePool | Biome::Surface | Biome::PalaceOfPleasure => {
                let (ix, iy): (u32, u32) = match biome {
                    Biome::TidePool => (7, 3),
                    Biome::PalaceOfPleasure => (9, 2),
                    _ => (1, 1),
                };
                let sheet = if biome == Biome::PalaceOfPleasure { ss } else { fm };
                if !neighbour_empty(grid, (x, y), Direction::Down, None) {
                    canvas.push_draw(sheet, ix - 1, iy, xp, yp, tl);
                } else {
                    canvas.push_draw(sheet, ix, iy, xp, yp, tl);
                    render_platform_rope(canvas, grid, sheet, ix, iy + 1, x, y, 1);
                }
            },
            Biome::Ice | Biome::Volcana => canvas.push_draw(bs, 4, 5, xp, yp, tl),
            _ => {},
        },
        _ => {},
    }
}

fn render_misc_other(canvas: &mut Canvas, biome: Biome, grid: &PlacedTileGrid, x: usize, y: usize)
    requires
        rect(tiles(grid@)),
        x < width_of(tiles(grid@)),
        y < tiles(grid@).len(),
    ensures
        final(canvas).paint() == misc_other_cell(tiles(grid@), biome, old(canvas).paint(), x as int, y as int),
{
    let ghost t = tiles(grid@);
    let bs = match floor_atlas(biome) {
        Some(a) => a,
        None => Atlas::FloorCave,
    };
    let ss = match styled_atlas(biome) {
        Some(a) => a,
        None => Atlas::StyledStone,
    };
    let fm = Atlas::FloorMisc;
    let xp: i64 = x as i64 * TILE_WIDTH;
    let yp: i64 = y as i64 * TILE_HEIGHT;
    let gold = biome == Biome::CityOfGold;
    let tl = Blit::Tile;
    assert(t[y as int] == grid@[y as int]@);
    match grid[y][x] {
        PlacedTile::UdjatSocketTop => {
            let b = canvas.rng.ratio(1, 2);
            canvas.push_draw(fm, if b { 5 } else { 4 }, 5, xp, yp, tl);
        },
        PlacedTile::UdjatSocketBot => canvas.push_draw(Atlas::StyledBabylon, 7, 2, xp, yp, tl),
        PlacedTile::ConveyorLeft => canvas.push_draw(bs, 11, 11, xp, yp, tl),
        PlacedTile::ConveyorRight => canvas.push_draw(bs, 11, 10, xp, yp, tl),
        PlacedTile::PushBlock => {
            let gold_or_duat = biome == Biome::CityOfGold || biome == Biome::Duat;
            let sheet = if gold_or_duat { ss } else if biome == Biome::Surface { Atlas::FloorCave } else { bs };
            canvas.push_draw(sheet, if gold_or_duat { 9 } else { 7 }, 0, xp, yp, tl);
        },
        PlacedTile::PowderKeg => canvas.push_draw(fm, 2, 2, xp, yp, tl),
        PlacedTile::HoneyUp => canvas.push_draw(Atlas::Items, 14, 14, xp, yp - 22, tl),
        PlacedTile::HoneyDown => canvas.push_draw(Atlas::Items, 13, 14, xp, yp + 22, tl),
        _ => {},
    }
}

fn render_misc_cell(canvas: &mut Canvas, biome: Biome, grid: &PlacedTileGrid, x: usize, y: usize)
    requires
        rect(tiles(grid@)),
        x < width_of(tiles(grid@)),
        y < tiles(grid@).len(),
    ensures
        final(canvas).paint() == misc_cell(tiles(grid@), biome, old(canvas).paint(), x as int, y as int),
{
    assert(tiles(grid@)[y as int] == grid@[y as int]@);
    match grid[y][x] {
        PlacedTile::AltarLeft | PlacedTile::AltarRight | PlacedTile::IdolAltarLeft | PlacedTile::IdolAltarRight | PlacedTile::EggplantAltarLeft | PlacedTile::EggplantAltarRight => render_misc_altar(canvas, biome, grid, x, y),
        PlacedTile::ArrowTrap | PlacedTile::LaserTrap | PlacedTile::TotemTrap | PlacedTile::LionTrap | PlacedTile::SpearTrap | PlacedTile::FrogTrapLeft | PlacedTile::FrogTrapRight | PlacedTile::CrushTrap | PlacedTile::LargeCrushTrapTopLeft | PlacedTile::LargeCrushTrapTopRight | PlacedTile::LargeCrushTrapBotLeft | PlacedTile::LargeCrushTrapBotRight => render_misc_trap(canvas, biome, grid, x, y),
        PlacedTile::BushBlock | PlacedTile::BoneBlock | PlacedTile::IceBlock | PlacedTile::ChainTop | PlacedTile::ChainMid | PlacedTile::ChainBot | PlacedTile::Platform => render_misc_block(canvas, biome, grid, x, y),
        _ => render_misc_other(canvas, biome, grid, x, y),
    }
}

impl GridRenderer {
    /// Paints every special tile, in row-major order.
    pub fn render_floormisc_tiles(&self, canvas: &mut Canvas, biome: &Biome, grid: &PlacedTileGrid)
        requires
            rect(tiles(grid@)),
        ensures
            final(canvas).paint() == misc_paint(tiles(grid@), *biome, old(canvas).paint()),
    {
        let biome = *biome;
        let ghost t = tiles(grid@);
        let ghost f = |acc: Paint, x: int, y: int| misc_cell(t, biome, acc, x, y);
        let ghost init = canvas.paint();
        let h: usize = grid.len();
        let w: usize = if h > 0 { grid[0].len() } else { 0 };
        let mut r: usize = 0;
        while r < h
            invariant
                t == tiles(grid@),
                rect(t),
                h == t.len(),
                w == width_of(t),
                r <= h,
                f == (|acc: Paint, x: int, y: int| misc_cell(t, biome, acc, x, y)),
                canvas.paint() == fold_cells(f, init, w as nat, r as nat, 0),
            decreases h - r,
        {
            let mut c: usize = 0;
            while c < w
                invariant
                    t == tiles(grid@),
                    rect(t),
                    h == t.len(),
                    w == width_of(t),
                    r < h,
                    c <= w,
                    f == (|acc: Paint, x: int, y: int| misc_cell(t, biome, acc, x, y)),
                    canvas.paint() == fold_cells(f, init, w as nat, r as nat, c as nat),
                decreases w - c,
            {
                render_misc_cell(canvas, biome, grid, c, r);
                c = c + 1;
            }
            r = r + 1;
        }
    }
}

// ---------------------------------------------------------------- decorations

/// Biomes whose floor tops can grow spikes.
pub open spec fn has_spikes(biome: Biome) -> bool {
    match biome {
        Biome::Volcana | Biome::TidePool | Biome::Sunken | Biome::Jungle | Biome::Ice | Biome::Eggplant | Biome::Cave => true,
        _ => false,
    }
}

/// Whether the neighbour in direction `d` holds anything but plain floor.
pub open spec fn open_side(t: Seq<Seq<PlacedTile>>, x: int, y: int, d: Direction) -> bool {
    neighbour_empty_at(t, x, y, d, Some(PlacedTile::Floor))
}

/// Left edge trim of a floor cell: the corner piece under an open top, else one of two
/// side pieces; mirrored, half a tile to the left.
pub open spec fn deco_left(t: Seq<Seq<PlacedTile>>, atlas: Atlas, acc: Paint, x: int, y: int) -> Paint {
    if open_side(t, x, y, Direction::Left) {
        let lx = px(x) - TILE_WIDTH / 2;
        if open_side(t, x, y, Direction::Up) {
            (acc.0.push(flipped_draw(atlas, 7, 5, lx, py(y))), acc.1, acc.2)
        } else {
            let (k, p) = choose_draw(acc.1.seed, acc.1.pos, 2);
            (acc.0.push(flipped_draw(atlas, (5 + k) as u32, 5, lx, py(y))), advanced(acc.1, p), acc.2)
        }
    } else {
        acc
    }
}

/// Right edge trim, as the left one, unmirrored and half a tile to the right.
pub open spec fn deco_right(t: Seq<Seq<PlacedTile>>, atlas: Atlas, acc: Paint, x: int, y: int) -> Paint {
    if open_side(t, x, y, Direction::Right) {
        let rx = px(x) + TILE_WIDTH / 2;
        if open_side(t, x, y, Direction::Up) {
            (acc.0.push(tile_draw(atlas, 7, 5, rx, py(y))), acc.1, acc.2)
        } else {
            let (k, p) = choose_draw(acc.1.seed, acc.1.pos, 2);
            (acc.0.push(tile_draw(atlas, (5 + k) as u32, 5, rx, py(y))), advanced(acc.1, p), acc.2)
        }
    } else {
        acc
    }
}

/// Bottom trim: one of three pieces half a tile down.
pub open spec fn deco_down(t: Seq<Seq<PlacedTile>>, atlas: Atlas, acc: Paint, x: int, y: int) -> Paint {
    if open_side(t, x, y, Direction::Down) {
        let (k, p) = choose_draw(acc.1.seed, acc.1.pos, 3);
        (acc.0.push(tile_draw(atlas, (5 + k) as u32, 7, px(x), py(y) + TILE_HEIGHT / 2)), advanced(acc.1, p), acc.2)
    } else {
        acc
    }
}

/// Top trim: in a spiky biome, 1 time in 12 (a `u32` draw divisible by 12) and with an
/// empty cell above, spikes of one of three kinds with their base trim and, 1 in 10,
/// blood; otherwise one of three top pieces half a tile up.
pub open spec fn deco_up(t: Seq<Seq<PlacedTile>>, atlas: Atlas, biome: Biome, acc: Paint, x: int, y: int) -> Paint {
    if open_side(t, x, y, Direction::Up) {
        let y_deco = py(y) - TILE_HEIGHT / 2;
        let (spiky, s1) = if has_spikes(biome) {
            let (v, p) = u32_draw(acc.1.seed, acc.1.pos);
            (v % 12 == 0 && neighbour_empty_at(t, x, y, Direction::Up, None), advanced(acc.1, p))
        } else {
            (false, acc.1)
        };
        if spiky {
            let (k, p) = range_draw(s1.seed, s1.pos, 3);
            let s2 = advanced(s1, p);
            let d = acc.0.push(tile_draw(atlas, (5 + k) as u32, 9, px(x), py(y) - TILE_HEIGHT)).push(
                tile_draw(atlas, (5 + k) as u32, 8, px(x), y_deco),
            );
            let (b, pos2) = ratio_draw(s2.seed, s2.pos, 1, 10);
            let d2 = if b { d.push(tile_draw(atlas, (5 + k) as u32, 10, px(x), py(y) - TILE_HEIGHT)) } else { d };
            (d2, advanced(s2, pos2), acc.2)
        } else {
            let (k, p) = choose_draw(s1.seed, s1.pos, 3);
            (acc.0.push(tile_draw(atlas, (5 + k) as u32, 6, px(x), y_deco)), advanced(s1, p), acc.2)
        }
    } else {
        acc
    }
}

/// A bone pile's trim from the cave atlas, its cap when open or bone is above, and at
/// even odds, with open space above, a ribcage and a skull.
pub open spec fn deco_bone(t: Seq<Seq<PlacedTile>>, acc: Paint, x: int, y: int) -> Paint {
    let a = Atlas::FloorCave;
    let d = acc.0.push(tile_draw(a, 10, 3, px(x) - TILE_WIDTH / 2 + 16, py(y))).push(
        tile_draw(a, 11, 3, px(x) + TILE_WIDTH / 2, py(y)),
    );
    let up_empty = neighbour_empty_at(t, x, y, Direction::Up, None);
    let up_bone = !neighbour_empty_at(t, x, y, Direction::Up, Some(PlacedTile::BoneBlock));
    let d1 = if up_empty || up_bone { d.push(tile_draw(a, 11, 2, px(x), py(y) - TILE_HEIGHT / 2)) } else { d };
    if up_empty {
        let (b, p) = ratio_draw(acc.1.seed, acc.1.pos, 1, 2);
        let top = py(y) - TILE_HEIGHT * 3 / 4 + 6;
        let d2 = if b {
            d1.push(tile_draw(Atlas::Items, 14, 3, px(x) - 16, top)).push(tile_draw(Atlas::Items, 15, 3, px(x) + 16, top))
        } else {
            d1
        };
        (d2, advanced(acc.1, p), acc.2)
    } else {
        (d1, acc.1, acc.2)
    }
}

/// A bush's trim from the jungle atlas, and its cap when open or bush is above.
pub open spec fn deco_bush(t: Seq<Seq<PlacedTile>>, acc: Paint, x: int, y: int) -> Paint {
    let a = Atlas::FloorJungle;
    let d = acc.0.push(tile_draw(a, 10, 3, px(x) - TILE_WIDTH / 2, py(y))).push(
        tile_draw(a, 11, 3, px(x) + TILE_WIDTH / 2, py(y)),
    ).push(tile_draw(a, 10, 4, px(x), py(y) + TILE_HEIGHT / 2));
    let up = neighbour_empty_at(t, x, y, Direction::Up, None) || !neighbour_empty_at(
        t,
        x,
        y,
        Direction::Up,
        Some(PlacedTile::BushBlock),
    );
    if up {
        (d.push(tile_draw(a, 11, 2, px(x), py(y) - TILE_HEIGHT / 2)), acc.1, acc.2)
    } else {
        (d, acc.1, acc.2)
    }
}

/// The decorations of one cell.
pub open spec fn deco_cell(t: Seq<Seq<PlacedTile>>, atlas: Atlas, biome: Biome, acc: Paint, x: int, y: int) -> Paint {
    match t[y][x] {
        PlacedTile::Floor => deco_up(
            t,
            atlas,
            biome,
            deco_down(t, atlas, deco_right(t, atlas, deco_left(t, atlas, acc, x, y), x, y), x, y),
            x,
            y,
        ),
        PlacedTile::BoneBlock => deco_bone(t, acc, x, y),
        PlacedTile::BushBlock => deco_bush(t, acc, x, y),
        _ => acc,
    }
}

pub open spec fn deco_paint(t: Seq<Seq<PlacedTile>>, atlas: Atlas, biome: Biome, init: Paint) -> Paint {
    fold_cells(|acc: Paint, x: int, y: int| deco_cell(t, atlas, biome, acc, x, y), init, width_of(t), t.len(), 0)
}

pub open spec fn cell_ready(t: Seq<Seq<PlacedTile>>, x: int, y: int) -> bool {
    rect(t) && 0 <= x < width_of(t) && 0 <= y < t.len()
}

fn render_deco_left(canvas: &mut Canvas, atlas: Atlas, grid: &PlacedTileGrid, x: usize, y: usize)
    requires
        cell_ready(tiles(grid@), x as int, y as int),
    ensures
        final(canvas).paint() == deco_left(tiles(grid@), atlas, old(canvas).paint(), x as int, y as int),
{
    let pos = (x, y);
    let floor = Some(PlacedTile::Floor);
    if neighbour_empty(grid, pos, Direction::Left, floor) {
        let lx = x as i64 * TILE_WIDTH - TILE_WIDTH / 2;
        let yp = y as i64 * TILE_HEIGHT;
        if neighbour_empty(grid, pos, Direction::Up, floor) {
            canvas.push_draw(atlas, 7, 5, lx, yp, Blit::Flipped);
        } else {
            let k = canvas.rng.choose_index(2);
            canvas.push_draw(atlas, (5 + k) as u32, 5, lx, yp, Blit::Flipped);
        }
    }
}

fn render_deco_right(canvas: &mut Canvas, atlas: Atlas, grid: &PlacedTileGrid, x: usize, y: usize)
    requires
        cell_ready(tiles(grid@), x as int, y as int),
    ensures
        final(canvas).paint() == deco_right(tiles(grid@), atlas, old(canvas).paint(), x as int, y as int),
{
    let pos = (x, y);
    let floor = Some(PlacedTile::Floor);
    if neighbour_empty(grid, pos, Direction::Right, floor) {
        let rx = x as i64 * TILE_WIDTH + TILE_WIDTH / 2;
        let yp = y as i64 * TILE_HEIGHT;
        if neighbour_empty(grid, pos, Direction::Up, floor) {
            canvas.push_draw(atlas, 7, 5, rx, yp, Blit::Tile);
        } else {
            let k = canvas.rng.choose_index(2);
            canvas.push_draw(atlas, (5 + k) as u32, 5, rx, yp, Blit::Tile);
        }
    }
}

fn render_deco_down(canvas: &mut Canvas, atlas: Atlas, grid: &PlacedTileGrid, x: usize, y: usize)
    requires
        cell_ready(tiles(grid@), x as int, y as int),
    ensures
        final(canvas).paint() == deco_down(tiles(grid@), atlas, old(canvas).paint(), x as int, y as int),
{
    if neighbour_empty(grid, (x, y), Direction::Down, Some(PlacedTile::Floor)) {
        let k = canvas.rng.choose_index(3);
        canvas.push_draw(atlas, (5 + k) as u32, 7, x as i64 * TILE_WIDTH, y as i64 * TILE_HEIGHT + TILE_HEIGHT / 2, Blit::Tile);
    }
}

fn is_spiky_biome(biome: Biome) -> (r: bool)
    ensures
        r == has_spikes(biome),
{
    match biome {
        Biome::Volcana | Biome::TidePool | Biome::Sunken | Biome::Jungle | Biome::Ice | Biome::Eggplant | Biome::Cave => true,
        _ => false,
    }
}

fn render_deco_up(canvas: &mut Canvas, atlas: Atlas, biome: Biome, grid: &PlacedTileGrid, x: usize, y: usize)
    requires
        cell_ready(tiles(grid@), x as int, y as int),
    ensures
        final(canvas).paint() == deco_up(tiles(grid@), atlas, biome, old(canvas).paint(), x as int, y as int),
{
    let pos = (x, y);
    if neighbour_empty(grid, pos, Direction::Up, Some(PlacedTile::Floor)) {
        let xp = x as i64 * TILE_WIDTH;
        let yp = y as i64 * TILE_HEIGHT;
        let y_deco = yp - TILE_HEIGHT / 2;
        if is_spiky_biome(biome) && canvas.rng.next_u32() % 12 == 0 && neighbour_empty(grid, pos, Direction::Up, None) {
            let k = canvas.rng.below(3);
            canvas.push_draw(atlas, (5 + k) as u32, 9, xp, yp - TILE_HEIGHT, Blit::Tile);
            canvas.push_draw(atlas, (5 + k) as u32, 8, xp, y_deco, Blit::Tile);
            if canvas.rng.ratio(1, 10) {
                canvas.push_draw(atlas, (5 + k) as u32, 10, xp, yp - TILE_HEIGHT, Blit::Tile);
            }
        } else {
            let k = canvas.rng.choose_index(3);
            canvas.push_draw(atlas, (5 + k) as u32, 6, xp, y_deco, Blit::Tile);
        }
    }
}

fn render_deco_bone(canvas: &mut Canvas, grid: &PlacedTileGrid, x: usize, y: usize)
    requires
        cell_ready(tiles(grid@), x as int, y as int),
    ensures
        final(canvas).paint() == deco_bone(tiles(grid@), old(canvas).paint(), x as int, y as int),
{
    let a = Atlas::FloorCave;
    let pos = (x, y);
    let xp = x as i64 * TILE_WIDTH;
    let yp = y as i64 * TILE_HEIGHT;
    canvas.push_draw(a, 10, 3, xp - TILE_WIDTH / 2 + 16, yp, Blit::Tile);
    canvas.push_draw(a, 11, 3, xp + TILE_WIDTH / 2, yp, Blit::Tile);
    let up_empty = neighbour_empty(grid, pos, Direction::Up, None);
    let up_bone = !neighbour_empty(grid, pos, Direction::Up, Some(PlacedTile::BoneBlock));
    if up_empty || up_bone {
        canvas.push_draw(a, 11, 2, xp, yp - TILE_HEIGHT / 2, Blit::Tile);
    }
    if up_empty && canvas.rng.ratio(1, 2) {
        let top = yp - TILE_HEIGHT * 3 / 4 + 6;
        canvas.push_draw(Atlas::Items, 14, 3, xp - 16, top, Blit::Tile);
        canvas.push_draw(Atlas::Items, 15, 3, xp + 16, top, Blit::Tile);
    }
}

fn render_deco_bush(canvas: &mut Canvas, grid: &PlacedTileGrid, x: usize, y: usize)
    requires
        cell_ready(tiles(grid@), x as int, y as int),
    ensures
        final(canvas).paint() == deco_bush(tiles(grid@), old(canvas).paint(), x as int, y as int),
{
    let a = Atlas::FloorJungle;
    let pos = (x, y);
    let xp = x as i64 * TILE_WIDTH;
    let yp = y as i64 * TILE_HEIGHT;
    canvas.push_draw(a, 10, 3, xp - TILE_WIDTH / 2, yp, Blit::Tile);
    canvas.push_draw(a, 11, 3, xp + TILE_WIDTH / 2, yp, Blit::Tile);
    canvas.push_draw(a, 10, 4, xp, yp + TILE_HEIGHT / 2, Blit::Tile);
    if neighbour_empty(grid, pos, Direction::Up, None) || !neighbour_empty(grid, pos, Direction::Up, Some(PlacedTile::BushBlock)) {
        canvas.push_draw(a, 11, 2, xp, yp - TILE_HEIGHT / 2, Blit::Tile);
    }
}

fn render_deco_cell(canvas: &mut Canvas, atlas: Atlas, biome: Biome, grid: &PlacedTileGrid, x: usize, y: usize)
    requires
        cell_ready(tiles(grid@), x as int, y as int),
    ensures
        final(canvas).paint() == deco_cell(tiles(grid@), atlas, biome, old(canvas).paint(), x as int, y as int),
{
    assert(tiles(grid@)[y as int] == grid@[y as int]@);
    match grid[y][x] {
        PlacedTile::Floor => {
            render_deco_left(canvas, atlas, grid, x, y);
            render_deco_right(canvas, atlas, grid, x, y);
            render_deco_down(canvas, atlas, grid, x, y);
            render_deco_up(canvas, atlas, biome, grid, x, y);
        },
        PlacedTile::BoneBlock => render_deco_bone(canvas, grid, x, y),
        PlacedTile::BushBlock => render_deco_bush(canvas, grid, x, y),
        _ => {},
    }
}

impl GridRenderer {
    /// Paints the edge trim, spikes and block trim over the plain floor, in row-major order.
    pub fn render_floor_decorations(&self, canvas: &mut Canvas, biome: &Biome, grid: &PlacedTileGrid)
        requires
            rect(tiles(grid@)),
            spec_floor_atlas(*biome) is Some,
        ensures
            final(canvas).paint() == deco_paint(tiles(grid@), spec_floor_atlas(*biome)->Some_0, *biome, old(canvas).paint()),
    {
        let biome = *biome;
        let atlas = floor_atlas(biome).unwrap();
        let ghost t = tiles(grid@);
        let ghost f = |acc: Paint, x: int, y: int| deco_cell(t, atlas, biome, acc, x, y);
        let ghost init = canvas.paint();
        let h: usize = grid.len();
        let w: usize = if h > 0 { grid[0].len() } else { 0 };
        let mut r: usize = 0;
        while r < h
            invariant
                t == tiles(grid@),
                rect(t),
                h == t.len(),
                w == width_of(t),
                r <= h,
                f == (|acc: Paint, x: int, y: int| deco_cell(t, atlas, biome, acc, x, y)),
                canvas.paint() == fold_cells(f, init, w as nat, r as nat, 0),
            decreases h - r,
        {
            let mut c: usize = 0;
            while c < w
                invariant
                    t == tiles(grid@),
                    rect(t),
                    h == t.len(),
                    w == width_of(t),
                    r < h,
                    c <= w,
                    f == (|acc: Paint, x: int, y: int| deco_cell(t, atlas, biome, acc, x, y)),
                    canvas.paint() == fold_cells(f, init, w as nat, r as nat, c as nat),
                decreases w - c,
            {
                render_deco_cell(canvas, atlas, biome, grid, c, r);
                c = c + 1;
            }
            r = r + 1;
        }
    }
}

// ---------------------------------------------------------------- embeds

/// Treasure in a plain floor cell that sits on solid ground of the occupancy grid: gold
/// 1 time in 12, else jewels 1 in 24, else a jetpack 1 in 5000 (each a `u32` draw
/// divisible by the number).
pub open spec fn embed_cell(occ: Seq<Seq<bool>>, t: Seq<Seq<PlacedTile>>, acc: Paint, x: int, y: int) -> Paint {
    if !occ[y][x] && t[y][x] == PlacedTile::Floor {
        let s = acc.1;
        let (v1, pos1) = u32_draw(s.seed, s.pos);
        if v1 % 12 == 0 {
            let (k, p) = choose_draw(s.seed, pos1, 2);
            (acc.0.push(tile_draw(Atlas::Items, (10 + k) as u32, 0, px(x), py(y))), advanced(s, p), acc.2)
        } else {
            let (v2, pos2) = u32_draw(s.seed, pos1);
            if v2 % 24 == 0 {
                let (k, p) = choose_draw(s.seed, pos2, 3);
                (acc.0.push(tile_draw(Atlas::Items, (3 + k) as u32, 0, px(x), py(y))), advanced(s, p), acc.2)
            } else {
                let (v3, pos3) = u32_draw(s.seed, pos2);
                if v3 % 5000 == 0 {
                    (acc.0.push(tile_draw(Atlas::Items, 9, 2, px(x), py(y))), advanced(s, pos3), acc.2)
                } else {
                    (acc.0, advanced(s, pos3), acc.2)
                }
            }
        }
    } else {
        acc
    }
}

pub open spec fn embed_paint(occ: Seq<Seq<bool>>, t: Seq<Seq<PlacedTile>>, init: Paint) -> Paint {
    fold_cells(|acc: Paint, x: int, y: int| embed_cell(occ, t, acc, x, y), init, width_of(t), t.len(), 0)
}

fn render_embed_cell(canvas: &mut Canvas, config: &Spelunkicon, grid: &PlacedTileGrid, x: usize, y: usize)
    requires
        config.wf(),
        cell_ready(tiles(grid@), x as int, y as int),
        is_grid(tiles(grid@), config.grid_width as nat, config.grid_height as nat),
    ensures
        final(canvas).paint() == embed_cell(config.grid_view(), tiles(grid@), old(canvas).paint(), x as int, y as int),
{
    assert(tiles(grid@)[y as int] == grid@[y as int]@);
    assert(config.grid_view().len() == config.grid@.len());
    assert(occupancy_grid(config.hash, config.grid_height as nat).len() == config.grid_height);
    assert(config.grid_view()[y as int] == config.grid@[y as int]@);
    assert(occupancy_grid(config.hash, config.grid_height as nat)[y as int].len() == config.grid_height);
    if !config.grid[y][x] && grid[y][x] == PlacedTile::Floor {
        let xp = x as i64 * TILE_WIDTH;
        let yp = y as i64 * TILE_HEIGHT;
        if canvas.rng.next_u32() % 12 == 0 {
            let k = canvas.rng.choose_index(2);
            canvas.push_draw(Atlas::Items, (10 + k) as u32, 0, xp, yp, Blit::Tile);
        } else if canvas.rng.next_u32() % 24 == 0 {
            let k = canvas.rng.choose_index(3);
            canvas.push_draw(Atlas::Items, (3 + k) as u32, 0, xp, yp, Blit::Tile);
        } else if canvas.rng.next_u32() % 5000 == 0 {
            canvas.push_draw(Atlas::Items, 9, 2, xp, yp, Blit::Tile);
        }
    }
}

impl GridRenderer {
    /// Paints the rare treasure embedded in plain floor, in row-major order.
    pub fn render_floor_embeds(&self, canvas: &mut Canvas, config: &Spelunkicon, grid: &PlacedTileGrid)
        requires
            config.wf(),
            is_grid(tiles(grid@), config.grid_width as nat, config.grid_height as nat),
        ensures
            final(canvas).paint() == embed_paint(config.grid_view(), tiles(grid@), old(canvas).paint()),
    {
        let ghost t = tiles(grid@);
        let ghost occ = config.grid_view();
        let ghost f = |acc: Paint, x: int, y: int| embed_cell(occ, t, acc, x, y);
        let ghost init = canvas.paint();
        let h: usize = grid.len();
        let w: usize = grid[0].len();
        assert(rect(t));
        let mut r: usize = 0;
        while r < h
            invariant
                config.wf(),
                t == tiles(grid@),
                occ == config.grid_view(),
                is_grid(t, config.grid_width as nat, config.grid_height as nat),
                rect(t),
                h == t.len(),
                w == width_of(t),
                r <= h,
                f == (|acc: Paint, x: int, y: int| embed_cell(occ, t, acc, x, y)),
                canvas.paint() == fold_cells(f, init, w as nat, r as nat, 0),
            decreases h - r,
        {
            let mut c: usize = 0;
            while c < w
                invariant
                    config.wf(),
                    t == tiles(grid@),
                    occ == config.grid_view(),
                    is_grid(t, config.grid_width as nat, config.grid_height as nat),
                    rect(t),
                    h == t.len(),
                    w == width_of(t),
                    r < h,
                    c <= w,
                    f == (|acc: Paint, x: int, y: int| embed_cell(occ, t, acc, x, y)),
                    canvas.paint() == fold_cells(f, init, w as nat, r as nat, c as nat),
                decreases w - c,
            {
                render_embed_cell(canvas, config, grid, c, r);
                c = c + 1;
            }
            r = r + 1;
        }
    }
}

} // verus!
