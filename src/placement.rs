use vstd::prelude::*;
use crate::biome::Biome;
use crate::grid::{
    empty_grid, in_bounds, is_grid, neighbour_empty, neighbour_empty_at, rect, set_tile, tiles,
    width_of, Direction, PlacedTile, PlacedTileGrid,
};
use crate::misc::no_altar;
use crate::rng::{u32_draw, Stream};
use crate::seed::Spelunkicon;

verus! {

/// `t` with the tile at column `x`, row `y` replaced by `tile`.
pub open spec fn put(t: Seq<Seq<PlacedTile>>, x: int, y: int, tile: PlacedTile) -> Seq<Seq<PlacedTile>> {
    t.update(y, t[y].update(x, tile))
}

/// The placement automaton: its passes turn an occupancy grid into placed tiles.
pub struct GridGenerator {}

/// Sets one tile of a rectangular grid, which stays rectangular.
pub fn put_tile(grid: &mut PlacedTileGrid, x: usize, y: usize, tile: PlacedTile)
    requires
        rect(tiles(old(grid)@)),
        in_bounds(tiles(old(grid)@), x as int, y as int),
    ensures
        tiles(final(grid)@) == put(tiles(old(grid)@), x as int, y as int, tile),
        rect(tiles(final(grid)@)),
        tiles(final(grid)@).len() == tiles(old(grid)@).len(),
        width_of(tiles(final(grid)@)) == width_of(tiles(old(grid)@)),
{
    set_tile(grid, x, y, tile);
    let ghost t = tiles(old(grid)@);
    let ghost u = tiles(grid@);
    assert(u[0].len() == t[0].len());
    assert(forall|r: int| 0 <= r < u.len() ==> #[trigger] u[r].len() == t[r].len());
}

/// The grid of the floor pass: every solid cell of the occupancy grid holds `Floor`,
/// every other cell is empty.
pub open spec fn floor_grid(occ: Seq<Seq<bool>>, w: nat, h: nat) -> Seq<Seq<PlacedTile>> {
    Seq::new(h, |r: int| Seq::new(w, |c: int| if occ[r][c] { PlacedTile::Empty } else { PlacedTile::Floor }))
}

/// The grid of a fresh styled pass: every solid cell holds `FloorStyled`.
pub open spec fn styled_grid(occ: Seq<Seq<bool>>, w: nat, h: nat) -> Seq<Seq<PlacedTile>> {
    Seq::new(h, |r: int| Seq::new(w, |c: int| if occ[r][c] { PlacedTile::Empty } else { PlacedTile::FloorStyled }))
}

/// Stamps `stamp` on every solid cell of the request's occupancy grid.
fn stamp_solid(config: &Spelunkicon, stamp: PlacedTile) -> (grid: PlacedTileGrid)
    requires
        config.wf(),
    ensures
        tiles(grid@) == Seq::new(
            config.grid_height as nat,
            |r: int| Seq::new(
                config.grid_width as nat,
                |c: int| if config.grid_view()[r][c] { PlacedTile::Empty } else { stamp },
            ),
        ),
{
    let w: usize = config.grid_width as usize;
    let h: usize = config.grid_height as usize;
    let ghost occ = config.grid_view();
    assert(occ.len() == h);
    assert(forall|r: int| 0 <= r < h ==> #[trigger] occ[r].len() == w);
    let mut grid = empty_grid(w, h);
    let mut r: usize = 0;
    while r < h
        invariant
            config.wf(),
            occ == config.grid_view(),
            w == config.grid_width,
            h == config.grid_height,
            occ.len() == h,
            forall|i: int| 0 <= i < h ==> #[trigger] occ[i].len() == w,
            r <= h,
            is_grid(tiles(grid@), w as nat, h as nat),
            forall|i: int, c: int| 0 <= i < h && 0 <= c < w ==> #[trigger] tiles(grid@)[i][c] == if i < r {
                if occ[i][c] { PlacedTile::Empty } else { stamp }
            } else {
                PlacedTile::Empty
            },
        decreases h - r,
    {
        let mut c: usize = 0;
        while c < w
            invariant
                config.wf(),
                occ == config.grid_view(),
                w == config.grid_width,
                h == config.grid_height,
                occ.len() == h,
                forall|i: int| 0 <= i < h ==> #[trigger] occ[i].len() == w,
                r < h,
                c <= w,
                is_grid(tiles(grid@), w as nat, h as nat),
                forall|i: int, j: int| 0 <= i < h && 0 <= j < w ==> #[trigger] tiles(grid@)[i][j] == if i < r || (i == r && j < c) {
                    if occ[i][j] { PlacedTile::Empty } else { stamp }
                } else {
                    PlacedTile::Empty
                },
            decreases w - c,
        {
            assert(occ[r as int] == config.grid@[r as int]@);
            if !config.grid[r][c] {
                set_tile(&mut grid, c, r, stamp);
            }
            c = c + 1;
        }
        r = r + 1;
    }
    let ghost target = Seq::new(
        h as nat,
        |i: int| Seq::new(w as nat, |j: int| if occ[i][j] { PlacedTile::Empty } else { stamp }),
    );
    assert forall|i: int| 0 <= i < h implies #[trigger] tiles(grid@)[i] =~= target[i] by {}
    assert(tiles(grid@) =~= target);
    grid
}

impl GridGenerator {
    /// Pass A: every solid cell becomes `Floor`. Draws nothing.
    pub fn place_floor_tiles(&self, _biome: &Biome, config: &Spelunkicon, rng: &mut Stream) -> (grid: PlacedTileGrid)
        requires
            config.wf(),
        ensures
            *final(rng) == *old(rng),
            tiles(grid@) == floor_grid(config.grid_view(), config.grid_width as nat, config.grid_height as nat),
    {
        let grid = stamp_solid(config, PlacedTile::Floor);
        let ghost target = floor_grid(config.grid_view(), config.grid_width as nat, config.grid_height as nat);
        assert forall|i: int| 0 <= i < config.grid_height implies #[trigger] tiles(grid@)[i] =~= target[i] by {}
        assert(tiles(grid@) =~= target);
        grid
    }
}

/// One recoloured patch: the cells that a depth-first fill of depth `depth` from
/// `(x, y)` turns from `Floor` into `FloorStyled`, visiting left, up, right, down.
/// A cell that does not hold `Floor` stops the fill.
pub open spec fn flood_fill(t: Seq<Seq<PlacedTile>>, x: int, y: int, depth: nat) -> Seq<Seq<PlacedTile>>
    decreases depth,
{
    if !in_bounds(t, x, y) || t[y][x] != PlacedTile::Floor {
        t
    } else {
        let t0 = put(t, x, y, PlacedTile::FloorStyled);
        if depth == 0 {
            t0
        } else {
            let t1 = if x > 0 { flood_fill(t0, x - 1, y, (depth - 1) as nat) } else { t0 };
            let t2 = if y > 0 { flood_fill(t1, x, y - 1, (depth - 1) as nat) } else { t1 };
            let t3 = if x < width_of(t) - 1 { flood_fill(t2, x + 1, y, (depth - 1) as nat) } else { t2 };
            if y < t.len() - 1 { flood_fill(t3, x, y + 1, (depth - 1) as nat) } else { t3 }
        }
    }
}

/// A fill keeps the grid's shape and brings no altar.
pub proof fn lemma_flood_fill_shape(t: Seq<Seq<PlacedTile>>, x: int, y: int, depth: nat)
    requires
        rect(t),
        no_altar(t),
    ensures
        rect(flood_fill(t, x, y, depth)),
        flood_fill(t, x, y, depth).len() == t.len(),
        width_of(flood_fill(t, x, y, depth)) == width_of(t),
        no_altar(flood_fill(t, x, y, depth)),
    decreases depth,
{
    if !in_bounds(t, x, y) || t[y][x] != PlacedTile::Floor {
    } else {
        let t0 = put(t, x, y, PlacedTile::FloorStyled);
        assert(t0[0].len() == t[0].len());
        assert(forall|r: int| 0 <= r < t.len() ==> #[trigger] t0[r].len() == t[r].len());
        assert(rect(t0));
        assert(no_altar(t0));
        if depth > 0 {
            let d = (depth - 1) as nat;
            let t1 = if x > 0 { flood_fill(t0, x - 1, y, d) } else { t0 };
            if x > 0 { lemma_flood_fill_shape(t0, x - 1, y, d); }
            let t2 = if y > 0 { flood_fill(t1, x, y - 1, d) } else { t1 };
            if y > 0 { lemma_flood_fill_shape(t1, x, y - 1, d); }
            let t3 = if x < width_of(t) - 1 { flood_fill(t2, x + 1, y, d) } else { t2 };
            if x < width_of(t) - 1 { lemma_flood_fill_shape(t2, x + 1, y, d); }
            if y < t.len() - 1 { lemma_flood_fill_shape(t3, x, y + 1, d); }
        }
    }
}

fn fill_styled(grid: &mut PlacedTileGrid, x: usize, y: usize, depth: usize)
    requires
        rect(tiles(old(grid)@)),
        in_bounds(tiles(old(grid)@), x as int, y as int),
    ensures
        tiles(final(grid)@) == flood_fill(tiles(old(grid)@), x as int, y as int, depth as nat),
        rect(tiles(final(grid)@)),
        tiles(final(grid)@).len() == tiles(old(grid)@).len(),
        width_of(tiles(final(grid)@)) == width_of(tiles(old(grid)@)),
    decreases depth,
{
    let ghost t = tiles(grid@);
    assert(tiles(grid@)[y as int] == grid@[y as int]@);
    if grid[y][x] != PlacedTile::Floor {
        return;
    }
    set_tile(grid, x, y, PlacedTile::FloorStyled);
    assert(tiles(grid@)[0].len() == t[0].len());
    assert(rect(tiles(grid@)));
    if depth == 0 {
        return;
    }
    let h: usize = grid.len();
    let w: usize = grid[0].len();
    if x > 0 {
        fill_styled(grid, x - 1, y, depth - 1);
    }
    if y > 0 {
        fill_styled(grid, x, y - 1, depth - 1);
    }
    if x < w - 1 {
        fill_styled(grid, x + 1, y, depth - 1);
    }
    if y < h - 1 {
        fill_styled(grid, x, y + 1, depth - 1);
    }
}

/// Pass B. With no grid given, every solid cell becomes `FloorStyled`. Over an existing
/// grid, two cells are drawn (a column, then a row, each from a `u32` draw) and a fill
/// of depth 3 from each recolours connected `Floor` cells.
pub open spec fn styled_pass(
    occ: Seq<Seq<bool>>,
    w: nat,
    h: nat,
    s: Stream,
    existing: Option<Seq<Seq<PlacedTile>>>,
) -> (Seq<Seq<PlacedTile>>, Stream) {
    match existing {
        None => (styled_grid(occ, w, h), s),
        Some(t) => {
            let (a, pos1) = u32_draw(s.seed, s.pos);
            let (b, pos2) = u32_draw(s.seed, pos1);
            let t1 = flood_fill(t, (a % (h as u32)) as int, (b % (w as u32)) as int, 3);
            let (c, pos3) = u32_draw(s.seed, pos2);
            let (d, pos4) = u32_draw(s.seed, pos3);
            let t2 = flood_fill(t1, (c % (h as u32)) as int, (d % (w as u32)) as int, 3);
            (t2, Stream { seed: s.seed, pos: pos4 })
        },
    }
}

impl GridGenerator {
    /// Pass B: styled floor, fresh or as patches over an existing floor grid.
    pub fn place_floorstyled_tiles(
        &self,
        _biome: &Biome,
        config: &Spelunkicon,
        rng: &mut Stream,
        existing_grid: Option<PlacedTileGrid>,
    ) -> (grid: PlacedTileGrid)
        requires
            config.wf(),
            existing_grid matches Some(g) ==> is_grid(
                tiles(g@),
                config.grid_width as nat,
                config.grid_height as nat,
            ),
        ensures
            (tiles(grid@), *final(rng)) == styled_pass(
                config.grid_view(),
                config.grid_width as nat,
                config.grid_height as nat,
                *old(rng),
                match existing_grid {
                    Some(g) => Some(tiles(g@)),
                    None => None,
                },
            ),
            is_grid(tiles(grid@), config.grid_width as nat, config.grid_height as nat),
    {
        match existing_grid {
            None => {
                let grid = stamp_solid(config, PlacedTile::FloorStyled);
                let ghost target = styled_grid(config.grid_view(), config.grid_width as nat, config.grid_height as nat);
                assert forall|i: int| 0 <= i < config.grid_height implies #[trigger] tiles(grid@)[i] =~= target[i] by {}
                assert(tiles(grid@) =~= target);
                grid
            },
            Some(existing) => {
                let mut grid = existing;
                let w: u32 = config.grid_width as u32;
                let h: u32 = config.grid_height as u32;
                let mut k: usize = 0;
                while k < 2
                    invariant
                        3 <= h <= 8,
                        w == h,
                        is_grid(tiles(grid@), w as nat, h as nat),
                        rng.seed == old(rng).seed,
                        k <= 2,
                        k == 0 ==> tiles(grid@) == tiles(existing@) && *rng == *old(rng),
                        k >= 1 ==> ({
                            let (a, pos1) = u32_draw(old(rng).seed, old(rng).pos);
                            let (b, pos2) = u32_draw(old(rng).seed, pos1);
                            &&& k == 1 ==> tiles(grid@) == flood_fill(tiles(existing@), (a % h) as int, (b % w) as int, 3)
                            &&& k == 1 ==> rng.pos == pos2
                            &&& k == 2 ==> ({
                                let (c, pos3) = u32_draw(old(rng).seed, pos2);
                                let (d, pos4) = u32_draw(old(rng).seed, pos3);
                                &&& tiles(grid@) == flood_fill(
                                    flood_fill(tiles(existing@), (a % h) as int, (b % w) as int, 3),
                                    (c % h) as int,
                                    (d % w) as int,
                                    3,
                                )
                                &&& rng.pos == pos4
                            })
                        }),
                    decreases 2 - k,
                {
                    let col_idx = rng.next_u32() % h;
                    let row_idx = rng.next_u32() % w;
                    let ghost before = tiles(grid@);
                    assert(before.len() > 0 && before[0].len() == w);
                    fill_styled(&mut grid, col_idx as usize, row_idx as usize, 3);
                    k = k + 1;
                }
                grid
            },
        }
    }
}

} // verus!
