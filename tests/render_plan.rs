use spelunkicons::atlas::{Atlas, Blit, Draw, TILE_HEIGHT, TILE_WIDTH};
use spelunkicons::biome::Biome;
use spelunkicons::grid::{empty_grid, set_tile, PlacedTile};
use spelunkicons::placement::GridGenerator;
use spelunkicons::pride::{bands_of, paint_bands, Flag};
use spelunkicons::render::{Canvas, GridRenderer};
use spelunkicons::rng::Stream;
use spelunkicons::seed::Spelunkicon;

fn tile(atlas: Atlas, tx: u32, ty: u32, x: i64, y: i64) -> Draw {
    Draw { atlas, tile_x: tx, tile_y: ty, x, y, blit: Blit::Tile }
}

#[test]
fn floor_tiles_one_draw_per_floor_cell() {
    let c = Spelunkicon::from_input("a", None, 6, 2);
    let mut s = Stream::new(1);
    let grid = GridGenerator {}.place_floor_tiles(&Biome::Cave, &c, &mut s);
    let floors = grid.iter().flatten().filter(|t| **t == PlacedTile::Floor).count();
    let mut canvas = Canvas::new(Stream::new(5));
    GridRenderer::new(false).render_floor_tiles(&mut canvas, &Biome::Cave, &grid);
    assert_eq!(canvas.draws.len(), floors);
    for d in &canvas.draws {
        assert_eq!(d.atlas, Atlas::FloorCave);
        assert!(d.tile_x < 2 && d.tile_y < 2);
        assert_eq!(d.x % TILE_WIDTH, 0);
        assert_eq!(d.y % TILE_HEIGHT, 0);
    }
    // One choice per floor cell.
    assert_eq!(canvas.rng.pos as usize >= floors, true);
}

#[test]
fn styled_isolated_cell_draw() {
    let mut grid = empty_grid(3, 3);
    set_tile(&mut grid, 1, 1, PlacedTile::FloorStyled);
    let mut canvas = Canvas::new(Stream::new(0));
    GridRenderer::new(false).render_floorstyled_tiles(&mut canvas, &Biome::Vlad, &grid);
    assert_eq!(canvas.draws, vec![tile(Atlas::StyledVlad, 7, 2, TILE_WIDTH, TILE_HEIGHT)]);
    assert_eq!(canvas.rng.pos, 0);
}

#[test]
fn arrow_trap_faces_the_open_side() {
    let mut grid = empty_grid(4, 3);
    for x in 0..4 {
        set_tile(&mut grid, x, 2, PlacedTile::Floor);
    }
    set_tile(&mut grid, 2, 1, PlacedTile::Floor);
    set_tile(&mut grid, 1, 1, PlacedTile::ArrowTrap);
    let mut canvas = Canvas::new(Stream::new(0));
    GridRenderer::new(false).render_floormisc_tiles(&mut canvas, &Biome::Cave, &grid);
    let d = canvas.draws[0];
    assert_eq!(d.atlas, Atlas::FloorMisc);
    assert_eq!((d.tile_x, d.tile_y), (1, 0));
    assert_eq!(d.blit, Blit::Flipped);

    let mut grid2 = empty_grid(4, 3);
    set_tile(&mut grid2, 0, 1, PlacedTile::Floor);
    set_tile(&mut grid2, 1, 1, PlacedTile::ArrowTrap);
    let mut canvas2 = Canvas::new(Stream::new(0));
    GridRenderer::new(false).render_floormisc_tiles(&mut canvas2, &Biome::Sunken, &grid2);
    assert_eq!(canvas2.draws, vec![tile(Atlas::FloorMisc, 6, 0, TILE_WIDTH, TILE_HEIGHT)]);
}

#[test]
fn platform_hangs_to_the_floor() {
    // A platform at the top of a 5-high column with floor at the bottom row.
    let mut grid = empty_grid(3, 5);
    set_tile(&mut grid, 1, 1, PlacedTile::Platform);
    set_tile(&mut grid, 1, 4, PlacedTile::Floor);
    let mut canvas = Canvas::new(Stream::new(0));
    GridRenderer::new(false).render_floormisc_tiles(&mut canvas, &Biome::Cave, &grid);
    let x = TILE_WIDTH;
    assert_eq!(
        canvas.draws,
        vec![
            tile(Atlas::FloorMisc, 1, 1, x, TILE_HEIGHT),
            tile(Atlas::FloorMisc, 1, 2, x, 2 * TILE_HEIGHT),
            tile(Atlas::FloorMisc, 1, 3, x, 3 * TILE_HEIGHT),
        ]
    );
    // Directly on the floor only the short piece is drawn.
    let mut grid2 = empty_grid(3, 3);
    set_tile(&mut grid2, 1, 1, PlacedTile::Platform);
    set_tile(&mut grid2, 1, 2, PlacedTile::Floor);
    let mut canvas2 = Canvas::new(Stream::new(0));
    GridRenderer::new(false).render_floormisc_tiles(&mut canvas2, &Biome::TidePool, &grid2);
    assert_eq!(canvas2.draws, vec![tile(Atlas::FloorMisc, 6, 3, x, TILE_HEIGHT)]);
}

#[test]
fn chains_and_crush_traps() {
    let mut grid = empty_grid(4, 4);
    set_tile(&mut grid, 1, 0, PlacedTile::ChainTop);
    set_tile(&mut grid, 1, 1, PlacedTile::ChainMid);
    set_tile(&mut grid, 1, 2, PlacedTile::ChainBot);
    set_tile(&mut grid, 2, 3, PlacedTile::CrushTrap);
    let mut canvas = Canvas::new(Stream::new(0));
    GridRenderer::new(false).render_floormisc_tiles(&mut canvas, &Biome::CityOfGold, &grid);
    let w = TILE_WIDTH;
    let h = TILE_HEIGHT;
    assert_eq!(
        canvas.draws,
        vec![
            tile(Atlas::FloorCave, 4, 0, w, 0),
            tile(Atlas::FloorCave, 7, 1, w, 0),
            tile(Atlas::FloorCave, 4, 1, w, h),
            tile(Atlas::FloorCave, 4, 2, w, 2 * h),
            tile(Atlas::FloorCave, 7, 3, w, 2 * h),
            tile(Atlas::StyledGold, 9, 0, 2 * w, 3 * h),
        ]
    );
}

#[test]
fn honey_sits_off_the_cell() {
    let mut grid = empty_grid(3, 3);
    set_tile(&mut grid, 1, 1, PlacedTile::HoneyUp);
    set_tile(&mut grid, 2, 1, PlacedTile::HoneyDown);
    let mut canvas = Canvas::new(Stream::new(0));
    GridRenderer::new(false).render_floormisc_tiles(&mut canvas, &Biome::Beehive, &grid);
    assert_eq!(
        canvas.draws,
        vec![
            tile(Atlas::Items, 14, 14, TILE_WIDTH, TILE_HEIGHT - 22),
            tile(Atlas::Items, 13, 14, 2 * TILE_WIDTH, TILE_HEIGHT + 22),
        ]
    );
}

#[test]
fn bush_trim_and_cap() {
    let mut grid = empty_grid(3, 3);
    set_tile(&mut grid, 1, 1, PlacedTile::BushBlock);
    let mut canvas = Canvas::new(Stream::new(0));
    GridRenderer::new(false).render_floor_decorations(&mut canvas, &Biome::Jungle, &grid);
    let (x, y) = (TILE_WIDTH, TILE_HEIGHT);
    assert_eq!(
        canvas.draws,
        vec![
            tile(Atlas::FloorJungle, 10, 3, x - TILE_WIDTH / 2, y),
            tile(Atlas::FloorJungle, 11, 3, x + TILE_WIDTH / 2, y),
            tile(Atlas::FloorJungle, 10, 4, x, y + TILE_HEIGHT / 2),
            tile(Atlas::FloorJungle, 11, 2, x, y - TILE_HEIGHT / 2),
        ]
    );
    assert_eq!(canvas.rng.pos, 0);
}

#[test]
fn lone_floor_gets_trim_on_every_side() {
    let mut grid = empty_grid(3, 3);
    set_tile(&mut grid, 1, 1, PlacedTile::Floor);
    let mut canvas = Canvas::new(Stream::new(3));
    // Surface has no spikes, so the top trim is one of the three plain pieces.
    GridRenderer::new(false).render_floor_decorations(&mut canvas, &Biome::Surface, &grid);
    let d = &canvas.draws;
    assert_eq!(d.len(), 4);
    assert_eq!((d[0].tile_x, d[0].tile_y, d[0].blit), (7, 5, Blit::Flipped));
    assert_eq!(d[0].x, TILE_WIDTH - TILE_WIDTH / 2);
    assert_eq!((d[1].tile_x, d[1].tile_y, d[1].blit), (7, 5, Blit::Tile));
    assert_eq!(d[2].tile_y, 7);
    assert_eq!(d[2].y, TILE_HEIGHT + TILE_HEIGHT / 2);
    assert_eq!(d[3].tile_y, 6);
    assert_eq!(d[3].y, TILE_HEIGHT - TILE_HEIGHT / 2);
}

#[test]
fn embeds_only_on_solid_floor() {
    let c = Spelunkicon::from_input("a", None, 6, 2);
    let mut s = Stream::new(0);
    let grid = GridGenerator {}.place_floor_tiles(&Biome::Cave, &c, &mut s);
    let mut canvas = Canvas::new(Stream::new(77));
    GridRenderer::new(false).render_floor_embeds(&mut canvas, &c, &grid);
    for d in &canvas.draws {
        assert_eq!(d.atlas, Atlas::Items);
        let col = (d.x / TILE_WIDTH) as usize;
        let row = (d.y / TILE_HEIGHT) as usize;
        assert!(!c.grid[row][col]);
    }
    // Every solid cell takes at least one draw.
    let solid = c.grid.iter().flatten().filter(|e| !**e).count();
    assert!(canvas.rng.pos as usize >= solid);

    let empty = empty_grid(6, 6);
    let mut canvas2 = Canvas::new(Stream::new(77));
    GridRenderer::new(false).render_floor_embeds(&mut canvas2, &c, &empty);
    assert!(canvas2.draws.is_empty());
    assert_eq!(canvas2.rng.pos, 0);
}

#[test]
fn flags_fill_the_grid() {
    for input in ["a", "b", "flag", "rainbow"] {
        for h in 3u8..=8 {
            let c = Spelunkicon::from_input(input, Some("pride".to_string()), h, 2);
            let plan = spelunkicons::generator::plan_image(&c, true, false);
            let flag = plan.flag.expect("every size has a flag");
            let allowed: &[Flag] = match h {
                3 => &[Flag::Pansexual, Flag::Genderqueer],
                4 => &[Flag::Nonbinary, Flag::Ace],
                5 => &[Flag::Trans, Flag::Bi],
                6 => &[Flag::Gay],
                7 => &[Flag::Agender, Flag::Intersex],
                _ => &[Flag::Blm],
            };
            assert!(allowed.contains(&flag));
            // Every column of every band is drawn: at least one tile per column and row
            // of the flag's stripes.
            assert!(plan.draws.len() >= h as usize * h as usize - if h == 3 { 0 } else { h as usize });
            for d in &plan.draws {
                assert!(d.x >= 0 && d.x < h as i64 * TILE_WIDTH);
                assert_eq!(d.blit, Blit::Tile);
            }
        }
    }
}

#[test]
fn gay_flag_stripes() {
    let bands = bands_of(Flag::Gay, 6);
    assert_eq!(bands.len(), 9);
    let mut canvas = Canvas::new(Stream::new(4));
    paint_bands(&mut canvas, &bands, 6);
    // Six stripes of six tiles, then trim: cave up and down, jungle up and down,
    // eggplant up.
    assert_eq!(canvas.draws.len(), 6 * 6 + 6 * 5);
    assert_eq!(canvas.draws[0], tile(Atlas::StyledVlad, 1, 5, 0, 0));
    assert_eq!(canvas.draws[6], tile(Atlas::FloorCave, 0, 0, 0, TILE_HEIGHT));
    assert_eq!(canvas.draws[35], tile(Atlas::FloorEggplant, 0, 0, 5 * TILE_WIDTH, 5 * TILE_HEIGHT));
    let first_trim = canvas.draws[36];
    assert_eq!(first_trim.atlas, Atlas::FloorCave);
    assert_eq!(first_trim.tile_y, 6);
    assert!((5..=7).contains(&first_trim.tile_x));
    assert_eq!(first_trim.y, TILE_HEIGHT - TILE_HEIGHT / 2);
    assert_eq!(canvas.draws[37].tile_y, 7);
    assert_eq!(canvas.draws[37].y, TILE_HEIGHT + TILE_HEIGHT / 2);
    assert_eq!(canvas.rng.pos > 0, true);
}

#[test]
fn intersex_flag_is_all_gold() {
    let bands = bands_of(Flag::Intersex, 7);
    let mut canvas = Canvas::new(Stream::new(0));
    paint_bands(&mut canvas, &bands, 7);
    assert_eq!(canvas.draws.len(), 49);
    // Column by column, top to bottom.
    assert_eq!(canvas.draws[1], tile(Atlas::StyledGold, 1, 3, 0, TILE_HEIGHT));
    assert_eq!(canvas.draws[7], tile(Atlas::StyledGold, 1, 3, TILE_WIDTH, 0));
    assert_eq!(canvas.rng.pos, 0);
}
