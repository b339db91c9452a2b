use rand::rngs::StdRng;
use rand::seq::SliceRandom;
use rand::{Rng, SeedableRng};
use spelunkicons::biome::Biome;
use spelunkicons::generator::{plan_image, sheet_gen, GenSheet, SHEET_COUNT};
use spelunkicons::grid::PlacedTile;
use spelunkicons::placement::GridGenerator;
use spelunkicons::rng::Stream;
use spelunkicons::seed::Spelunkicon;

#[test]
fn stream_follows_std_rng() {
    for seed in [0u64, 1, 0xe8b7be43, 12345678] {
        let mut std_rng = StdRng::seed_from_u64(seed);
        let mut s = Stream::new(seed);
        for _ in 0..40 {
            assert_eq!(s.next_usize(), std_rng.gen::<usize>());
            assert_eq!(s.next_u32(), std_rng.gen::<u32>());
            assert_eq!(s.ratio(1, 2), std_rng.gen_bool(0.5));
            assert_eq!(s.ratio(1, 100), std_rng.gen_bool(0.01));
            assert_eq!(s.ratio(3333, 10000), std_rng.gen_bool(0.3333));
            let items = [10, 11, 12, 13];
            assert_eq!(items[s.choose_index(4)], *items.choose(&mut std_rng).unwrap());
            assert_eq!(s.below(3), std_rng.gen_range(0..3usize));
            assert_eq!(s.ratio(1, 5), std_rng.gen_bool(0.2));
        }
    }
}

#[test]
fn stream_draws_are_reproducible() {
    let mut a = Stream::new(99);
    let mut b = Stream::new(99);
    let xs: Vec<u32> = (0..16).map(|_| a.next_u32()).collect();
    let ys: Vec<u32> = (0..16).map(|_| b.next_u32()).collect();
    assert_eq!(xs, ys);
    assert_eq!(a, b);
    assert_eq!(a.pos, 16);
}

fn all_cells(g: &Vec<Vec<PlacedTile>>) -> Vec<PlacedTile> {
    g.iter().flat_map(|r| r.iter().copied()).collect()
}

#[test]
fn floor_pass_marks_solid_cells() {
    let c = Spelunkicon::from_input("a", None, 6, 2);
    let g = GridGenerator {}.place_floor_tiles(&Biome::Cave, &c, &mut Stream::new(0));
    for (r, row) in c.grid.iter().enumerate() {
        for (col, empty) in row.iter().enumerate() {
            let want = if *empty { PlacedTile::Empty } else { PlacedTile::Floor };
            assert_eq!(g[r][col], want);
        }
    }
}

#[test]
fn styled_pass_fresh_and_layered() {
    let c = Spelunkicon::from_input("a", None, 6, 2);
    let mut s = Stream::new(7);
    let fresh = GridGenerator {}.place_floorstyled_tiles(&Biome::Vlad, &c, &mut s, None);
    assert_eq!(s.pos, 0);
    for (r, row) in c.grid.iter().enumerate() {
        for (col, empty) in row.iter().enumerate() {
            let want = if *empty { PlacedTile::Empty } else { PlacedTile::FloorStyled };
            assert_eq!(fresh[r][col], want);
        }
    }
    let floor = GridGenerator {}.place_floor_tiles(&Biome::Cave, &c, &mut s);
    let layered = GridGenerator {}.place_floorstyled_tiles(&Biome::Cave, &c, &mut s, Some(floor.clone()));
    assert_eq!(s.pos, 4);
    for r in 0..6 {
        for col in 0..6 {
            let before = floor[r][col];
            let after = layered[r][col];
            assert!(after == before || (before == PlacedTile::Floor && after == PlacedTile::FloorStyled));
        }
    }
}

fn is_special(t: PlacedTile) -> bool {
    !matches!(t, PlacedTile::Empty | PlacedTile::Floor | PlacedTile::FloorStyled)
}

fn is_altar_left(t: PlacedTile) -> bool {
    matches!(t, PlacedTile::AltarLeft | PlacedTile::IdolAltarLeft | PlacedTile::EggplantAltarLeft)
}

fn is_altar_right(t: PlacedTile) -> bool {
    matches!(t, PlacedTile::AltarRight | PlacedTile::IdolAltarRight | PlacedTile::EggplantAltarRight)
}

#[test]
fn misc_pass_keeps_specials_and_one_altar() {
    let biomes = [
        Biome::Cave,
        Biome::Jungle,
        Biome::Beehive,
        Biome::Volcana,
        Biome::TidePool,
        Biome::Temple,
        Biome::CityOfGold,
        Biome::Ice,
        Biome::Babylon,
        Biome::Sunken,
        Biome::Surface,
    ];
    let mut placed_any = false;
    for input in ["a", "b", "c", "dungeon", "idol", "ice", "lava", "temple"] {
        for h in 3u8..=8 {
            for biome in biomes {
                let c = Spelunkicon::from_input(input, None, h, 255);
                let mut s = Stream::new(c.hash as u64);
                let floor = GridGenerator {}.place_floor_tiles(&biome, &c, &mut s);
                let mut grid = floor.clone();
                // Run the pass in steps of one attempt and check that no special tile
                // is lost between steps.
                let one = Spelunkicon::from_input(input, None, h, 1);
                for _ in 0..40 {
                    let next = GridGenerator {}.place_floormisc_tiles(&biome, &one, &mut s, grid.clone());
                    for (a, b) in all_cells(&grid).iter().zip(all_cells(&next).iter()) {
                        if is_special(*a) {
                            assert!(is_special(*b));
                        }
                        if a != b {
                            assert!(is_special(*b));
                        }
                    }
                    grid = next;
                    let cells = all_cells(&grid);
                    if cells.iter().any(|t| is_special(*t)) {
                        placed_any = true;
                    }
                }
                let full = GridGenerator {}.place_floormisc_tiles(&biome, &c, &mut Stream::new(c.hash as u64), floor);
                let cells = all_cells(&full);
                assert!(cells.iter().filter(|t| is_altar_left(**t)).count() <= 1);
                assert!(cells.iter().filter(|t| is_altar_right(**t)).count() <= 1);
            }
        }
    }
    assert!(placed_any);
}

#[test]
fn first_draw_picks_the_sheet() {
    let c = Spelunkicon::from_input("a", None, 6, 2);
    let plan = plan_image(&c, false, false);
    let mut std_rng = StdRng::seed_from_u64(c.hash as u64);
    let idx = std_rng.gen::<usize>() % SHEET_COUNT;
    let classic = std_rng.gen_bool(0.01);
    assert_eq!(plan.sheet_index, idx);
    assert_eq!(plan.classic, classic);
    assert!(!plan.draws.is_empty());
}

#[test]
fn same_request_same_plan() {
    for input in ["a", "b", "spelunky", "bat"] {
        for h in 3u8..=8 {
            let p1 = plan_image(&Spelunkicon::from_input(input, None, h, 2), false, false);
            let p2 = plan_image(&Spelunkicon::from_input(input, None, h, 2), false, false);
            assert_eq!(p1.sheet_index, p2.sheet_index);
            assert_eq!(p1.classic, p2.classic);
            assert_eq!(p1.draws, p2.draws);
            assert_eq!(p1.rng, p2.rng);
        }
    }
}

#[test]
fn flag_request_keeps_the_first_draws() {
    let c = Spelunkicon::from_input("a", None, 6, 2);
    let plain = plan_image(&c, false, false);
    assert!(plain.flag.is_none());
    let flag = plan_image(&c, true, false);
    assert!(flag.flag.is_some());
    assert_ne!(flag.draws, plain.draws);
    assert_eq!(flag.sheet_index, plain.sheet_index);
    assert_eq!(flag.classic, plain.classic);
    let classic = plan_image(&c, false, true);
    assert!(classic.classic);
    assert_eq!(classic.draws, plain.draws);
}

#[test]
fn sheet_table_order() {
    assert_eq!(SHEET_COUNT, 18);
    assert_eq!(sheet_gen(0), GenSheet::Floor(Biome::Surface));
    assert_eq!(sheet_gen(4), GenSheet::FloorAndFloorStyled(Biome::Cave));
    assert_eq!(sheet_gen(6), GenSheet::FloorAndFloorStyled(Biome::Beehive));
    assert_eq!(sheet_gen(12), GenSheet::FloorStyled(Biome::Olmec));
    assert_eq!(sheet_gen(17), GenSheet::FloorStyled(Biome::Guts));
}

#[test]
fn stream_pins_first_draws() {
    let mut s = Stream::new(0);
    let words: Vec<u32> = (0..4).map(|_| s.next_u32()).collect();
    let wide: Vec<usize> = (0..2).map(|_| s.next_usize()).collect();
    assert_eq!(words, vec![3442241407, 3140108210, 2384947579, 3321986196]);
    assert_eq!(wide, vec![476749353381333526, 10775836403224147664]);
    assert_eq!(s.pos, 8);
}
