use vstd::prelude::*;
use crate::atlas::{spec_floor_atlas, spec_styled_atlas, Draw};
use crate::biome::{Biome, GenKind};
use crate::grid::{is_grid, rect, tiles, width_of, PlacedTile};
use crate::misc::{misc_attempts, no_altar};
use crate::placement::{floor_grid, lemma_flood_fill_shape, styled_pass, GridGenerator};
use crate::render::{deco_paint, embed_paint, floor_paint, misc_paint, styled_paint, Canvas, GridRenderer, Paint};
use crate::pride::{bands_paint, flag_bands, flag_choice, Flag, PrideRenderer};
use crate::rng::{ratio_draw, usize_draw, Stream};
use crate::seed::{crc32_of, Spelunkicon};

verus! {

/// Number of entries of the sheet table.
pub const SHEET_COUNT: usize = 18;

/// A sheet: which passes to run, over which biome.
#[derive(Debug, Clone, Copy, PartialEq, Eq, Structural)]
pub enum GenSheet {
    Floor(Biome),
    FloorStyled(Biome),
    FloorAndFloorStyled(Biome),
}

impl GenSheet {
    pub open spec fn spec_new(kind: GenKind, biome: Biome) -> GenSheet {
        match kind {
            GenKind::Floor => GenSheet::Floor(biome),
            GenKind::FloorStyled => GenSheet::FloorStyled(biome),
            GenKind::FloorAndFloorStyled => GenSheet::FloorAndFloorStyled(biome),
        }
    }

    pub fn new(kind: GenKind, biome: Biome) -> (r: GenSheet)
        ensures
            r == GenSheet::spec_new(kind, biome),
    {
        match kind {
            GenKind::Floor => GenSheet::Floor(biome),
            GenKind::FloorStyled => GenSheet::FloorStyled(biome),
            GenKind::FloorAndFloorStyled => GenSheet::FloorAndFloorStyled(biome),
        }
    }

    /// The atlases that the sheet's passes paint from exist for its biome.
    pub open spec fn atlases_present(self) -> bool {
        match self {
            GenSheet::Floor(b) => spec_floor_atlas(b) is Some,
            GenSheet::FloorStyled(b) => spec_styled_atlas(b) is Some,
            GenSheet::FloorAndFloorStyled(b) => spec_floor_atlas(b) is Some && spec_styled_atlas(b) is Some,
        }
    }

    /// What the sheet paints on the request's grid, starting from `init`: the placement
    /// passes draw from the stream first, then the painting passes, in the order of the
    /// sheet's kind.
    pub open spec fn paint(self, occ: Seq<Seq<bool>>, n: nat, max_misc: nat, init: Paint) -> Paint {
        match self {
            GenSheet::Floor(b) => {
                let t0 = floor_grid(occ, n, n);
                let (t1, s1, _) = misc_attempts(t0, init.1, b, false, max_misc);
                let a = spec_floor_atlas(b)->Some_0;
                let pos1 = floor_paint(t1, a, (init.0, s1, init.2));
                let pos2 = misc_paint(t1, b, pos1);
                let pos3 = deco_paint(t1, a, b, pos2);
                embed_paint(occ, t1, pos3)
            },
            GenSheet::FloorStyled(b) => {
                let (t0, s0) = styled_pass(occ, n, n, init.1, None);
                let (t1, s1, _) = misc_attempts(t0, s0, b, false, max_misc);
                let pos1 = styled_paint(t1, spec_styled_atlas(b)->Some_0, (init.0, s1, init.2));
                misc_paint(t1, b, pos1)
            },
            GenSheet::FloorAndFloorStyled(b) => {
                let (t0, s0) = styled_pass(occ, n, n, init.1, Some(floor_grid(occ, n, n)));
                let (t1, s1, _) = misc_attempts(t0, s0, b, false, max_misc);
                let a = spec_floor_atlas(b)->Some_0;
                let pos1 = floor_paint(t1, a, (init.0, s1, init.2));
                let pos2 = styled_paint(t1, spec_styled_atlas(b)->Some_0, pos1);
                let pos3 = misc_paint(t1, b, pos2);
                let pos4 = deco_paint(t1, a, b, pos3);
                embed_paint(occ, t1, pos4)
            },
        }
    }

    /// Runs the sheet's placement and painting passes for the request onto `canvas`.
    pub fn generate_image(&self, canvas: &mut Canvas, config: &Spelunkicon)
        requires
            config.wf(),
            self.atlases_present(),
        ensures
            final(canvas).paint() == self.paint(
                config.grid_view(),
                config.grid_height as nat,
                config.max_misc as nat,
                old(canvas).paint(),
            ),
    {
        let ghost occ = config.grid_view();
        let ghost n = config.grid_height as nat;
        proof {
            assert(floor_grid(occ, n, n)[0].len() == n);
            assert(no_altar(floor_grid(occ, n, n)));
        }
        let placer = GridGenerator {};
        let painter = GridRenderer::new(false);
        match self {
            GenSheet::Floor(biome) => {
                let floor = placer.place_floor_tiles(biome, config, &mut canvas.rng);
                let floor = placer.place_floormisc_tiles(biome, config, &mut canvas.rng, floor);
                painter.render_floor_tiles(canvas, biome, &floor);
                painter.render_floormisc_tiles(canvas, biome, &floor);
                painter.render_floor_decorations(canvas, biome, &floor);
                painter.render_floor_embeds(canvas, config, &floor);
            },
            GenSheet::FloorStyled(biome) => {
                let floor = placer.place_floorstyled_tiles(biome, config, &mut canvas.rng, None);
                proof {
                    assert(tiles(floor@)[0].len() == n);
                }
                let floor = placer.place_floormisc_tiles(biome, config, &mut canvas.rng, floor);
                painter.render_floorstyled_tiles(canvas, biome, &floor);
                painter.render_floormisc_tiles(canvas, biome, &floor);
            },
            GenSheet::FloorAndFloorStyled(biome) => {
                let floor = placer.place_floor_tiles(biome, config, &mut canvas.rng);
                let ghost s0 = canvas.rng;
                let floor = placer.place_floorstyled_tiles(biome, config, &mut canvas.rng, Some(floor));
                proof {
                    let t = floor_grid(occ, n, n);
                    let (a, pos1) = crate::rng::u32_draw(s0.seed, s0.pos);
                    let (b2, pos2) = crate::rng::u32_draw(s0.seed, pos1);
                    let (c, pos3) = crate::rng::u32_draw(s0.seed, pos2);
                    let (d, pos4) = crate::rng::u32_draw(s0.seed, pos3);
                    let hh = n as u32;
                    let t1 = crate::placement::flood_fill(t, (a % hh) as int, (b2 % hh) as int, 3);
                    lemma_flood_fill_shape(t, (a % hh) as int, (b2 % hh) as int, 3);
                    lemma_flood_fill_shape(t1, (c % hh) as int, (d % hh) as int, 3);
                }
                let floor = placer.place_floormisc_tiles(biome, config, &mut canvas.rng, floor);
                painter.render_floor_tiles(canvas, biome, &floor);
                painter.render_floorstyled_tiles(canvas, biome, &floor);
                painter.render_floormisc_tiles(canvas, biome, &floor);
                painter.render_floor_decorations(canvas, biome, &floor);
                painter.render_floor_embeds(canvas, config, &floor);
            },
        }
    }
}

/// The fixed, ordered table of sheets that a request picks from.
pub open spec fn sheet_entry(i: int) -> GenSheet {
    if i == 0 { GenSheet::Floor(Biome::Surface) }
    else if i == 1 { GenSheet::Floor(Biome::Eggplant) }
    else if i == 2 { GenSheet::Floor(Biome::Ice) }
    else if i == 3 { GenSheet::Floor(Biome::Volcana) }
    else if i == 4 { GenSheet::FloorAndFloorStyled(Biome::Cave) }
    else if i == 5 { GenSheet::FloorAndFloorStyled(Biome::Jungle) }
    else if i == 6 { GenSheet::FloorAndFloorStyled(Biome::Beehive) }
    else if i == 7 { GenSheet::FloorAndFloorStyled(Biome::Babylon) }
    else if i == 8 { GenSheet::FloorAndFloorStyled(Biome::Sunken) }
    else if i == 9 { GenSheet::FloorAndFloorStyled(Biome::Temple) }
    else if i == 10 { GenSheet::FloorAndFloorStyled(Biome::TidePool) }
    else if i == 11 { GenSheet::FloorStyled(Biome::Vlad) }
    else if i == 12 { GenSheet::FloorStyled(Biome::Olmec) }
    else if i == 13 { GenSheet::FloorStyled(Biome::CityOfGold) }
    else if i == 14 { GenSheet::FloorStyled(Biome::Duat) }
    else if i == 15 { GenSheet::FloorStyled(Biome::Mothership) }
    else if i == 16 { GenSheet::FloorStyled(Biome::PalaceOfPleasure) }
    else { GenSheet::FloorStyled(Biome::Guts) }
}

/// Entry `i` of the sheet table.
pub fn sheet_gen(i: usize) -> (r: GenSheet)
    requires
        i < SHEET_COUNT,
    ensures
        r == sheet_entry(i as int),
        r.atlases_present(),
{
    if i == 0 { GenSheet::Floor(Biome::Surface) }
    else if i == 1 { GenSheet::Floor(Biome::Eggplant) }
    else if i == 2 { GenSheet::Floor(Biome::Ice) }
    else if i == 3 { GenSheet::Floor(Biome::Volcana) }
    else if i == 4 { GenSheet::FloorAndFloorStyled(Biome::Cave) }
    else if i == 5 { GenSheet::FloorAndFloorStyled(Biome::Jungle) }
    else if i == 6 { GenSheet::FloorAndFloorStyled(Biome::Beehive) }
    else if i == 7 { GenSheet::FloorAndFloorStyled(Biome::Babylon) }
    else if i == 8 { GenSheet::FloorAndFloorStyled(Biome::Sunken) }
    else if i == 9 { GenSheet::FloorAndFloorStyled(Biome::Temple) }
    else if i == 10 { GenSheet::FloorAndFloorStyled(Biome::TidePool) }
    else if i == 11 { GenSheet::FloorStyled(Biome::Vlad) }
    else if i == 12 { GenSheet::FloorStyled(Biome::Olmec) }
    else if i == 13 { GenSheet::FloorStyled(Biome::CityOfGold) }
    else if i == 14 { GenSheet::FloorStyled(Biome::Duat) }
    else if i == 15 { GenSheet::FloorStyled(Biome::Mothership) }
    else if i == 16 { GenSheet::FloorStyled(Biome::PalaceOfPleasure) }
    else { GenSheet::FloorStyled(Biome::Guts) }
}

/// What one request paints: the table entry drawn, whether the classic texture set is
/// used, the flag drawn instead of a dungeon floor when one was asked for, the draw
/// commands, and the stream after them.
pub struct Plan {
    pub sheet_index: usize,
    pub classic: bool,
    pub flag: Option<Flag>,
    pub draws: Vec<Draw>,
    pub rng: Stream,
}

/// The plan of a request with hash `hash`, occupancy grid `occ` of side `n` and misc
/// count `max_misc`: the stream is seeded with the hash; its first draw picks the table
/// entry, its second decides the classic set (1 in 100, or when asked for). Then either
/// the entry's passes follow, or, when a flag was asked for, the flag for the grid's size
/// is picked and its bands laid across the grid.
pub open spec fn plan_of(
    hash: u32,
    occ: Seq<Seq<bool>>,
    n: nat,
    max_misc: nat,
    pride: bool,
    classic_requested: bool,
) -> (usize, bool, Option<Flag>, Seq<Draw>, Stream) {
    let s0 = Stream { seed: hash as u64, pos: 0 };
    let (v, pos1) = usize_draw(s0.seed, s0.pos);
    let idx = v % SHEET_COUNT;
    let (c, pos2) = ratio_draw(s0.seed, pos1, 1, 100);
    let s2 = Stream { seed: s0.seed, pos: pos2 };
    if pride {
        let (flag, s3) = flag_choice(n as u8, s2);
        match flag {
            Some(f) => {
                let bands = flag_bands(f, n);
                let p = bands_paint(bands, n, (Seq::empty(), s3, false), bands.len());
                (idx, c || classic_requested, flag, p.0, p.1)
            },
            None => (idx, c || classic_requested, flag, Seq::empty(), s3),
        }
    } else {
        let p = sheet_entry(idx as int).paint(occ, n, max_misc, (Seq::empty(), s2, false));
        (idx, c || classic_requested, None, p.0, p.1)
    }
}

/// Plans the image of a request: which sheet, which texture set, and every draw command
/// in painting order.
pub fn plan_image(config: &Spelunkicon, pride: bool, classic_requested: bool) -> (r: Plan)
    requires
        config.wf(),
    ensures
        (r.sheet_index, r.classic, r.flag, r.draws@, r.rng) == plan_of(
            config.hash,
            config.grid_view(),
            config.grid_height as nat,
            config.max_misc as nat,
            pride,
            classic_requested,
        ),
        r.sheet_index < SHEET_COUNT,
{
    let mut rng = Stream::new(config.hash as u64);
    let sheet_index = rng.next_usize() % SHEET_COUNT;
    let classic = rng.ratio(1, 100) || classic_requested;
    if pride {
        let mut canvas = Canvas::new(rng);
        let flag = PrideRenderer::new(classic).render(&mut canvas, config.grid_height);
        return Plan { sheet_index, classic, flag, draws: canvas.draws, rng: canvas.rng };
    }
    let sheet = sheet_gen(sheet_index);
    let mut canvas = Canvas::new(rng);
    sheet.generate_image(&mut canvas, config);
    Plan { sheet_index, classic, flag: None, draws: canvas.draws, rng: canvas.rng }
}

/// Generation is deterministic: two requests made from the same input bytes, size and
/// misc count (and the same two flags) get the same sheet, texture set and draw
/// commands, since the hash is the input's checksum and the grid is derived from the
/// hash and size alone.
pub proof fn lemma_plan_deterministic(
    input: Seq<u8>,
    a: Spelunkicon,
    b: Spelunkicon,
    pride: bool,
    classic_requested: bool,
)
    requires
        a.wf(),
        b.wf(),
        a.hash == crc32_of(input),
        b.hash == crc32_of(input),
        a.grid_height == b.grid_height,
        a.max_misc == b.max_misc,
    ensures
        plan_of(a.hash, a.grid_view(), a.grid_height as nat, a.max_misc as nat, pride, classic_requested)
            == plan_of(b.hash, b.grid_view(), b.grid_height as nat, b.max_misc as nat, pride, classic_requested),
{
}

} // verus!
