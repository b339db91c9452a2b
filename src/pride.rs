use vstd::prelude::*;
use crate::atlas::{Atlas, Blit, Draw, TILE_HEIGHT, TILE_WIDTH};
use crate::misc::advanced;
use crate::render::{px, tile_draw, Canvas, Paint};
use crate::rng::{choose_draw, ratio_draw, Stream};

verus! {

/// A decorative flag, drawn in bands of tiles across the whole width.
#[derive(Debug, Clone, Copy, PartialEq, Eq, Structural)]
pub enum Flag {
    Pansexual,
    Genderqueer,
    Nonbinary,
    Ace,
    Trans,
    Bi,
    Gay,
    Agender,
    Intersex,
    Blm,
}

/// One tile that a band lays in every column, at pixel row `y`: a fixed atlas tile, or
/// one of the three trim tiles 5, 6 and 7 of an atlas row, picked at random per column.
#[derive(Debug, Clone, Copy, PartialEq, Eq, Structural)]
pub enum Piece {
    Fixed { atlas: Atlas, tile_x: u32, tile_y: u32, y: i64 },
    Pick { atlas: Atlas, tile_y: u32, y: i64 },
}

/// The flag drawn for a grid of side `height`: a coin flip between two flags for 3, 4, 5
/// and 7, a fixed one for 6 and 8, none for other sizes.
pub open spec fn flag_choice(height: u8, s: Stream) -> (Option<Flag>, Stream) {
    let (b, p) = ratio_draw(s.seed, s.pos, 1, 2);
    let flip = |f: Flag, g: Flag| (Some(if b { f } else { g }), advanced(s, p));
    if height == 3 {
        flip(Flag::Pansexual, Flag::Genderqueer)
    } else if height == 4 {
        flip(Flag::Nonbinary, Flag::Ace)
    } else if height == 5 {
        flip(Flag::Trans, Flag::Bi)
    } else if height == 6 {
        (Some(Flag::Gay), s)
    } else if height == 7 {
        flip(Flag::Agender, Flag::Intersex)
    } else if height == 8 {
        (Some(Flag::Blm), s)
    } else {
        (None, s)
    }
}

/// Picks the flag for a grid of side `height`.
pub fn choose_flag(height: u8, rng: &mut Stream) -> (r: Option<Flag>)
    ensures
        (r, *final(rng)) == flag_choice(height, *old(rng)),
{
    if height == 3 {
        Some(if rng.ratio(1, 2) { Flag::Pansexual } else { Flag::Genderqueer })
    } else if height == 4 {
        Some(if rng.ratio(1, 2) { Flag::Nonbinary } else { Flag::Ace })
    } else if height == 5 {
        Some(if rng.ratio(1, 2) { Flag::Trans } else { Flag::Bi })
    } else if height == 6 {
        Some(Flag::Gay)
    } else if height == 7 {
        Some(if rng.ratio(1, 2) { Flag::Agender } else { Flag::Intersex })
    } else if height == 8 {
        Some(Flag::Blm)
    } else {
        None
    }
}

/// Pixel row of grid row `row`.
pub open spec fn at_row_y(row: int) -> i64 {
    (row * TILE_HEIGHT) as i64
}

/// Pixel row half a tile above grid row `row`.
pub open spec fn above_row_y(row: int) -> i64 {
    (row * TILE_HEIGHT - TILE_HEIGHT / 2) as i64
}

/// Pixel row half a tile below grid row `row`.
pub open spec fn below_row_y(row: int) -> i64 {
    (row * TILE_HEIGHT + TILE_HEIGHT / 2) as i64
}

fn at_row(row: i64) -> (r: i64)
    requires
        0 <= row <= 8,
    ensures
        r == at_row_y(row as int),
{
    row * TILE_HEIGHT
}

fn above_row(row: i64) -> (r: i64)
    requires
        0 <= row <= 8,
    ensures
        r == above_row_y(row as int),
{
    row * TILE_HEIGHT - TILE_HEIGHT / 2
}

fn below_row(row: i64) -> (r: i64)
    requires
        0 <= row <= 8,
    ensures
        r == below_row_y(row as int),
{
    row * TILE_HEIGHT + TILE_HEIGHT / 2
}

/// The bands of a flag on a grid `height` rows high, drawn in order; each band lays its
/// pieces in every column, column by column.
pub open spec fn flag_bands(flag: Flag, height: nat) -> Seq<Seq<Piece>> {
    match flag {
        Flag::Pansexual => seq![
            seq![Piece::Fixed { atlas: Atlas::StyledGuts, tile_x: 1, tile_y: 4, y: at_row_y(0) }],
            seq![Piece::Fixed { atlas: Atlas::StyledGold, tile_x: 1, tile_y: 5, y: at_row_y(1) }],
            seq![Piece::Fixed { atlas: Atlas::FloorTidepool, tile_x: 0, tile_y: 0, y: at_row_y(2) }],
            seq![Piece::Pick { atlas: Atlas::FloorTidepool, tile_y: 6, y: above_row_y(2) }],
        ],
        Flag::Genderqueer => seq![
            seq![Piece::Fixed { atlas: Atlas::FloorSunken, tile_x: 8, tile_y: 11, y: at_row_y(0) }],
            seq![Piece::Fixed { atlas: Atlas::StyledPalace, tile_x: 1, tile_y: 5, y: at_row_y(1) }],
            seq![Piece::Fixed { atlas: Atlas::FloorSunken, tile_x: 0, tile_y: 0, y: at_row_y(2) }],
            seq![Piece::Pick { atlas: Atlas::FloorSunken, tile_y: 6, y: above_row_y(2) }],
        ],
        Flag::Nonbinary => seq![
            seq![Piece::Fixed { atlas: Atlas::StyledGold, tile_x: 1, tile_y: 4, y: at_row_y(0) }],
            seq![Piece::Fixed { atlas: Atlas::StyledPalace, tile_x: 1, tile_y: 5, y: at_row_y(1) }],
            seq![Piece::Fixed { atlas: Atlas::StyledBabylon, tile_x: 1, tile_y: 5, y: at_row_y(2) }],
            seq![Piece::Fixed { atlas: Atlas::StyledDuat, tile_x: 1, tile_y: 2, y: at_row_y(3) }],
        ],
        Flag::Ace => seq![
            seq![Piece::Fixed { atlas: Atlas::StyledDuat, tile_x: 1, tile_y: 4, y: at_row_y(0) }],
            seq![Piece::Fixed { atlas: Atlas::StyledStone, tile_x: 1, tile_y: 5, y: at_row_y(1) }],
            seq![Piece::Fixed { atlas: Atlas::StyledPalace, tile_x: 1, tile_y: 5, y: at_row_y(2) }],
            seq![Piece::Fixed { atlas: Atlas::FloorEggplant, tile_x: 1, tile_y: 3, y: at_row_y(3) }],
            seq![Piece::Pick { atlas: Atlas::FloorEggplant, tile_y: 6, y: above_row_y(3) }],
        ],
        Flag::Trans => seq![
            seq![Piece::Fixed { atlas: Atlas::FloorSurface, tile_x: 0, tile_y: 0, y: at_row_y(0) }, Piece::Fixed { atlas: Atlas::FloorSurface, tile_x: 0, tile_y: 0, y: at_row_y(4) }],
            seq![Piece::Fixed { atlas: Atlas::StyledGuts, tile_x: 1, tile_y: 5, y: at_row_y(1) }, Piece::Fixed { atlas: Atlas::StyledGuts, tile_x: 1, tile_y: 5, y: at_row_y(3) }],
            seq![Piece::Fixed { atlas: Atlas::StyledPalace, tile_x: 1, tile_y: 5, y: at_row_y(2) }],
            seq![Piece::Pick { atlas: Atlas::FloorSurface, tile_y: 6, y: above_row_y(4) }, Piece::Pick { atlas: Atlas::FloorSurface, tile_y: 7, y: below_row_y(0) }],
        ],
        Flag::Bi => seq![
            seq![Piece::Fixed { atlas: Atlas::StyledGuts, tile_x: 1, tile_y: 3, y: at_row_y(0) }, Piece::Fixed { atlas: Atlas::StyledGuts, tile_x: 1, tile_y: 4, y: at_row_y(1) }],
            seq![Piece::Fixed { atlas: Atlas::FloorEggplant, tile_x: 0, tile_y: 0, y: at_row_y(2) }],
            seq![Piece::Fixed { atlas: Atlas::StyledBabylon, tile_x: 1, tile_y: 2, y: at_row_y(3) }, Piece::Fixed { atlas: Atlas::StyledBabylon, tile_x: 1, tile_y: 3, y: at_row_y(4) }],
            seq![Piece::Pick { atlas: Atlas::FloorEggplant, tile_y: 6, y: above_row_y(2) }, Piece::Pick { atlas: Atlas::FloorEggplant, tile_y: 7, y: below_row_y(2) }],
        ],
        Flag::Gay => seq![
            seq![Piece::Fixed { atlas: Atlas::StyledVlad, tile_x: 1, tile_y: 5, y: at_row_y(0) }],
            seq![Piece::Fixed { atlas: Atlas::FloorCave, tile_x: 0, tile_y: 0, y: at_row_y(1) }],
            seq![Piece::Fixed { atlas: Atlas::StyledGold, tile_x: 1, tile_y: 5, y: at_row_y(2) }],
            seq![Piece::Fixed { atlas: Atlas::FloorJungle, tile_x: 0, tile_y: 0, y: at_row_y(3) }],
            seq![Piece::Fixed { atlas: Atlas::StyledPagoda, tile_x: 1, tile_y: 5, y: at_row_y(4) }],
            seq![Piece::Fixed { atlas: Atlas::FloorEggplant, tile_x: 0, tile_y: 0, y: at_row_y(5) }],
            seq![Piece::Pick { atlas: Atlas::FloorCave, tile_y: 6, y: above_row_y(1) }, Piece::Pick { atlas: Atlas::FloorCave, tile_y: 7, y: below_row_y(1) }],
            seq![Piece::Pick { atlas: Atlas::FloorJungle, tile_y: 6, y: above_row_y(3) }, Piece::Pick { atlas: Atlas::FloorJungle, tile_y: 7, y: below_row_y(3) }],
            seq![Piece::Pick { atlas: Atlas::FloorEggplant, tile_y: 6, y: above_row_y(5) }],
        ],
        Flag::Agender => seq![
            seq![Piece::Fixed { atlas: Atlas::StyledDuat, tile_x: 1, tile_y: 4, y: at_row_y(0) }, Piece::Fixed { atlas: Atlas::StyledDuat, tile_x: 1, tile_y: 2, y: at_row_y(6) }],
            seq![Piece::Fixed { atlas: Atlas::StyledStone, tile_x: 1, tile_y: 5, y: at_row_y(1) }, Piece::Fixed { atlas: Atlas::StyledStone, tile_x: 1, tile_y: 5, y: at_row_y(5) }],
            seq![Piece::Fixed { atlas: Atlas::StyledPalace, tile_x: 1, tile_y: 5, y: at_row_y(2) }, Piece::Fixed { atlas: Atlas::StyledPalace, tile_x: 1, tile_y: 5, y: at_row_y(4) }],
            seq![Piece::Fixed { atlas: Atlas::FloorJungle, tile_x: 8, tile_y: 11, y: at_row_y(3) }],
            seq![Piece::Fixed { atlas: Atlas::FloorJungle, tile_x: 11, tile_y: 6, y: above_row_y(3) }, Piece::Fixed { atlas: Atlas::FloorJungle, tile_x: 11, tile_y: 7, y: below_row_y(3) }],
        ],
        Flag::Blm => seq![
            seq![Piece::Fixed { atlas: Atlas::StyledDuat, tile_x: 1, tile_y: 4, y: at_row_y(0) }],
            seq![Piece::Fixed { atlas: Atlas::StyledWood, tile_x: 1, tile_y: 5, y: at_row_y(1) }],
            seq![Piece::Fixed { atlas: Atlas::StyledVlad, tile_x: 1, tile_y: 5, y: at_row_y(2) }],
            seq![Piece::Fixed { atlas: Atlas::FloorCave, tile_x: 0, tile_y: 0, y: at_row_y(3) }],
            seq![Piece::Fixed { atlas: Atlas::StyledGold, tile_x: 1, tile_y: 5, y: at_row_y(4) }],
            seq![Piece::Fixed { atlas: Atlas::FloorJungle, tile_x: 0, tile_y: 0, y: at_row_y(5) }],
            seq![Piece::Fixed { atlas: Atlas::StyledPagoda, tile_x: 1, tile_y: 5, y: at_row_y(6) }],
            seq![Piece::Fixed { atlas: Atlas::FloorEggplant, tile_x: 0, tile_y: 0, y: at_row_y(7) }],
            seq![Piece::Pick { atlas: Atlas::FloorCave, tile_y: 6, y: above_row_y(3) }, Piece::Pick { atlas: Atlas::FloorCave, tile_y: 7, y: below_row_y(3) }],
            seq![Piece::Pick { atlas: Atlas::FloorJungle, tile_y: 6, y: above_row_y(5) }, Piece::Pick { atlas: Atlas::FloorJungle, tile_y: 7, y: below_row_y(5) }],
            seq![Piece::Pick { atlas: Atlas::FloorEggplant, tile_y: 6, y: above_row_y(7) }],
        ],
        Flag::Intersex => seq![
            Seq::new(height, |j: int| Piece::Fixed { atlas: Atlas::StyledGold, tile_x: 1, tile_y: 3, y: (j * TILE_HEIGHT) as i64 }),
        ],
    }
}

pub open spec fn bands_view(b: Seq<Vec<Piece>>) -> Seq<Seq<Piece>> {
    b.map_values(|v: Vec<Piece>| v@)
}

/// Builds the bands of a flag.
pub fn bands_of(flag: Flag, height: u8) -> (r: Vec<Vec<Piece>>)
    requires
        height <= 8,
    ensures
        bands_view(r@) == flag_bands(flag, height as nat),
{
    let r = match flag {
            Flag::Pansexual => vec![
                vec![Piece::Fixed { atlas: Atlas::StyledGuts, tile_x: 1, tile_y: 4, y: at_row(0) }],
                vec![Piece::Fixed { atlas: Atlas::StyledGold, tile_x: 1, tile_y: 5, y: at_row(1) }],
                vec![Piece::Fixed { atlas: Atlas::FloorTidepool, tile_x: 0, tile_y: 0, y: at_row(2) }],
                vec![Piece::Pick { atlas: Atlas::FloorTidepool, tile_y: 6, y: above_row(2) }],
            ],
            Flag::Genderqueer => vec![
                vec![Piece::Fixed { atlas: Atlas::FloorSunken, tile_x: 8, tile_y: 11, y: at_row(0) }],
                vec![Piece::Fixed { atlas: Atlas::StyledPalace, tile_x: 1, tile_y: 5, y: at_row(1) }],
                vec![Piece::Fixed { atlas: Atlas::FloorSunken, tile_x: 0, tile_y: 0, y: at_row(2) }],
                vec![Piece::Pick { atlas: Atlas::FloorSunken, tile_y: 6, y: above_row(2) }],
            ],
            Flag::Nonbinary => vec![
                vec![Piece::Fixed { atlas: Atlas::StyledGold, tile_x: 1, tile_y: 4, y: at_row(0) }],
                vec![Piece::Fixed { atlas: Atlas::StyledPalace, tile_x: 1, tile_y: 5, y: at_row(1) }],
                vec![Piece::Fixed { atlas: Atlas::StyledBabylon, tile_x: 1, tile_y: 5, y: at_row(2) }],
                vec![Piece::Fixed { atlas: Atlas::StyledDuat, tile_x: 1, tile_y: 2, y: at_row(3) }],
            ],
            Flag::Ace => vec![
                vec![Piece::Fixed { atlas: Atlas::StyledDuat, tile_x: 1, tile_y: 4, y: at_row(0) }],
                vec![Piece::Fixed { atlas: Atlas::StyledStone, tile_x: 1, tile_y: 5, y: at_row(1) }],
                vec![Piece::Fixed { atlas: Atlas::StyledPalace, tile_x: 1, tile_y: 5, y: at_row(2) }],
                vec![Piece::Fixed { atlas: Atlas::FloorEggplant, tile_x: 1, tile_y: 3, y: at_row(3) }],
                vec![Piece::Pick { atlas: Atlas::FloorEggplant, tile_y: 6, y: above_row(3) }],
            ],
            Flag::Trans => vec![
                vec![Piece::Fixed { atlas: Atlas::FloorSurface, tile_x: 0, tile_y: 0, y: at_row(0) }, Piece::Fixed { atlas: Atlas::FloorSurface, tile_x: 0, tile_y: 0, y: at_row(4) }],
                vec![Piece::Fixed { atlas: Atlas::StyledGuts, tile_x: 1, tile_y: 5, y: at_row(1) }, Piece::Fixed { atlas: Atlas::StyledGuts, tile_x: 1, tile_y: 5, y: at_row(3) }],
                vec![Piece::Fixed { atlas: Atlas::StyledPalace, tile_x: 1, tile_y: 5, y: at_row(2) }],
                vec![Piece::Pick { atlas: Atlas::FloorSurface, tile_y: 6, y: above_row(4) }, Piece::Pick { atlas: Atlas::FloorSurface, tile_y: 7, y: below_row(0) }],
            ],
            Flag::Bi => vec![
                vec![Piece::Fixed { atlas: Atlas::StyledGuts, tile_x: 1, tile_y: 3, y: at_row(0) }, Piece::Fixed { atlas: Atlas::StyledGuts, tile_x: 1, tile_y: 4, y: at_row(1) }],
                vec![Piece::Fixed { atlas: Atlas::FloorEggplant, tile_x: 0, tile_y: 0, y: at_row(2) }],
                vec![Piece::Fixed { atlas: Atlas::StyledBabylon, tile_x: 1, tile_y: 2, y: at_row(3) }, Piece::Fixed { atlas: Atlas::StyledBabylon, tile_x: 1, tile_y: 3, y: at_row(4) }],
                vec![Piece::Pick { atlas: Atlas::FloorEggplant, tile_y: 6, y: above_row(2) }, Piece::Pick { atlas: Atlas::FloorEggplant, tile_y: 7, y: below_row(2) }],
            ],
            Flag::Gay => vec![
                vec![Piece::Fixed { atlas: Atlas::StyledVlad, tile_x: 1, tile_y: 5, y: at_row(0) }],
                vec![Piece::Fixed { atlas: Atlas::FloorCave, tile_x: 0, tile_y: 0, y: at_row(1) }],
                vec![Piece::Fixed { atlas: Atlas::StyledGold, tile_x: 1, tile_y: 5, y: at_row(2) }],
                vec![Piece::Fixed { atlas: Atlas::FloorJungle, tile_x: 0, tile_y: 0, y: at_row(3) }],
                vec![Piece::Fixed { atlas: Atlas::StyledPagoda, tile_x: 1, tile_y: 5, y: at_row(4) }],
                vec![Piece::Fixed { atlas: Atlas::FloorEggplant, tile_x: 0, tile_y: 0, y: at_row(5) }],
                vec![Piece::Pick { atlas: Atlas::FloorCave, tile_y: 6, y: above_row(1) }, Piece::Pick { atlas: Atlas::FloorCave, tile_y: 7, y: below_row(1) }],
                vec![Piece::Pick { atlas: Atlas::FloorJungle, tile_y: 6, y: above_row(3) }, Piece::Pick { atlas: Atlas::FloorJungle, tile_y: 7, y: below_row(3) }],
                vec![Piece::Pick { atlas: Atlas::FloorEggplant, tile_y: 6, y: above_row(5) }],
            ],
            Flag::Agender => vec![
                vec![Piece::Fixed { atlas: Atlas::StyledDuat, tile_x: 1, tile_y: 4, y: at_row(0) }, Piece::Fixed { atlas: Atlas::StyledDuat, tile_x: 1, tile_y: 2, y: at_row(6) }],
                vec![Piece::Fixed { atlas: Atlas::StyledStone, tile_x: 1, tile_y: 5, y: at_row(1) }, Piece::Fixed { atlas: Atlas::StyledStone, tile_x: 1, tile_y: 5, y: at_row(5) }],
                vec![Piece::Fixed { atlas: Atlas::StyledPalace, tile_x: 1, tile_y: 5, y: at_row(2) }, Piece::Fixed { atlas: Atlas::StyledPalace, tile_x: 1, tile_y: 5, y: at_row(4) }],
                vec![Piece::Fixed { atlas: Atlas::FloorJungle, tile_x: 8, tile_y: 11, y: at_row(3) }],
                vec![Piece::Fixed { atlas: Atlas::FloorJungle, tile_x: 11, tile_y: 6, y: above_row(3) }, Piece::Fixed { atlas: Atlas::FloorJungle, tile_x: 11, tile_y: 7, y: below_row(3) }],
            ],
            Flag::Blm => vec![
                vec![Piece::Fixed { atlas: Atlas::StyledDuat, tile_x: 1, tile_y: 4, y: at_row(0) }],
                vec![Piece::Fixed { atlas: Atlas::StyledWood, tile_x: 1, tile_y: 5, y: at_row(1) }],
                vec![Piece::Fixed { atlas: Atlas::StyledVlad, tile_x: 1, tile_y: 5, y: at_row(2) }],
                vec![Piece::Fixed { atlas: Atlas::FloorCave, tile_x: 0, tile_y: 0, y: at_row(3) }],
                vec![Piece::Fixed { atlas: Atlas::StyledGold, tile_x: 1, tile_y: 5, y: at_row(4) }],
                vec![Piece::Fixed { atlas: Atlas::FloorJungle, tile_x: 0, tile_y: 0, y: at_row(5) }],
                vec![Piece::Fixed { atlas: Atlas::StyledPagoda, tile_x: 1, tile_y: 5, y: at_row(6) }],
                vec![Piece::Fixed { atlas: Atlas::FloorEggplant, tile_x: 0, tile_y: 0, y: at_row(7) }],
                vec![Piece::Pick { atlas: Atlas::FloorCave, tile_y: 6, y: above_row(3) }, Piece::Pick { atlas: Atlas::FloorCave, tile_y: 7, y: below_row(3) }],
                vec![Piece::Pick { atlas: Atlas::FloorJungle, tile_y: 6, y: above_row(5) }, Piece::Pick { atlas: Atlas::FloorJungle, tile_y: 7, y: below_row(5) }],
                vec![Piece::Pick { atlas: Atlas::FloorEggplant, tile_y: 6, y: above_row(7) }],
            ],
            Flag::Intersex => {
                let mut column: Vec<Piece> = Vec::new();
                let mut j: u8 = 0;
                while j < height
                    invariant
                        j <= height <= 8,
                        column@ =~= Seq::new(j as nat, |k: int| Piece::Fixed { atlas: Atlas::StyledGold, tile_x: 1, tile_y: 3, y: (k * TILE_HEIGHT) as i64 }),
                    decreases height - j,
                {
                    column.push(Piece::Fixed { atlas: Atlas::StyledGold, tile_x: 1, tile_y: 3, y: j as i64 * TILE_HEIGHT });
                    j = j + 1;
                }
                vec![column]
            },
    };
    assert(bands_view(r@) =~~= flag_bands(flag, height as nat));
    r
}

/// Lays one piece in column `x`.
pub open spec fn piece_paint(p: Piece, x: int, acc: Paint) -> Paint {
    match p {
        Piece::Fixed { atlas, tile_x, tile_y, y } => (acc.0.push(tile_draw(atlas, tile_x, tile_y, px(x), y as int)), acc.1, acc.2),
        Piece::Pick { atlas, tile_y, y } => {
            let (k, pos) = choose_draw(acc.1.seed, acc.1.pos, 3);
            (acc.0.push(tile_draw(atlas, (5 + k) as u32, tile_y, px(x), y as int)), advanced(acc.1, pos), acc.2)
        },
    }
}

/// The first `j` pieces of a band, laid in column `x`.
pub open spec fn column_paint(band: Seq<Piece>, x: int, acc: Paint, j: nat) -> Paint
    decreases j,
{
    if j == 0 {
        acc
    } else {
        piece_paint(band[j - 1], x, column_paint(band, x, acc, (j - 1) as nat))
    }
}

/// A band laid in the first `i` columns.
pub open spec fn band_paint(band: Seq<Piece>, acc: Paint, i: nat) -> Paint
    decreases i,
{
    if i == 0 {
        acc
    } else {
        column_paint(band, i - 1, band_paint(band, acc, (i - 1) as nat), band.len())
    }
}

/// The first `k` bands, each laid across `width` columns.
pub open spec fn bands_paint(bands: Seq<Seq<Piece>>, width: nat, acc: Paint, k: nat) -> Paint
    decreases k,
{
    if k == 0 {
        acc
    } else {
        band_paint(bands[k - 1], bands_paint(bands, width, acc, (k - 1) as nat), width)
    }
}

/// The decorative flag painter: picks the flag for the grid's size and lays its bands.
pub struct PrideRenderer {
    pub classic_mode: bool,
}

impl PrideRenderer {
    pub fn new(classic_mode: bool) -> (r: PrideRenderer)
        ensures
            r.classic_mode == classic_mode,
    {
        PrideRenderer { classic_mode }
    }

    /// Picks the flag for a grid of side `height` from the canvas's stream and paints
    /// it; returns the flag.
    pub fn render(&self, canvas: &mut Canvas, height: u8) -> (r: Option<Flag>)
        requires
            height <= 8,
        ensures
            ({
                let (flag, s) = flag_choice(height, old(canvas).rng);
                &&& r == flag
                &&& final(canvas).paint() == match flag {
                    Some(f) => bands_paint(
                        flag_bands(f, height as nat),
                        height as nat,
                        (old(canvas).draws@, s, old(canvas).placed_egg),
                        flag_bands(f, height as nat).len(),
                    ),
                    None => (old(canvas).draws@, s, old(canvas).placed_egg),
                }
            }),
    {
        let flag = choose_flag(height, &mut canvas.rng);
        match flag {
            Some(f) => {
                let bands = bands_of(f, height);
                paint_bands(canvas, &bands, height);
            },
            None => {},
        }
        flag
    }
}

/// Paints `bands` across a grid `width` columns wide.
pub fn paint_bands(canvas: &mut Canvas, bands: &Vec<Vec<Piece>>, width: u8)
    ensures
        final(canvas).paint() == bands_paint(bands_view(bands@), width as nat, old(canvas).paint(), bands@.len()),
{
    let ghost b = bands_view(bands@);
    let ghost init = canvas.paint();
    let mut k: usize = 0;
    while k < bands.len()
        invariant
            b == bands_view(bands@),
            k <= bands@.len(),
            canvas.paint() == bands_paint(b, width as nat, init, k as nat),
        decreases bands@.len() - k,
    {
        let band = &bands[k];
        assert(b[k as int] == band@);
        let ghost start = canvas.paint();
        let mut i: u8 = 0;
        while i < width
            invariant
                b == bands_view(bands@),
                k < bands@.len(),
                b[k as int] == band@,
                i <= width,
                start == bands_paint(b, width as nat, init, k as nat),
                canvas.paint() == band_paint(band@, start, i as nat),
            decreases width - i,
        {
            let ghost col_start = canvas.paint();
            let mut j: usize = 0;
            while j < band.len()
                invariant
                    j <= band@.len(),
                    i < width,
                    canvas.paint() == column_paint(band@, i as int, col_start, j as nat),
                decreases band@.len() - j,
            {
                let x: i64 = i as i64 * TILE_WIDTH;
                match band[j] {
                    Piece::Fixed { atlas, tile_x, tile_y, y } => canvas.push_draw(atlas, tile_x, tile_y, x, y, Blit::Tile),
                    Piece::Pick { atlas, tile_y, y } => {
                        let k3 = canvas.rng.choose_index(3);
                        canvas.push_draw(atlas, (5 + k3) as u32, tile_y, x, y, Blit::Tile);
                    },
                }
                j = j + 1;
            }
            i = i + 1;
        }
        k = k + 1;
    }
}

} // verus!
