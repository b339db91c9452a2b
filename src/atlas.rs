use vstd::prelude::*;
use crate::biome::Biome;

verus! {

/// Width of a tile in the atlases and in the output, in pixels.
pub const TILE_WIDTH: i64 = 128;

/// Height of a tile in the atlases and in the output, in pixels.
pub const TILE_HEIGHT: i64 = 128;

/// A texture atlas of the asset store.
#[derive(Debug, Clone, Copy, PartialEq, Eq, Structural)]
pub enum Atlas {
    FloorCave,
    FloorJungle,
    FloorBabylon,
    FloorEggplant,
    FloorIce,
    FloorSunken,
    FloorSurface,
    FloorTemple,
    FloorTidepool,
    FloorVolcano,
    StyledVlad,
    StyledWood,
    StyledBabylon,
    StyledBeehive,
    StyledDuat,
    StyledGold,
    StyledGuts,
    StyledMothership,
    StyledPagoda,
    StyledPalace,
    StyledStone,
    StyledSunken,
    StyledTemple,
    FloorMisc,
    BasecampDeco,
    Items,
    CharPrecious,
    CharBeg,
}

/// The plain-floor atlas of a biome; jungle and beehive share one.
pub open spec fn spec_floor_atlas(biome: Biome) -> Option<Atlas> {
    match biome {
        Biome::Cave => Some(Atlas::FloorCave),
        Biome::Jungle | Biome::Beehive => Some(Atlas::FloorJungle),
        Biome::Babylon => Some(Atlas::FloorBabylon),
        Biome::Eggplant => Some(Atlas::FloorEggplant),
        Biome::Ice => Some(Atlas::FloorIce),
        Biome::Sunken => Some(Atlas::FloorSunken),
        Biome::Surface => Some(Atlas::FloorSurface),
        Biome::Temple => Some(Atlas::FloorTemple),
        Biome::TidePool => Some(Atlas::FloorTidepool),
        Biome::Volcana => Some(Atlas::FloorVolcano),
        _ => None,
    }
}

/// The styled-floor atlas of a biome; jungle and olmec share the stone one.
pub open spec fn spec_styled_atlas(biome: Biome) -> Option<Atlas> {
    match biome {
        Biome::Cave => Some(Atlas::StyledWood),
        Biome::Jungle => Some(Atlas::StyledStone),
        Biome::Babylon => Some(Atlas::StyledBabylon),
        Biome::Sunken => Some(Atlas::StyledSunken),
        Biome::Temple => Some(Atlas::StyledTemple),
        Biome::TidePool => Some(Atlas::StyledPagoda),
        Biome::Beehive => Some(Atlas::StyledBeehive),
        Biome::Vlad => Some(Atlas::StyledVlad),
        Biome::CityOfGold => Some(Atlas::StyledGold),
        Biome::Duat => Some(Atlas::StyledDuat),
        Biome::Mothership => Some(Atlas::StyledMothership),
        Biome::PalaceOfPleasure => Some(Atlas::StyledPalace),
        Biome::Guts => Some(Atlas::StyledGuts),
        Biome::Olmec => Some(Atlas::StyledStone),
        _ => None,
    }
}

pub fn floor_atlas(biome: Biome) -> (r: Option<Atlas>)
    ensures
        r == spec_floor_atlas(biome),
{
    match biome {
        Biome::Cave => Some(Atlas::FloorCave),
        Biome::Jungle | Biome::Beehive => Some(Atlas::FloorJungle),
        Biome::Babylon => Some(Atlas::FloorBabylon),
        Biome::Eggplant => Some(Atlas::FloorEggplant),
        Biome::Ice => Some(Atlas::FloorIce),
        Biome::Sunken => Some(Atlas::FloorSunken),
        Biome::Surface => Some(Atlas::FloorSurface),
        Biome::Temple => Some(Atlas::FloorTemple),
        Biome::TidePool => Some(Atlas::FloorTidepool),
        Biome::Volcana => Some(Atlas::FloorVolcano),
        _ => None,
    }
}

pub fn styled_atlas(biome: Biome) -> (r: Option<Atlas>)
    ensures
        r == spec_styled_atlas(biome),
{
    match biome {
        Biome::Cave => Some(Atlas::StyledWood),
        Biome::Jungle => Some(Atlas::StyledStone),
        Biome::Babylon => Some(Atlas::StyledBabylon),
        Biome::Sunken => Some(Atlas::StyledSunken),
        Biome::Temple => Some(Atlas::StyledTemple),
        Biome::TidePool => Some(Atlas::StyledPagoda),
        Biome::Beehive => Some(Atlas::StyledBeehive),
        Biome::Vlad => Some(Atlas::StyledVlad),
        Biome::CityOfGold => Some(Atlas::StyledGold),
        Biome::Duat => Some(Atlas::StyledDuat),
        Biome::Mothership => Some(Atlas::StyledMothership),
        Biome::PalaceOfPleasure => Some(Atlas::StyledPalace),
        Biome::Guts => Some(Atlas::StyledGuts),
        Biome::Olmec => Some(Atlas::StyledStone),
        _ => None,
    }
}

/// How a draw command lays its picture over the output.
#[derive(Debug, Clone, Copy, PartialEq, Eq, Structural)]
pub enum Blit {
    /// One tile of the atlas.
    Tile,
    /// One tile of the atlas, mirrored left to right.
    Flipped,
    /// One tile of the atlas, scaled up by 8 pixels each way with its blue channel as
    /// its opacity (a block of ice).
    Ice,
    /// The whole atlas image.
    Whole,
}

/// One step of painting: the picture at tile `(tile_x, tile_y)` of `atlas` (or the
/// whole atlas) laid over the output with its top-left corner at pixel `(x, y)`.
#[derive(Debug, Clone, Copy, PartialEq, Eq, Structural)]
pub struct Draw {
    pub atlas: Atlas,
    pub tile_x: u32,
    pub tile_y: u32,
    pub x: i64,
    pub y: i64,
    pub blit: Blit,
}

} // verus!
