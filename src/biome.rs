use vstd::prelude::*;

verus! {

/// A themed family of tile art.
#[derive(Debug, Clone, Copy, PartialEq, Eq, Structural)]
pub enum Biome {
    Cave,
    Jungle,
    Beehive,
    Babylon,
    PalaceOfPleasure,
    Eggplant,
    Ice,
    Mothership,
    Sunken,
    Guts,
    Surface,
    Temple,
    CityOfGold,
    Duat,
    TidePool,
    Volcana,
    Vlad,
    Olmec,
}

/// Which structural passes a sheet runs.
#[derive(Debug, Clone, Copy, PartialEq, Eq, Structural)]
pub enum GenKind {
    Floor,
    FloorStyled,
    FloorAndFloorStyled,
}

} // verus!
