use vstd::prelude::*;

verus! {

/// What a cell of the placed-tile grid holds.
#[derive(Debug, Clone, Copy, PartialEq, Eq, Structural)]
pub enum PlacedTile {
    Empty,
    Floor,
    FloorStyled,
    AltarLeft,
    AltarRight,
    IdolAltarLeft,
    IdolAltarRight,
    EggplantAltarLeft,
    EggplantAltarRight,
    ArrowTrap,
    LaserTrap,
    TotemTrap,
    LionTrap,
    SpearTrap,
    FrogTrapLeft,
    FrogTrapRight,
    CrushTrap,
    LargeCrushTrapTopLeft,
    LargeCrushTrapTopRight,
    LargeCrushTrapBotLeft,
    LargeCrushTrapBotRight,
    BushBlock,
    BoneBlock,
    IceBlock,
    ChainTop,
    ChainMid,
    ChainBot,
    Platform,
    UdjatSocketTop,
    UdjatSocketBot,
    ConveyorLeft,
    ConveyorRight,
    PushBlock,
    PowderKeg,
    HoneyUp,
    HoneyDown,
}

impl PlacedTile {
    /// A tile stamped by the misc pass: anything but empty, floor and styled floor.
    pub open spec fn is_special(self) -> bool {
        !(self is Empty || self is Floor || self is FloorStyled)
    }

    /// The left half of an altar of any kind.
    pub open spec fn is_altar_left(self) -> bool {
        self is AltarLeft || self is IdolAltarLeft || self is EggplantAltarLeft
    }

    /// The right half of an altar of any kind.
    pub open spec fn is_altar_right(self) -> bool {
        self is AltarRight || self is IdolAltarRight || self is EggplantAltarRight
    }
}

/// A grid of placed tiles, indexed `[row][column]`.
pub type PlacedTileGrid = Vec<Vec<PlacedTile>>;

/// One of the nine unit offsets on the grid: the cell itself, or a compass direction.
/// Rows grow downwards.
#[derive(Debug, Clone, Copy, PartialEq, Eq, Structural)]
pub enum Direction {
    Centre,
    Left,
    UpLeft,
    Up,
    UpRight,
    Right,
    DownRight,
    Down,
    DownLeft,
}

impl Direction {
    pub open spec fn spec_dx(self) -> int {
        match self {
            Direction::Left | Direction::UpLeft | Direction::DownLeft => -1,
            Direction::Right | Direction::UpRight | Direction::DownRight => 1,
            _ => 0,
        }
    }

    pub open spec fn spec_dy(self) -> int {
        match self {
            Direction::Up | Direction::UpLeft | Direction::UpRight => -1,
            Direction::Down | Direction::DownLeft | Direction::DownRight => 1,
            _ => 0,
        }
    }

    pub fn dx(self) -> (r: i64)
        ensures
            r == self.spec_dx(),
    {
        match self {
            Direction::Left | Direction::UpLeft | Direction::DownLeft => -1,
            Direction::Right | Direction::UpRight | Direction::DownRight => 1,
            _ => 0,
        }
    }

    pub fn dy(self) -> (r: i64)
        ensures
            r == self.spec_dy(),
    {
        match self {
            Direction::Up | Direction::UpLeft | Direction::UpRight => -1,
            Direction::Down | Direction::DownLeft | Direction::DownRight => 1,
            _ => 0,
        }
    }
}

/// The rows of a grid as sequences.
pub open spec fn tiles(g: Seq<Vec<PlacedTile>>) -> Seq<Seq<PlacedTile>> {
    g.map_values(|row: Vec<PlacedTile>| row@)
}

/// A `w` by `h` grid: `h` rows of `w` tiles each.
pub open spec fn is_grid(t: Seq<Seq<PlacedTile>>, w: nat, h: nat) -> bool {
    &&& t.len() == h
    &&& forall|r: int| 0 <= r < h ==> #[trigger] t[r].len() == w
}

/// The width of a grid: the length of its first row.
pub open spec fn width_of(t: Seq<Seq<PlacedTile>>) -> nat {
    if t.len() > 0 {
        t[0].len()
    } else {
        0
    }
}

/// A rectangular grid of at most `u8::MAX` rows and columns.
pub open spec fn rect(t: Seq<Seq<PlacedTile>>) -> bool {
    &&& is_grid(t, width_of(t), t.len())
    &&& t.len() <= 255
    &&& width_of(t) <= 255
}

pub open spec fn in_bounds(t: Seq<Seq<PlacedTile>>, x: int, y: int) -> bool {
    0 <= y < t.len() && 0 <= x < width_of(t)
}

/// Whether the neighbour of `(x, y)` in direction `dir` counts as empty: outside the
/// grid it never does; inside, with no kind given it is empty when it holds
/// `PlacedTile::Empty`, and with a kind given it is empty when it holds anything else.
pub open spec fn neighbour_empty_at(
    t: Seq<Seq<PlacedTile>>,
    x: int,
    y: int,
    dir: Direction,
    filled_type: Option<PlacedTile>,
) -> bool {
    let nx = x + dir.spec_dx();
    let ny = y + dir.spec_dy();
    if !in_bounds(t, nx, ny) {
        false
    } else {
        match filled_type {
            Some(k) => t[ny][nx] != k,
            None => t[ny][nx] == PlacedTile::Empty,
        }
    }
}

/// Whether the neighbour of `pos` (column, row) in direction `dir` counts as empty.
pub fn neighbour_empty(
    grid: &PlacedTileGrid,
    pos: (usize, usize),
    dir: Direction,
    filled_type: Option<PlacedTile>,
) -> (r: bool)
    requires
        rect(tiles(grid@)),
    ensures
        r == neighbour_empty_at(tiles(grid@), pos.0 as int, pos.1 as int, dir, filled_type),
{
    let (x, y) = pos;
    let height: usize = grid.len();
    let width: usize = if height > 0 { grid[0].len() } else { 0 };
    let dx = dir.dx();
    let dy = dir.dy();
    if x >= 256 || y >= 256 {
        return false;
    }
    let nx: i64 = x as i64 + dx;
    let ny: i64 = y as i64 + dy;
    if nx < 0 || nx >= width as i64 {
        return false;
    }
    if ny < 0 || ny >= height as i64 {
        return false;
    }
    assert(tiles(grid@)[ny as int] == grid@[ny as int]@);
    assert(tiles(grid@)[0] == grid@[0]@);
    let placed = grid[ny as usize][nx as usize];
    match filled_type {
        Some(filled) => placed != filled,
        None => placed == PlacedTile::Empty,
    }
}

/// A neighbour query never reaches outside the grid: at the edge, a neighbour beyond it
/// reads as not empty, whatever kind is asked about.
pub proof fn lemma_boundary_solid(
    t: Seq<Seq<PlacedTile>>,
    x: int,
    y: int,
    dir: Direction,
    filled_type: Option<PlacedTile>,
)
    requires
        !in_bounds(t, x + dir.spec_dx(), y + dir.spec_dy()),
    ensures
        !neighbour_empty_at(t, x, y, dir, filled_type),
{
}

/// Sets the tile at column `x`, row `y`.
pub fn set_tile(grid: &mut PlacedTileGrid, x: usize, y: usize, tile: PlacedTile)
    requires
        y < tiles(old(grid)@).len(),
        x < tiles(old(grid)@)[y as int].len(),
    ensures
        tiles(final(grid)@) == tiles(old(grid)@).update(
            y as int,
            tiles(old(grid)@)[y as int].update(x as int, tile),
        ),
{
    let mut row = grid.remove(y);
    row.set(x, tile);
    grid.insert(y, row);
    assert(tiles(grid@) =~= tiles(old(grid)@).update(
        y as int,
        tiles(old(grid)@)[y as int].update(x as int, tile),
    ));
}

/// An empty `width` by `height` grid.
pub fn empty_grid(width: usize, height: usize) -> (grid: PlacedTileGrid)
    ensures
        is_grid(tiles(grid@), width as nat, height as nat),
        forall|r: int, c: int|
            0 <= r < height && 0 <= c < width ==> #[trigger] tiles(grid@)[r][c] == PlacedTile::Empty,
{
    let mut grid: PlacedTileGrid = Vec::new();
    let mut r: usize = 0;
    while r < height
        invariant
            r <= height,
            is_grid(tiles(grid@), width as nat, r as nat),
            forall|i: int, c: int|
                0 <= i < r && 0 <= c < width ==> #[trigger] tiles(grid@)[i][c] == PlacedTile::Empty,
        decreases height - r,
    {
        let mut row: Vec<PlacedTile> = Vec::new();
        let mut c: usize = 0;
        while c < width
            invariant
                c <= width,
                row@.len() == c,
                forall|j: int| 0 <= j < c ==> #[trigger] row@[j] == PlacedTile::Empty,
            decreases width - c,
        {
            row.push(PlacedTile::Empty);
            c = c + 1;
        }
        let ghost before = grid@;
        grid.push(row);
        assert(tiles(grid@) =~= tiles(before).push(row@));
        r = r + 1;
    }
    grid
}

} // verus!
