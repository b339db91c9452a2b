use vstd::prelude::*;
use vstd::string::StringSliceAdditionalSpecFns;

verus! {

/// What `crc32fast::hash` returns for a byte string.
pub uninterp spec fn crc32_of(bytes: Seq<u8>) -> u32;

/// Relies on `crc32fast::hash`: the CRC-32 (IEEE) checksum of the bytes.
#[verifier::external_body]
fn crc32(bytes: &[u8]) -> (r: u32)
    ensures
        r == crc32_of(bytes@),
{
    crc32fast::hash(bytes)
}

/// Bit `i` of `hash`, counting from the most significant bit.
pub open spec fn hash_bit(hash: u32, i: int) -> bool {
    ((hash >> (31 - i) as u32) & 1u32) == 1u32
}

/// Number of bits of the hash that a grid of side `height` consumes.
pub open spec fn bits_needed(height: nat) -> nat {
    height * (height / 2) + if height % 2 == 1 { height } else { 0 }
}

/// The occupancy of row `r`, column `c` of a grid of side `h` derived from `hash`:
/// the left half reads the hash row by row, the right half mirrors it, and an odd
/// grid's centre column takes its bits from the end of the consumed bits, last first.
pub open spec fn occupancy_cell(hash: u32, h: nat, r: nat, c: nat) -> bool {
    let half = h / 2;
    if c < half {
        hash_bit(hash, (r * half + c) as int)
    } else if h % 2 == 1 && c == half {
        hash_bit(hash, bits_needed(h) - 1 - r)
    } else {
        hash_bit(hash, r * half + (h - 1 - c))
    }
}

/// The whole `h` by `h` occupancy grid (`true` is empty, `false` is solid floor).
pub open spec fn occupancy_grid(hash: u32, h: nat) -> Seq<Seq<bool>> {
    Seq::new(h, |r: int| Seq::new(h, |c: int| occupancy_cell(hash, h, r as nat, c as nat)))
}

pub open spec fn valid_height(height: u8) -> bool {
    3 <= height <= 8
}

/// The request for one image: the input, the grid derived from it and the settings.
pub struct Spelunkicon {
    pub grid_width: u8,
    pub grid_height: u8,
    pub max_misc: u8,
    pub input: String,
    pub egg: Option<String>,
    pub hash: u32,
    pub grid: Vec<Vec<bool>>,
}

impl Spelunkicon {
    pub open spec fn grid_view(&self) -> Seq<Seq<bool>> {
        Seq::new(self.grid@.len(), |r: int| self.grid@[r]@)
    }

    /// A request whose grid is square, of a size the generator supports, and the one
    /// derived from its hash.
    pub open spec fn wf(&self) -> bool {
        &&& valid_height(self.grid_height)
        &&& self.grid_width == self.grid_height
        &&& self.grid_view() == occupancy_grid(self.hash, self.grid_height as nat)
    }

    pub fn from_input(input: &str, egg: Option<String>, height: u8, max_misc: u8) -> (r: Self)
        requires
            valid_height(height),
        ensures
            r.wf(),
            r.hash == crc32_of(input.spec_bytes()),
            r.grid_height == height,
            r.max_misc == max_misc,
            r.input@ == input@,
            r.egg == egg,
    {
        let hash = crc32(input.as_bytes());
        let grid = grid_from_hash(hash, height);
        let r = Spelunkicon {
            grid_width: height,
            grid_height: height,
            max_misc,
            input: input.to_owned(),
            egg,
            hash,
            grid,
        };
        assert(r.grid_view() =~= occupancy_grid(hash, height as nat));
        r
    }
}

proof fn lemma_grid_sizes(h: u32)
    requires
        3 <= h <= 8,
    ensures
        h * (h / 2) <= 32,
        h % 2 == 1 ==> h * (h / 2) + h <= 32,
        bits_needed(h as nat) == h * (h / 2) + if h % 2 == 1 { h as nat } else { 0 },
{
    if h == 3 {
    } else if h == 4 {
    } else if h == 5 {
    } else if h == 6 {
    } else if h == 7 {
    } else {
    }
}

fn bit_at(hash: u32, i: u32) -> (b: bool)
    requires
        i < 32,
    ensures
        b == hash_bit(hash, i as int),
{
    ((hash >> (31 - i)) & 1u32) == 1u32
}

/// Derives the mirrored occupancy grid of side `height` from the most significant bits
/// of `hash`.
pub fn grid_from_hash(hash: u32, height: u8) -> (grid: Vec<Vec<bool>>)
    requires
        valid_height(height),
    ensures
        grid@.len() == height,
        forall|r: int| 0 <= r < height ==> #[trigger] grid@[r]@ == occupancy_grid(hash, height as nat)[r],
{
    let h: u32 = height as u32;
    let half: u32 = h / 2;
    let odd: bool = h % 2 == 1;
    proof {
        lemma_grid_sizes(h);
    }
    let needed: u32 = if odd { h * half + h } else { h * half };
    let mut grid: Vec<Vec<bool>> = Vec::new();
    let mut r: u32 = 0;
    while r < h
        invariant
            3 <= h <= 8,
            h == height,
            half == h / 2,
            odd == (h % 2 == 1),
            needed == bits_needed(h as nat),
            needed <= 32,
            r <= h,
            grid@.len() == r,
            forall|i: int| 0 <= i < r ==> #[trigger] grid@[i]@ == occupancy_grid(hash, h as nat)[i],
        decreases h - r,
    {
        assert(r * half + half <= h * half) by (nonlinear_arith) requires r < h;
        let mut row: Vec<bool> = Vec::new();
        let mut c: u32 = 0;
        while c < half
            invariant
                3 <= h <= 8,
                half == h / 2,
                r < h,
                r * half + half <= h * half,
                h * half <= 32,
                c <= half,
                row@.len() == c,
                forall|j: int| 0 <= j < c ==> #[trigger] row@[j] == occupancy_cell(hash, h as nat, r as nat, j as nat),
            decreases half - c,
        {
            row.push(bit_at(hash, r * half + c));
            c = c + 1;
        }
        if odd {
            row.push(bit_at(hash, needed - 1 - r));
        }
        let mut k: u32 = half;
        while k > 0
            invariant
                3 <= h <= 8,
                half == h / 2,
                odd == (h % 2 == 1),
                r < h,
                r * half + half <= h * half,
                h * half <= 32,
                k <= half,
                row@.len() == h - k,
                forall|j: int| 0 <= j < h - k ==> #[trigger] row@[j] == occupancy_cell(hash, h as nat, r as nat, j as nat),
            decreases k,
        {
            k = k - 1;
            let ghost j = row@.len();
            assert(j == h - 1 - k);
            row.push(bit_at(hash, r * half + k));
        }
        let ghost row_spec = occupancy_grid(hash, h as nat)[r as int];
        assert(row@ =~= row_spec);
        grid.push(row);
        r = r + 1;
    }
    grid
}

/// The grid is symmetric about its vertical centre line: column `c` equals column
/// `height - 1 - c` in every row (an odd grid's centre column is its own mirror).
pub proof fn lemma_grid_mirrored(hash: u32, height: u8, r: nat, c: nat)
    requires
        valid_height(height),
        r < height,
        c < height,
    ensures
        occupancy_grid(hash, height as nat)[r as int][c as int]
            == occupancy_grid(hash, height as nat)[r as int][height - 1 - c],
{
}

} // verus!
