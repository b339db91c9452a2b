use vstd::prelude::*;
use rand::seq::SliceRandom;
use rand::{Rng, SeedableRng};
use rand_chacha::ChaCha12Rng;

verus! {

/// The seeded pseudo-random stream of one request: the seed, and how many 32-bit words
/// of the generator's output have been consumed so far. Every draw is a function of
/// these two numbers, so a request's draws are fixed by its seed and the order in which
/// it makes them.
#[derive(Debug, Clone, Copy, PartialEq, Eq, Structural)]
pub struct Stream {
    pub seed: u64,
    pub pos: u64,
}

/// What `Rng::gen::<usize>` yields from the ChaCha12 generator seeded with `seed` by
/// `SeedableRng::seed_from_u64` and set to word `pos`, with the word position after it.
pub uninterp spec fn usize_draw(seed: u64, pos: u64) -> (usize, u64);

/// As `usize_draw`, for `Rng::gen::<u32>`.
pub uninterp spec fn u32_draw(seed: u64, pos: u64) -> (u32, u64);

/// As `usize_draw`, for `Rng::gen_ratio(num, den)`.
pub uninterp spec fn ratio_draw(seed: u64, pos: u64, num: u32, den: u32) -> (bool, u64);

/// As `usize_draw`, for the index that `SliceRandom::choose` picks in a slice of `len`.
pub uninterp spec fn choose_draw(seed: u64, pos: u64, len: usize) -> (usize, u64);

/// As `usize_draw`, for `Rng::gen_range(0..len)` over `usize`.
pub uninterp spec fn range_draw(seed: u64, pos: u64, len: usize) -> (usize, u64);

/// Relies on `rand::Rng::gen::<usize>` on `rand_chacha::ChaCha12Rng` (the generator
/// behind `rand::rngs::StdRng`), positioned with `set_word_pos` and read back with
/// `get_word_pos`.
#[verifier::external_body]
fn gen_usize(s: &mut Stream) -> (r: usize)
    ensures
        (r, final(s).pos) == usize_draw(old(s).seed, old(s).pos),
        final(s).seed == old(s).seed,
{
    let mut g = ChaCha12Rng::seed_from_u64(s.seed);
    g.set_word_pos(s.pos as u128);
    let r: usize = g.gen();
    s.pos = g.get_word_pos() as u64;
    r
}

/// Relies on `rand::Rng::gen::<u32>`, on the generator as for `gen_usize`.
#[verifier::external_body]
fn gen_u32(s: &mut Stream) -> (r: u32)
    ensures
        (r, final(s).pos) == u32_draw(old(s).seed, old(s).pos),
        final(s).seed == old(s).seed,
{
    let mut g = ChaCha12Rng::seed_from_u64(s.seed);
    g.set_word_pos(s.pos as u128);
    let r: u32 = g.gen();
    s.pos = g.get_word_pos() as u64;
    r
}

/// Relies on `rand::Rng::gen_ratio`, on the generator as for `gen_usize`: true with
/// chance `num` in `den`, and never true when `num` is 0. It panics when `den` is 0 or
/// `num > den`.
#[verifier::external_body]
fn gen_ratio(s: &mut Stream, num: u32, den: u32) -> (r: bool)
    requires
        0 < den,
        num <= den,
    ensures
        (r, final(s).pos) == ratio_draw(old(s).seed, old(s).pos, num, den),
        num == 0 ==> !r,
        num == den ==> r,
        final(s).seed == old(s).seed,
{
    let mut g = ChaCha12Rng::seed_from_u64(s.seed);
    g.set_word_pos(s.pos as u128);
    let r = g.gen_ratio(num, den);
    s.pos = g.get_word_pos() as u64;
    r
}

/// Relies on `rand::seq::SliceRandom::choose`, on the generator as for `gen_usize`:
/// applied to the indices `0..len`, it picks one of them.
#[verifier::external_body]
fn gen_choose(s: &mut Stream, len: usize) -> (r: usize)
    requires
        0 < len,
    ensures
        (r, final(s).pos) == choose_draw(old(s).seed, old(s).pos, len),
        r < len,
        final(s).seed == old(s).seed,
{
    let mut g = ChaCha12Rng::seed_from_u64(s.seed);
    g.set_word_pos(s.pos as u128);
    let indices: Vec<usize> = (0..len).collect();
    let r = *indices.choose(&mut g).unwrap();
    s.pos = g.get_word_pos() as u64;
    r
}

/// Relies on `rand::Rng::gen_range(0..len)` over `usize`, on the generator as for
/// `gen_usize`: a value below `len`. It panics on an empty range.
#[verifier::external_body]
fn gen_range(s: &mut Stream, len: usize) -> (r: usize)
    requires
        0 < len,
    ensures
        (r, final(s).pos) == range_draw(old(s).seed, old(s).pos, len),
        r < len,
        final(s).seed == old(s).seed,
{
    let mut g = ChaCha12Rng::seed_from_u64(s.seed);
    g.set_word_pos(s.pos as u128);
    let r: usize = g.gen_range(0..len);
    s.pos = g.get_word_pos() as u64;
    r
}

impl Stream {
    /// The stream seeded with `seed`, before its first draw.
    pub fn new(seed: u64) -> (r: Stream)
        ensures
            r.seed == seed,
            r.pos == 0,
    {
        Stream { seed, pos: 0 }
    }

    /// Draws a `usize`.
    pub fn next_usize(&mut self) -> (r: usize)
        ensures
            (r, final(self).pos) == usize_draw(old(self).seed, old(self).pos),
            final(self).seed == old(self).seed,
    {
        gen_usize(self)
    }

    /// Draws a `u32`.
    pub fn next_u32(&mut self) -> (r: u32)
        ensures
            (r, final(self).pos) == u32_draw(old(self).seed, old(self).pos),
            final(self).seed == old(self).seed,
    {
        gen_u32(self)
    }

    /// Draws a flip that comes up true with chance `num` in `den`.
    pub fn ratio(&mut self, num: u32, den: u32) -> (r: bool)
        requires
            0 < num < den,
        ensures
            (r, final(self).pos) == ratio_draw(old(self).seed, old(self).pos, num, den),
            final(self).seed == old(self).seed,
    {
        gen_ratio(self, num, den)
    }

    /// Draws the index of one element of a slice of `len` elements, as choosing from
    /// the slice does.
    pub fn choose_index(&mut self, len: usize) -> (r: usize)
        requires
            0 < len,
        ensures
            (r, final(self).pos) == choose_draw(old(self).seed, old(self).pos, len),
            r < len,
            final(self).seed == old(self).seed,
    {
        gen_choose(self, len)
    }

    /// Draws a value below `len` from the range `0..len`.
    pub fn below(&mut self, len: usize) -> (r: usize)
        requires
            0 < len,
        ensures
            (r, final(self).pos) == range_draw(old(self).seed, old(self).pos, len),
            r < len,
            final(self).seed == old(self).seed,
    {
        gen_range(self, len)
    }
}

} // verus!
