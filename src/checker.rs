use vstd::prelude::*;

verus! {

/// Whether the tile with indices `(ix, iz)` takes the second ("white")
/// colour of a checkerboard. A tile index is a hit coordinate scaled by two
/// and truncated toward zero.
pub open spec fn tile_is_white(ix: int, iz: int) -> bool {
    (ix + iz) % 2 == 1
}

/// Picks the colour of a checkerboard tile: `true` for the second colour.
/// Any pair of indices is accepted: the sum is taken without overflow.
pub fn checker_tile_is_white(ix: i32, iz: i32) -> (r: bool)
    ensures
        r == tile_is_white(ix as int, iz as int),
{
    let sum: i64 = ix as i64 + iz as i64;
    let magnitude: u64 = if sum < 0 { (-sum) as u64 } else { sum as u64 };
    assert(magnitude as int % 2 == sum as int % 2);
    magnitude % 2 == 1
}

/// Neighbouring tiles differ in colour along either in-plane axis, and the
/// pattern repeats every two tiles, i.e. every world unit.
pub proof fn lemma_checker_alternates(ix: int, iz: int)
    ensures
        tile_is_white(ix + 1, iz) != tile_is_white(ix, iz),
        tile_is_white(ix, iz + 1) != tile_is_white(ix, iz),
        tile_is_white(ix + 2, iz) == tile_is_white(ix, iz),
        tile_is_white(ix, iz + 2) == tile_is_white(ix, iz),
{
}

} // verus!
