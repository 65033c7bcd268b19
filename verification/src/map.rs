//! Tile-grid index arithmetic and tile matching, the computational
//! core of the map-generation tool.
//!
//! The tool slices images into tiles and looks each slice up in an
//! atlas; reading and slicing the images is the tool's own business,
//! and it hands the pixel rows here as plain values.

use vstd::prelude::*;

verus! {

/// The index of the tile at grid coordinate `(x, y)` in a row-major
/// grid `max_x` tiles wide.
pub fn coord_to_tile(x: u32, y: u32, max_x: u32) -> (r: u32)
    requires
        y * max_x + x <= u32::MAX,
    ensures
        r == y * max_x + x,
{
    (y * max_x) + x
}

/// Whether two pixel buffers hold the same contents.
pub fn pixels_equal(a: &Vec<u32>, b: &Vec<u32>) -> (r: bool)
    ensures
        r == (a@ == b@),
{
    if a.len() != b.len() {
        proof {
            assert(a@ =~= b@ ==> a@.len() == b@.len());
        }
        return false;
    }
    let n: usize = a.len();
    let mut i: usize = 0;
    while i < n
        invariant
            n == a.len() == b.len(),
            i <= n,
            forall|j: int| 0 <= j < i ==> a@[j] == b@[j],
        decreases n - i,
    {
        if *a.get(i).unwrap() != *b.get(i).unwrap() {
            proof {
                assert(a@[i as int] != b@[i as int]);
                assert(a@ =~= b@ ==> a@[i as int] == b@[i as int]);
            }
            return false;
        }
        i = i + 1;
    }
    proof {
        assert(a@ =~= b@);
    }
    true
}

/// The index of the first tile of the atlas whose pixels equal the
/// sought tile, if any.
pub fn find_tile(atlas: &Vec<Vec<u32>>, sought: &Vec<u32>) -> (r: Option<usize>)
    ensures
        match r {
            Some(i) => i < atlas@.len() && atlas@[i as int]@ == sought@ && (forall|j: int|
                0 <= j < i ==> atlas@[j]@ != sought@),
            None => forall|j: int| 0 <= j < atlas@.len() ==> atlas@[j]@ != sought@,
        },
{
    let n: usize = atlas.len();
    let mut i: usize = 0;
    while i < n
        invariant
            n == atlas.len(),
            i <= n,
            forall|j: int| 0 <= j < i ==> atlas@[j]@ != sought@,
        decreases n - i,
    {
        if pixels_equal(atlas.get(i).unwrap(), sought) {
            return Some(i);
        }
        i = i + 1;
    }
    None
}

} // verus!
