//! State shared by the level editor's screens.

use vstd::prelude::*;

verus! {

/// Enumeration to determine the current editor screen being drawn and
/// updated.
#[derive(Clone, Copy, Debug, PartialEq, Eq, Structural)]
pub enum EditorNavigation {
    /// Viewing mode for 8x8 tiles.  Cannot edit.
    TileViewer,
    /// Editor mode for 16x16 tiles.
    PieceEditor,
    /// Editor mode for 128x128 tiles.
    ChunkEditor,
    /// Editor mode for entire level map.
    MapEditor,
}

impl Default for EditorNavigation {
    /// Editing starts on the tile viewer.
    fn default() -> (r: Self)
        ensures
            r == EditorNavigation::TileViewer,
    {
        EditorNavigation::TileViewer
    }
}

/// The next slot in a cyclic browse through `len` items.
pub fn cycle_next(current: usize, len: usize) -> (r: usize)
    requires
        len > 0,
        current < len,
    ensures
        r == (current + 1) % (len as int),
        r < len,
{
    (current + 1) % len
}

/// The previous slot in a cyclic browse through `len` items.
pub fn cycle_previous(current: usize, len: usize) -> (r: usize)
    requires
        len > 0,
        current < len,
    ensures
        r == (current + len - 1) % (len as int),
        r < len,
{
    proof {
        if current == 0 {
            vstd::arithmetic::div_mod::lemma_small_mod((len - 1) as nat, len as nat);
        } else {
            vstd::arithmetic::div_mod::lemma_mod_add_multiples_vanish(current - 1, len as int);
            vstd::arithmetic::div_mod::lemma_small_mod((current - 1) as nat, len as nat);
        }
    }
    if current == 0 {
        len - 1
    } else {
        current - 1
    }
}

} // verus!
