//! Navigation between the drawable states of the front end.

use vstd::prelude::*;

verus! {

/// The screen currently being drawn.
#[derive(Clone, Copy, Debug, PartialEq, Eq, Structural)]
pub enum Navigation {
    TitleScreen,
    Settings,
}

impl Default for Navigation {
    /// Drawing starts on the title screen.
    fn default() -> (r: Self)
        ensures
            r == Navigation::TitleScreen,
    {
        Navigation::TitleScreen
    }
}

} // verus!
