//! The points on which interpreters differ.

use vstd::prelude::*;

verus! {

/// The points on which interpreters differ. A program is written for one
/// choice of them.
#[derive(Clone, Copy, Debug, PartialEq, Eq, Structural)]
pub struct Quirks {
    /// `8XY6` and `8XYE` shift `VX` where it stands and do not look at `VY`,
    /// instead of shifting `VY` into `VX`.
    pub shift_in_place: bool,
    /// `FX55` and `FX65` leave `I` as it is, instead of moving it past the
    /// bytes that were copied.
    pub keep_index: bool,
    /// `DXYN` leaves out what would lie beyond the right or the bottom edge
    /// of the screen, instead of wrapping it round to the other side.
    pub clip_sprites: bool,
}

impl Quirks {
    /// The choices of the first interpreter: shifts read `VY`, copies move
    /// `I`, sprites wrap.
    pub open spec fn classic_choices() -> Quirks {
        Quirks { shift_in_place: false, keep_index: false, clip_sprites: false }
    }

    /// The choices of the first interpreter.
    pub fn classic() -> (quirks: Quirks)
        ensures
            quirks == Self::classic_choices(),
    {
        Quirks { shift_in_place: false, keep_index: false, clip_sprites: false }
    }
}

} // verus!
