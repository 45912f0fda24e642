//! What the memory map needs to know of the picture processing unit: how
//! the cartridge mirrors the nametables.
use vstd::prelude::*;

verus! {

#[derive(Clone, Copy, Debug, PartialEq, Eq, Structural)]
pub enum MirrorMode {
    Horizontal,
    Vertical,
    SingleLower,
    SingleUpper,
}

/// A source of the current nametable mirroring.
pub trait Mirrorer: View {
    spec fn mode(state: Self::V) -> MirrorMode;

    fn mirror_mode(&self) -> (mode: MirrorMode)
        ensures
            mode == Self::mode(self@),
    ;
}

} // verus!
