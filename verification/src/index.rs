use vstd::prelude::*;

verus! {

/// Position in the rotation of frame slots: selects which semaphores and
/// which fence pace a frame. Never a position among the presentable images.
#[derive(Clone, Copy, Debug, PartialEq, Eq, Structural)]
pub struct SlotIndex(pub usize);

/// Position among the presentable images, as the presentation engine hands
/// it out on acquire: selects which framebuffer and which command buffer a
/// frame uses. Never a position in the slot rotation.
#[derive(Clone, Copy, Debug, PartialEq, Eq, Structural)]
pub struct ImageIndex(pub usize);

} // verus!
