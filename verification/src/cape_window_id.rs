use vstd::prelude::*;

verus! {

/// Kind of window system a CAPE-OPEN window identifier refers to.
pub enum CapeWindowIdType {
    CapeWindowId_None,
    CapeWindowId_X11,
    CapeWindowId_Wayland,
    CapeWindowId_COCOA,
}

} // verus!
