use vstd::prelude::*;

verus! {

/// Per-edge distances, in whole logical pixels, that hosted content keeps
/// clear of display obstructions. Every field is always present and, being
/// unsigned, never negative.
#[derive(Clone, Copy, Debug, PartialEq, Eq, Structural)]
pub struct SafeAreaInsets {
    pub top: u32,
    pub bottom: u32,
    pub left: u32,
    pub right: u32,
}

/// Top and bottom clearance of the fallback value.
pub const FALLBACK_VERTICAL: u32 = 24;

/// The fixed value the bridge command answers with: room above and below,
/// none at the sides.
pub open spec fn fallback_insets() -> SafeAreaInsets {
    SafeAreaInsets { top: 24, bottom: 24, left: 0, right: 0 }
}

/// What the bridge command answers to a call from `window`. The handle is
/// not read, so the answer is the same for every caller and every call.
pub open spec fn bridge_response<W>(window: W) -> SafeAreaInsets {
    fallback_insets()
}

impl SafeAreaInsets {
    /// Permissive: clearance above and below, content reaching both sides.
    pub open spec fn is_permissive(self) -> bool {
        self.top > 0 && self.bottom > 0 && self.left == 0 && self.right == 0
    }
}

/// The bridge command exposed to hosted content. It cannot fail and keeps no
/// state; on touch-mobile targets native code later pushes the real values,
/// which supersede this answer.
pub fn get_safe_area_insets<W>(window: W) -> (r: SafeAreaInsets)
    ensures
        r == bridge_response(window),
        r.is_permissive(),
{
    SafeAreaInsets { top: FALLBACK_VERTICAL, bottom: FALLBACK_VERTICAL, left: 0, right: 0 }
}

/// Calls from any two handles, at any two times, get the same answer, and
/// that answer is the fallback value.
pub proof fn lemma_bridge_response_is_stateless<W>(a: W, b: W)
    ensures
        bridge_response(a) == bridge_response(b),
        bridge_response(a) == fallback_insets(),
{
}

} // verus!
