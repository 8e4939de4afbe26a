use vstd::prelude::*;

verus! {

/// The operating system a build targets, fixed when the binary is built.
#[derive(Clone, Copy, Debug, PartialEq, Eq, Structural)]
pub enum Platform {
    Linux,
    Windows,
    MacOs,
    Android,
    Ios,
}

impl Platform {
    /// A touch-mobile target: one where the display has obstructions that
    /// native code reports and where edge-to-edge handling applies.
    pub open spec fn is_touch_mobile(self) -> bool {
        self is Android || self is Ios
    }

    pub fn is_mobile(&self) -> (r: bool)
        ensures
            r == self.is_touch_mobile(),
    {
        match self {
            Platform::Android | Platform::Ios => true,
            _ => false,
        }
    }
}

} // verus!
