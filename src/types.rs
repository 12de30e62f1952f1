//! Small value types shared with the engine around the simulation.
use vstd::prelude::*;

verus! {

/// How the logical screen size follows the window.
#[derive(Clone, Copy, Debug, Default, PartialEq, Eq, Structural)]
pub enum ScaleMode {
    /// One logical pixel per window pixel.
    #[default]
    Window,
    /// A fixed logical width and height.
    Fixed { width: u32, height: u32 },
    /// A fixed logical height; the width follows the window's shape.
    FixedHeight(u32),
    /// A fixed logical width; the height follows the window's shape.
    FixedWidth(u32),
}

/// A player action that keys are bound to.
#[derive(Clone, Copy, Debug, PartialEq, Eq, Hash, Structural)]
pub struct ActionId(pub u8);

/// What a loaded asset is used as.
#[derive(Clone, Copy, Debug, PartialEq, Eq, Structural)]
pub enum AssetType {
    Raw,
    Texture,
    Font,
}

} // verus!
