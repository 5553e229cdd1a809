use vstd::prelude::*;

verus! {

/// A pixel format identifier. The platform layer assigns one code to each
/// concrete surface format it encounters; the core compares codes and
/// carries them, and never looks inside them.
pub type FormatId = u32;

/// How a finished frame becomes visible. The application fixes this to
/// `Immediate`: it paces itself with a fixed inter-frame sleep and asks the
/// presentation layer for no frame pacing of its own.
#[derive(Clone, Copy, Debug, PartialEq, Eq, Structural)]
pub enum PresentMode {
    Immediate,
    Mailbox,
    Fifo,
}

/// What the surface's textures may be used for. The render loop only ever
/// draws into them, so every configuration it builds uses
/// `RenderAttachment`.
#[derive(Clone, Copy, Debug, PartialEq, Eq, Structural)]
pub enum TextureUsage {
    RenderAttachment,
}

/// The configuration a surface is applied with: pixel dimensions, the
/// format selected from adapter capabilities at context creation, the
/// usage of the surface's textures, and the presentation mode.
///
/// Width and height are mutated in place on resize (only when both are
/// positive); format, usage and presentation mode are chosen once per
/// context and held fixed thereafter.
#[derive(Clone, Copy, Debug, PartialEq, Eq, Structural)]
pub struct SurfaceConfig {
    pub usage: TextureUsage,
    pub format: FormatId,
    pub width: u32,
    pub height: u32,
    pub present_mode: PresentMode,
}

/// What one physical adapter offers for the window's surface: the formats
/// the surface reports as usable with that adapter, most preferred first.
/// An empty list means the surface cannot be presented through that
/// adapter at all.
#[derive(Debug, PartialEq, Eq)]
pub struct AdapterInfo {
    pub formats: Vec<FormatId>,
}

} // verus!
