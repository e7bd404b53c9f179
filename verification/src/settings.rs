//! The fixed parameters of the renderer.
//!
//! Floating-point parameters are held as the bit patterns of IEEE 754
//! single-precision numbers, so that they can be stated and compared
//! exactly; the host turns them back into numbers when it makes the call.

use crate::event::{full_viewport, Viewport};
use vstd::prelude::*;

verus! {

/// The title of the window.
pub const WINDOW_TITLE: &'static str = "RustGL";

/// The width of the window at creation, in screen coordinates.
pub const WINDOW_WIDTH: u32 = 1920;

/// The height of the window at creation, in screen coordinates.
pub const WINDOW_HEIGHT: u32 = 1080;

/// The major version of the GPU context that is asked for.
pub const CONTEXT_VERSION_MAJOR: u32 = 4;

/// The minor version of the GPU context that is asked for.
pub const CONTEXT_VERSION_MINOR: u32 = 6;

/// The version of the shading language that the shader sources declare.
pub const SHADING_LANGUAGE_VERSION: u32 = 460;

/// The width and the height of the viewport that is set before the first
/// frame.
pub const INITIAL_VIEWPORT_EXTENT: i32 = 800;

/// Red channel of the background: 0.1.
pub const CLEAR_RED_BITS: u32 = 0x3DCC_CCCD;

/// Green channel of the background: 0.15.
pub const CLEAR_GREEN_BITS: u32 = 0x3E19_999A;

/// Blue channel of the background: 0.2.
pub const CLEAR_BLUE_BITS: u32 = 0x3E4C_CCCD;

/// Alpha channel of the background: 1.0.
pub const CLEAR_ALPHA_BITS: u32 = 0x3F80_0000;

/// A version of the GPU context, always of the core profile.
#[derive(Clone, Copy, Debug, PartialEq, Eq, Structural)]
pub struct ContextVersion {
    pub major: u32,
    pub minor: u32,
}

/// The size of a window, in screen coordinates.
#[derive(Clone, Copy, Debug, PartialEq, Eq, Structural)]
pub struct WindowSize {
    pub width: u32,
    pub height: u32,
}

/// A colour; each channel is the bit pattern of a single-precision number.
#[derive(Clone, Copy, Debug, PartialEq, Eq, Structural)]
pub struct ColorBits {
    pub red: u32,
    pub green: u32,
    pub blue: u32,
    pub alpha: u32,
}

impl ContextVersion {
    /// The version of the shading language that came with this version of
    /// the context: the major version in the hundreds, the minor in the tens.
    pub open spec fn shading_language(self) -> int {
        self.major * 100 + self.minor * 10
    }
}

/// Version 4.6.
pub open spec fn spec_requested_context() -> ContextVersion {
    ContextVersion { major: CONTEXT_VERSION_MAJOR, minor: CONTEXT_VERSION_MINOR }
}

/// 1920 by 1080.
pub open spec fn spec_requested_window() -> WindowSize {
    WindowSize { width: WINDOW_WIDTH, height: WINDOW_HEIGHT }
}

/// 800 by 800, from the origin.
pub open spec fn spec_initial_viewport() -> Viewport {
    full_viewport(INITIAL_VIEWPORT_EXTENT, INITIAL_VIEWPORT_EXTENT)
}

/// A dark blue, opaque.
pub open spec fn spec_clear_color() -> ColorBits {
    ColorBits {
        red: CLEAR_RED_BITS,
        green: CLEAR_GREEN_BITS,
        blue: CLEAR_BLUE_BITS,
        alpha: CLEAR_ALPHA_BITS,
    }
}

/// The context version that the renderer asks for.
#[verifier::when_used_as_spec(spec_requested_context)]
pub fn requested_context() -> (version: ContextVersion)
    ensures
        version == spec_requested_context(),
{
    ContextVersion { major: CONTEXT_VERSION_MAJOR, minor: CONTEXT_VERSION_MINOR }
}

/// The size that the window is created with.
#[verifier::when_used_as_spec(spec_requested_window)]
pub fn requested_window() -> (size: WindowSize)
    ensures
        size == spec_requested_window(),
{
    WindowSize { width: WINDOW_WIDTH, height: WINDOW_HEIGHT }
}

/// The viewport that is set before the first frame.
#[verifier::when_used_as_spec(spec_initial_viewport)]
pub fn initial_viewport() -> (viewport: Viewport)
    ensures
        viewport == spec_initial_viewport(),
{
    Viewport { x: 0, y: 0, width: INITIAL_VIEWPORT_EXTENT, height: INITIAL_VIEWPORT_EXTENT }
}

/// The colour that each frame is cleared to.
#[verifier::when_used_as_spec(spec_clear_color)]
pub fn clear_color() -> (color: ColorBits)
    ensures
        color == spec_clear_color(),
{
    ColorBits {
        red: CLEAR_RED_BITS,
        green: CLEAR_GREEN_BITS,
        blue: CLEAR_BLUE_BITS,
        alpha: CLEAR_ALPHA_BITS,
    }
}

/// The shader sources are written in the dialect of the context that is
/// asked for.
pub proof fn lemma_one_version()
    ensures
        requested_context().shading_language() == SHADING_LANGUAGE_VERSION,
{
}

} // verus!
