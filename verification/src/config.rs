//! The settings of the core: what it is called, the size and depth of its
//! picture, and the rates of its logic and its sound.

use vstd::prelude::*;
use crate::rate_table::CoreLogicRate;

verus! {

/// Name of the core, for display in the frontend: ASCII that ends with a
/// zero byte.
pub const CORE_NAME: &'static str = "Example Core\0";

/// Version of the core, for display in the frontend: ASCII that ends with a
/// zero byte.
pub const CORE_VERSION: &'static str = "0.0.1\0";

/// Whether the core runs without the frontend loading content for it.
pub const NO_CONTENT: bool = true;

/// The extensions of the content that the core accepts, separated by pipes:
/// ASCII that ends with a zero byte. Not looked at while `NO_CONTENT` holds.
pub const VALID_EXTENSIONS: &'static str = "\0";

/// Width of the screen in pixels.
pub const AV_SCREEN_WIDTH: u32 = 320;

/// Height of the screen in pixels.
pub const AV_SCREEN_HEIGHT: u32 = 240;

/// Pixel aspect ratio, as a quotient: this over `AV_PIXEL_ASPECT_DIVISOR`.
/// Square pixels are one over one.
pub const AV_PIXEL_ASPECT: u32 = 1;

/// The divisor of the pixel aspect ratio.
pub const AV_PIXEL_ASPECT_DIVISOR: u32 = 1;

/// Audio sampling rate in hertz.
pub const AV_SAMPLE_RATE: u32 = 48000;

/// Whether the picture is 32 bit XRGB8888 rather than 16 bit RGB565.
pub const COLOR_DEPTH_32: bool = false;

/// The logic rate of the core.
pub const CORE_LOGIC_RATE: CoreLogicRate = CoreLogicRate::LogicRate720;

} // verus!
