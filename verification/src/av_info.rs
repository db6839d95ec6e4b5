//! The timing and geometry that the core reports to the frontend.

use vstd::prelude::*;
use crate::config::{
    AV_PIXEL_ASPECT,
    AV_PIXEL_ASPECT_DIVISOR,
    AV_SAMPLE_RATE,
    AV_SCREEN_HEIGHT,
    AV_SCREEN_WIDTH,
};
use crate::rate_table::CoreLogicRate;

verus! {

/// A quotient of two whole numbers.
#[derive(Clone, Copy, Debug, PartialEq, Eq)]
pub struct Ratio {
    pub numerator: u32,
    pub denominator: u32,
}

/// The size of the picture and the shape of its pixels.
#[derive(Clone, Copy, Debug, PartialEq, Eq)]
pub struct GameGeometry {
    pub base_width: u32,
    pub base_height: u32,
    pub max_width: u32,
    pub max_height: u32,
    pub aspect_ratio: Ratio,
}

/// The rates of picture and sound. The displayed frames per second are the
/// logic ticks per second over the logic ticks per displayed frame.
#[derive(Clone, Copy, Debug, PartialEq, Eq)]
pub struct SystemTiming {
    pub fps: Ratio,
    pub sample_rate: u32,
}

/// What the frontend is told of picture and sound.
#[derive(Clone, Copy, Debug, PartialEq, Eq)]
pub struct SystemAvInfo {
    pub geometry: GameGeometry,
    pub timing: SystemTiming,
}

/// The layout of a pixel in the frame buffer.
#[derive(Clone, Copy, Debug, PartialEq, Eq)]
pub enum PixelFormat {
    Rgb565,
    Xrgb8888,
}

impl PixelFormat {
    /// The number by which the frontend knows the format.
    pub fn id(self) -> (id: u32)
        ensures
            id == match self {
                PixelFormat::Xrgb8888 => 1u32,
                PixelFormat::Rgb565 => 2u32,
            },
    {
        match self {
            PixelFormat::Xrgb8888 => 1,
            PixelFormat::Rgb565 => 2,
        }
    }
}

/// The core cannot tell the frontend how many frames per second it shows.
#[derive(Clone, Copy, Debug, PartialEq, Eq)]
pub enum ConfigError {
    /// The display rate that the frontend selected has no multiplier in the
    /// table of the core's logic rate.
    NoMultiplier,
}

/// The displayed frame rate of a logic rate run at `multiplier` ticks per
/// displayed frame.
pub open spec fn frame_rate(rate: CoreLogicRate, multiplier: u32) -> Ratio {
    Ratio { numerator: rate.nominal() as u32, denominator: multiplier }
}

/// What the frontend is told when the picture is shown at `fps`.
pub open spec fn av_info_at(fps: Ratio) -> SystemAvInfo {
    SystemAvInfo {
        geometry: GameGeometry {
            base_width: AV_SCREEN_WIDTH,
            base_height: AV_SCREEN_HEIGHT,
            max_width: AV_SCREEN_WIDTH,
            max_height: AV_SCREEN_HEIGHT,
            aspect_ratio: Ratio {
                numerator: AV_PIXEL_ASPECT,
                denominator: AV_PIXEL_ASPECT_DIVISOR,
            },
        },
        timing: SystemTiming { fps, sample_rate: AV_SAMPLE_RATE },
    }
}

/// The screen is not empty and its pixels have a shape.
pub proof fn lemma_screen_is_set()
    ensures
        AV_SCREEN_HEIGHT > 0,
        AV_SCREEN_WIDTH > 0,
        AV_PIXEL_ASPECT > 0,
        AV_PIXEL_ASPECT_DIVISOR > 0,
{
}

/// Fills in picture size, pixel shape and sample rate of the core, and the
/// given frame rate.
pub fn set_retro_system_av_info(info: &mut SystemAvInfo, fps: Ratio)
    ensures
        *final(info) == av_info_at(fps),
{
    info.timing.fps = fps;
    info.timing.sample_rate = AV_SAMPLE_RATE;
    info.geometry.base_width = AV_SCREEN_WIDTH;
    info.geometry.base_height = AV_SCREEN_HEIGHT;
    info.geometry.max_width = AV_SCREEN_WIDTH;
    info.geometry.max_height = AV_SCREEN_HEIGHT;
    info.geometry.aspect_ratio = Ratio {
        numerator: AV_PIXEL_ASPECT,
        denominator: AV_PIXEL_ASPECT_DIVISOR,
    };
}

/// What the frontend is told for a logic rate and the multiplier in force.
pub fn timing_for(rate: CoreLogicRate, multiplier: u32) -> (info: SystemAvInfo)
    ensures
        info == av_info_at(frame_rate(rate, multiplier)),
{
    let fps = Ratio { numerator: rate.hertz(), denominator: multiplier };
    let mut info = SystemAvInfo {
        geometry: GameGeometry {
            base_width: 0,
            base_height: 0,
            max_width: 0,
            max_height: 0,
            aspect_ratio: Ratio { numerator: 0, denominator: 1 },
        },
        timing: SystemTiming { fps: Ratio { numerator: 0, denominator: 1 }, sample_rate: 0 },
    };
    set_retro_system_av_info(&mut info, fps);
    info
}

/// What the frontend is told at start: the timing for the multiplier that was
/// negotiated, or the error that none was.
pub fn system_av_info(rate: CoreLogicRate, frame_mult: Option<u32>) -> (result: Result<
    SystemAvInfo,
    ConfigError,
>)
    ensures
        match frame_mult {
            Some(multiplier) => result == Ok::<SystemAvInfo, ConfigError>(
                av_info_at(frame_rate(rate, multiplier)),
            ),
            None => result == Err::<SystemAvInfo, ConfigError>(ConfigError::NoMultiplier),
        },
{
    match frame_mult {
        Some(multiplier) => Ok(timing_for(rate, multiplier)),
        None => Err(ConfigError::NoMultiplier),
    }
}

/// The pixel format for a colour depth.
pub fn pixel_format(color_depth_32: bool) -> (format: PixelFormat)
    ensures
        format == if color_depth_32 {
            PixelFormat::Xrgb8888
        } else {
            PixelFormat::Rgb565
        },
{
    if color_depth_32 {
        PixelFormat::Xrgb8888
    } else {
        PixelFormat::Rgb565
    }
}

} // verus!
