//! User-tunable settings: display effects, CPU pacing and recording. Reading
//! them from a configuration file is the host's business.

use vstd::prelude::*;

verus! {

/// Per-channel divisors that turn a phosphor brightness into a colour.
#[derive(Clone, Copy, Debug)]
pub struct ColorSettings {
    /// Red channel divisor (1 = full brightness, higher = dimmer).
    pub red_divisor: u8,
    /// Green channel divisor.
    pub green_divisor: u8,
    /// Blue channel divisor.
    pub blue_divisor: u8,
    /// Background colour (RGBA).
    pub background: [u8; 4],
}

impl Default for ColorSettings {
    /// A green phosphor with a little red and less blue, on black.
    fn default() -> (r: Self)
        ensures
            r.red_divisor == 4,
            r.green_divisor == 1,
            r.blue_divisor == 8,
            r.background@ == seq![0u8, 0u8, 0u8, 255u8],
    {
        let r = Self { red_divisor: 4, green_divisor: 1, blue_divisor: 8, background: [0, 0, 0, 255] };
        assert(r.background@ =~= seq![0u8, 0u8, 0u8, 255u8]);
        r
    }
}

/// How the display glows.
#[derive(Clone, Copy, Debug)]
pub struct DisplaySettings {
    /// How much an unlit pixel's phosphor fades on each render.
    pub phosphor_decay_rate: u8,
    /// The phosphor value a pixel gets when it is lit.
    pub max_phosphor_value: u8,
    /// How much the host scales the 64x32 display up.
    pub default_scale_factor: u32,
    pub color: ColorSettings,
}

impl Default for DisplaySettings {
    fn default() -> (r: Self)
        ensures
            r.phosphor_decay_rate == 15,
            r.max_phosphor_value == 255,
            r.default_scale_factor == 10,
            r.color.red_divisor == 4,
            r.color.green_divisor == 1,
            r.color.blue_divisor == 8,
            r.color.background@ == seq![0u8, 0u8, 0u8, 255u8],
    {
        Self {
            phosphor_decay_rate: 15,
            max_phosphor_value: 255,
            default_scale_factor: 10,
            color: ColorSettings::default(),
        }
    }
}

/// Pacing of the emulation loop.
#[derive(Clone, Copy, Debug)]
pub struct CpuSettings {
    /// Frames per second.
    pub target_fps: u32,
    /// Instructions executed per frame.
    pub cycles_per_frame: u32,
}

impl Default for CpuSettings {
    fn default() -> (r: Self)
        ensures
            r.target_fps == 60,
            r.cycles_per_frame == 10,
    {
        Self { target_fps: 60, cycles_per_frame: 10 }
    }
}

/// How screen recordings are made.
#[derive(Clone, Debug)]
pub struct RecordingSettings {
    /// Each display pixel becomes a square of this many pixels.
    pub gif_scale_factor: u16,
    /// Delay between recorded frames, in centiseconds.
    pub gif_frame_delay: u16,
    /// Frames left out between two recorded ones.
    pub gif_frame_skip: u32,
    /// Directory the recordings are written to.
    pub output_dir: String,
}

impl Default for RecordingSettings {
    fn default() -> (r: Self)
        ensures
            r.gif_scale_factor == 8,
            r.gif_frame_delay == 4,
            r.gif_frame_skip == 3,
            r.output_dir@ == seq!['.'],
    {
        let dir = ".".to_string();
        proof {
            reveal_strlit(".");
        }
        Self { gif_scale_factor: 8, gif_frame_delay: 4, gif_frame_skip: 3, output_dir: dir }
    }
}

} // verus!
