//! Settings of an emulation session: window scale, pacing, the program to
//! run and where recordings go. The window, the frame timing and the event
//! loop belong to the host.

use vstd::prelude::*;

use crate::constants::{DISPLAY_HEIGHT, DISPLAY_WIDTH};

verus! {

/// Default window scale factor.
pub const DEFAULT_SCALE_FACTOR: u32 = 10;

/// Default number of instructions per frame.
pub const DEFAULT_CYCLES_PER_FRAME: u32 = 10;

/// Default frames per second.
pub const DEFAULT_TARGET_FPS: u32 = 60;

/// Where recordings go and how they are named.
#[derive(Clone, Debug)]
pub struct RecordingConfig {
    pub output_dir: String,
    /// File name pattern; `{rom_name}` and `{timestamp}` are filled in.
    pub filename_pattern: String,
    pub auto_increment: bool,
}

impl Default for RecordingConfig {
    fn default() -> (r: Self)
        ensures
            r.output_dir@ == "."@,
            r.filename_pattern@ == "chip8_{rom_name}_{timestamp}"@,
            r.auto_increment,
    {
        Self {
            output_dir: ".".to_string(),
            filename_pattern: "chip8_{rom_name}_{timestamp}".to_string(),
            auto_increment: true,
        }
    }
}

/// The settings of one session.
#[derive(Clone, Debug)]
pub struct EmulatorConfig {
    pub scale_factor: u32,
    pub cycles_per_frame: u32,
    pub target_fps: u32,
    pub rom_path: String,
    pub recording: RecordingConfig,
}

impl Default for EmulatorConfig {
    fn default() -> (r: Self)
        ensures
            r.scale_factor == DEFAULT_SCALE_FACTOR,
            r.cycles_per_frame == DEFAULT_CYCLES_PER_FRAME,
            r.target_fps == DEFAULT_TARGET_FPS,
            r.rom_path@.len() == 0,
            r.recording.output_dir@ == "."@,
            r.recording.filename_pattern@ == "chip8_{rom_name}_{timestamp}"@,
            r.recording.auto_increment,
    {
        Self {
            scale_factor: DEFAULT_SCALE_FACTOR,
            cycles_per_frame: DEFAULT_CYCLES_PER_FRAME,
            target_fps: DEFAULT_TARGET_FPS,
            rom_path: String::new(),
            recording: RecordingConfig::default(),
        }
    }
}

/// The window size for `config`: the display scaled by its scale factor,
/// width first. The scaled width must fit in 32 bits.
pub fn window_dimensions(config: &EmulatorConfig) -> (r: (u32, u32))
    requires
        DISPLAY_WIDTH * config.scale_factor <= u32::MAX,
    ensures
        r == ((DISPLAY_WIDTH * config.scale_factor) as u32, (DISPLAY_HEIGHT
            * config.scale_factor) as u32),
{
    (DISPLAY_WIDTH as u32 * config.scale_factor, DISPLAY_HEIGHT as u32 * config.scale_factor)
}

} // verus!
