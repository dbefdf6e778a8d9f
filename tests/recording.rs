use chip8::emulator::{window_dimensions, EmulatorConfig, RecordingConfig};
use chip8::recording::{is_recorded_frame, scale_and_convert_buffer};
use chip8::settings::{CpuSettings, DisplaySettings, RecordingSettings};

#[test]
fn every_fourth_frame_is_recorded_by_default() {
    let skip = RecordingSettings::default().gif_frame_skip;
    let kept: Vec<u32> = (1..=12).filter(|&n| is_recorded_frame(n, skip)).collect();
    assert_eq!(kept, vec![4, 8, 12]);
    assert!(is_recorded_frame(7, 0));
    assert!(is_recorded_frame(0, u32::MAX));
    assert!(!is_recorded_frame(5, u32::MAX));
}

#[test]
fn scaling_repeats_pixels_and_drops_alpha() {
    let mut rgba = vec![0u8; 8192];
    rgba[0..4].copy_from_slice(&[10, 20, 30, 255]);
    rgba[4..8].copy_from_slice(&[40, 50, 60, 255]);
    let out = scale_and_convert_buffer(&rgba, 2);
    assert_eq!(out.len(), 128 * 64 * 3);
    // row 0 and row 1 of the scaled image both start with two copies of each source pixel
    for row in 0..2 {
        let base = row * 128 * 3;
        assert_eq!(&out[base..base + 12], &[10, 20, 30, 10, 20, 30, 40, 50, 60, 40, 50, 60]);
    }
    assert_eq!(&out[2 * 128 * 3..2 * 128 * 3 + 3], &[0, 0, 0]);
}

#[test]
fn scaling_by_one_is_rgb_of_the_frame() {
    let rgba: Vec<u8> = (0..8192u32).map(|i| (i % 251) as u8).collect();
    let out = scale_and_convert_buffer(&rgba, 1);
    assert_eq!(out.len(), 2048 * 3);
    for p in 0..2048 {
        assert_eq!(&out[p * 3..p * 3 + 3], &rgba[p * 4..p * 4 + 3]);
    }
}

#[test]
fn scaling_by_zero_is_empty() {
    assert!(scale_and_convert_buffer(&vec![1u8; 8192], 0).is_empty());
}

#[test]
fn defaults() {
    let c = EmulatorConfig::default();
    assert_eq!(c.scale_factor, 10);
    assert_eq!(c.cycles_per_frame, 10);
    assert_eq!(c.target_fps, 60);
    assert_eq!(c.rom_path, "");
    assert_eq!(c.recording.output_dir, ".");
    assert_eq!(RecordingConfig::default().filename_pattern, "chip8_{rom_name}_{timestamp}");
    let d = DisplaySettings::default();
    assert_eq!((d.phosphor_decay_rate, d.max_phosphor_value, d.default_scale_factor), (15, 255, 10));
    assert_eq!((d.color.red_divisor, d.color.green_divisor, d.color.blue_divisor), (4, 1, 8));
    assert_eq!(d.color.background, [0, 0, 0, 255]);
    let cpu = CpuSettings::default();
    assert_eq!((cpu.target_fps, cpu.cycles_per_frame), (60, 10));
    let r = RecordingSettings::default();
    assert_eq!((r.gif_scale_factor, r.gif_frame_delay, r.gif_frame_skip), (8, 4, 3));
    assert_eq!(r.output_dir, ".");
}

#[test]
fn window_is_display_times_scale() {
    let mut c = EmulatorConfig::default();
    assert_eq!(window_dimensions(&c), (640, 320));
    c.scale_factor = 3;
    assert_eq!(window_dimensions(&c), (192, 96));
}
