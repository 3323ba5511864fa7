//! The camera configuration a device session streams with.
//!
//! The record mirrors the native configuration structure: frame rate, color
//! format and resolution, depth mode, wired synchronization mode, and the
//! inter-device delay parameters.  It is plain data; streaming picks it up
//! when the cameras are started.

use vstd::prelude::*;

verus! {

/// Camera frame rate.
#[derive(Clone, Copy, PartialEq, Eq, Structural, Debug)]
pub enum Fps {
    Fps5,
    Fps15,
    Fps30,
}

/// Color image encoding.
#[derive(Clone, Copy, PartialEq, Eq, Structural, Debug)]
pub enum ImageFormat {
    ColorMjpg,
    ColorNv12,
    ColorYuy2,
    ColorBgra32,
    Depth16,
    Ir16,
    Custom,
}

/// Color camera resolution; `Off` disables the color stream.
#[derive(Clone, Copy, PartialEq, Eq, Structural, Debug)]
pub enum ColorResolution {
    Off,
    R720p,
    R1080p,
    R1440p,
    R1536p,
    R2160p,
    R3072p,
}

/// Depth sensor mode.
#[derive(Clone, Copy, PartialEq, Eq, Structural, Debug)]
pub enum DepthMode {
    Off,
    NfovBinned,
    NfovUnbinned,
    WfovBinned,
    WfovUnbinned,
    PassiveIr,
}

/// Multi-device wiring mode.
#[derive(Clone, Copy, PartialEq, Eq, Structural, Debug)]
pub enum WiredSyncMode {
    Standalone,
    Master,
    Subordinate,
}

/// Configuration record handed to the native stream-start call.
#[derive(Clone, Copy, PartialEq, Eq, Structural, Debug)]
pub struct DeviceConfiguration {
    pub camera_fps: Fps,
    pub color_format: ImageFormat,
    pub color_resolution: ColorResolution,
    pub depth_delay_off_color_usec: i32,
    pub depth_mode: DepthMode,
    pub disable_streaming_indicator: bool,
    pub subordinate_delay_off_master_usec: u32,
    pub synchronized_images_only: bool,
    pub wired_sync_mode: WiredSyncMode,
}

/// The configuration a freshly opened session starts with: 30 FPS, MJPEG
/// color format with the color stream disabled, wide field-of-view binned
/// depth (full resolution cannot sustain 30 FPS), standalone synchronization,
/// no inter-device delays, streaming indicator enabled.
pub open spec fn default_configuration() -> DeviceConfiguration {
    DeviceConfiguration {
        camera_fps: Fps::Fps30,
        color_format: ImageFormat::ColorMjpg,
        color_resolution: ColorResolution::Off,
        depth_delay_off_color_usec: 0i32,
        depth_mode: DepthMode::WfovBinned,
        disable_streaming_indicator: false,
        subordinate_delay_off_master_usec: 0u32,
        synchronized_images_only: false,
        wired_sync_mode: WiredSyncMode::Standalone,
    }
}

impl Default for DeviceConfiguration {
    /// The default configuration of a new session.
    fn default() -> (c: Self)
        ensures
            c == default_configuration(),
    {
        DeviceConfiguration {
            camera_fps: Fps::Fps30,
            color_format: ImageFormat::ColorMjpg,
            color_resolution: ColorResolution::Off,
            depth_delay_off_color_usec: 0i32,
            depth_mode: DepthMode::WfovBinned,
            disable_streaming_indicator: false,
            subordinate_delay_off_master_usec: 0u32,
            synchronized_images_only: false,
            wired_sync_mode: WiredSyncMode::Standalone,
        }
    }
}

} // verus!
