//! Audio and video devices.

use vstd::prelude::*;
use crate::class::{MajorDeviceClass, MinorDeviceClass};
use crate::field::{in_major_device_class_field, in_minor_device_class_field};

verus! {

/// The kinds of audio and video device.
#[derive(Clone, Copy, Debug, PartialEq, Eq, Structural)]
pub enum AudioVideo {
    Uncategorized,
    WearableHeadsetDevice,
    HandsFreeDevice,
    Microphone,
    Loudspeaker,
    Headphones,
    PortableAudio,
    CarAudio,
    SetTopBox,
    HiFiAudioDevice,
    Vcr,
    VideoCamera,
    Camcorder,
    VideoMonitor,
    VideoDisplayAndLoudspeaker,
    VideoConferencing,
    GamingToy,
}

impl Default for AudioVideo {
    fn default() -> (audio_video: Self)
        ensures
            audio_video == AudioVideo::Uncategorized,
    {
        AudioVideo::Uncategorized
    }
}

impl MajorDeviceClass for AudioVideo {
    open spec fn major_code() -> u32 {
        0x0500
    }

    /// Returns the major class for all `AudioVideo` classes.
    fn major_device_class() -> (code: u32)
        ensures
            in_major_device_class_field(code),
    {
        0x0500
    }
}

impl MinorDeviceClass for AudioVideo {
    open spec fn minor_code(&self) -> u32 {
        match self {
            Self::Uncategorized => 0x00,
            Self::WearableHeadsetDevice => 0x04,
            Self::HandsFreeDevice => 0x08,
            Self::Microphone => 0x10,
            Self::Loudspeaker => 0x14,
            Self::Headphones => 0x18,
            Self::PortableAudio => 0x1C,
            Self::CarAudio => 0x20,
            Self::SetTopBox => 0x24,
            Self::HiFiAudioDevice => 0x28,
            Self::Vcr => 0x2C,
            Self::VideoCamera => 0x30,
            Self::Camcorder => 0x34,
            Self::VideoMonitor => 0x38,
            Self::VideoDisplayAndLoudspeaker => 0x3C,
            Self::VideoConferencing => 0x40,
            Self::GamingToy => 0x48,
        }
    }

    /// Converts this `AudioVideo` class into a minor device class.
    fn minor_device_class(&self) -> (code: u32)
        ensures
            in_minor_device_class_field(code),
    {
        match self {
            Self::Uncategorized => 0x00,
            Self::WearableHeadsetDevice => 0x04,
            Self::HandsFreeDevice => 0x08,
            Self::Microphone => 0x10,
            Self::Loudspeaker => 0x14,
            Self::Headphones => 0x18,
            Self::PortableAudio => 0x1C,
            Self::CarAudio => 0x20,
            Self::SetTopBox => 0x24,
            Self::HiFiAudioDevice => 0x28,
            Self::Vcr => 0x2C,
            Self::VideoCamera => 0x30,
            Self::Camcorder => 0x34,
            Self::VideoMonitor => 0x38,
            Self::VideoDisplayAndLoudspeaker => 0x3C,
            Self::VideoConferencing => 0x40,
            Self::GamingToy => 0x48,
        }
    }
}

} // verus!
