//! LAN and network access points.

use vstd::prelude::*;
use crate::class::{MajorDeviceClass, MinorDeviceClass};
use crate::field::{in_major_device_class_field, in_minor_device_class_field};

verus! {

/// How much of its capacity a network access point has in use.
#[derive(Clone, Copy, Debug, PartialEq, Eq, Structural)]
pub enum LanNetworkAccessPoint {
    FullyAvailable,
    Utilized1To17Percent,
    Utilized17To33Percent,
    Utilized33To50Percent,
    Utilized50To67Percent,
    Utilized67To83Percent,
    Utilized83To99Percent,
    NoServiceAvailable,
}

impl Default for LanNetworkAccessPoint {
    fn default() -> (access_point: Self)
        ensures
            access_point == LanNetworkAccessPoint::FullyAvailable,
    {
        LanNetworkAccessPoint::FullyAvailable
    }
}

impl MajorDeviceClass for LanNetworkAccessPoint {
    open spec fn major_code() -> u32 {
        0x0300
    }

    /// Returns the major class for all `LanNetworkAccessPoint` classes.
    fn major_device_class() -> (code: u32)
        ensures
            in_major_device_class_field(code),
    {
        0x0300
    }
}

impl MinorDeviceClass for LanNetworkAccessPoint {
    open spec fn minor_code(&self) -> u32 {
        match self {
            Self::FullyAvailable => 0x00,
            Self::Utilized1To17Percent => 0x20,
            Self::Utilized17To33Percent => 0x40,
            Self::Utilized33To50Percent => 0x60,
            Self::Utilized50To67Percent => 0x80,
            Self::Utilized67To83Percent => 0xA0,
            Self::Utilized83To99Percent => 0xC0,
            Self::NoServiceAvailable => 0xE0,
        }
    }

    /// Converts this `LanNetworkAccessPoint` class into a minor device class.
    fn minor_device_class(&self) -> (code: u32)
        ensures
            in_minor_device_class_field(code),
    {
        match self {
            Self::FullyAvailable => 0x00,
            Self::Utilized1To17Percent => 0x20,
            Self::Utilized17To33Percent => 0x40,
            Self::Utilized33To50Percent => 0x60,
            Self::Utilized50To67Percent => 0x80,
            Self::Utilized67To83Percent => 0xA0,
            Self::Utilized83To99Percent => 0xC0,
            Self::NoServiceAvailable => 0xE0,
        }
    }
}

} // verus!
