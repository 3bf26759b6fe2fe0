//! Phones.

use vstd::prelude::*;
use crate::class::{MajorDeviceClass, MinorDeviceClass};
use crate::field::{in_major_device_class_field, in_minor_device_class_field};

verus! {

/// The kinds of phone.
#[derive(Clone, Copy, Debug, PartialEq, Eq, Structural)]
pub enum Phone {
    Uncategorized,
    Cellular,
    Cordless,
    Smartphone,
    WiredModemOrVoiceGateway,
    CommonIsdnAccess,
}

impl Default for Phone {
    fn default() -> (phone: Self)
        ensures
            phone == Phone::Uncategorized,
    {
        Phone::Uncategorized
    }
}

impl MajorDeviceClass for Phone {
    open spec fn major_code() -> u32 {
        0x0200
    }

    /// Returns the major class for all `Phone` classes.
    fn major_device_class() -> (code: u32)
        ensures
            in_major_device_class_field(code),
    {
        0x0200
    }
}

impl MinorDeviceClass for Phone {
    open spec fn minor_code(&self) -> u32 {
        match self {
            Self::Uncategorized => 0x00,
            Self::Cellular => 0x04,
            Self::Cordless => 0x08,
            Self::Smartphone => 0x0C,
            Self::WiredModemOrVoiceGateway => 0x10,
            Self::CommonIsdnAccess => 0x14,
        }
    }

    /// Converts this `Phone` class into a minor device class.
    fn minor_device_class(&self) -> (code: u32)
        ensures
            in_minor_device_class_field(code),
    {
        match self {
            Self::Uncategorized => 0x00,
            Self::Cellular => 0x04,
            Self::Cordless => 0x08,
            Self::Smartphone => 0x0C,
            Self::WiredModemOrVoiceGateway => 0x10,
            Self::CommonIsdnAccess => 0x14,
        }
    }
}

} // verus!
