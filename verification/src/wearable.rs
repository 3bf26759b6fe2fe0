//! Wearables.

use vstd::prelude::*;
use crate::class::{MajorDeviceClass, MinorDeviceClass};
use crate::field::{in_major_device_class_field, in_minor_device_class_field};

verus! {

/// The kinds of wearable.
#[derive(Clone, Copy, Debug, PartialEq, Eq, Structural)]
pub enum Wearable {
    Wristwatch,
    Pager,
    Jacket,
    Helmet,
    Glasses,
    Pin,
}

impl MajorDeviceClass for Wearable {
    open spec fn major_code() -> u32 {
        0x0700
    }

    /// Returns the major class for all `Wearable` classes.
    fn major_device_class() -> (code: u32)
        ensures
            in_major_device_class_field(code),
    {
        0x0700
    }
}

impl MinorDeviceClass for Wearable {
    open spec fn minor_code(&self) -> u32 {
        match self {
            Self::Wristwatch => 0x04,
            Self::Pager => 0x08,
            Self::Jacket => 0x0C,
            Self::Helmet => 0x10,
            Self::Glasses => 0x14,
            Self::Pin => 0x18,
        }
    }

    /// Converts this `Wearable` into a minor device class.
    fn minor_device_class(&self) -> (code: u32)
        ensures
            in_minor_device_class_field(code),
    {
        match self {
            Self::Wristwatch => 0x04,
            Self::Pager => 0x08,
            Self::Jacket => 0x0C,
            Self::Helmet => 0x10,
            Self::Glasses => 0x14,
            Self::Pin => 0x18,
        }
    }
}

} // verus!
