//! Computers.

use vstd::prelude::*;
use crate::class::{MajorDeviceClass, MinorDeviceClass};
use crate::field::{in_major_device_class_field, in_minor_device_class_field};

verus! {

/// The kinds of computer.
#[derive(Clone, Copy, Debug, PartialEq, Eq, Structural)]
pub enum Computer {
    Uncategorized,
    DesktopWorkstation,
    ServerClassComputer,
    Laptop,
    HandheldPcPda,
    PalmSizedPcPda,
    WearableComputer,
    Tablet,
}

impl Default for Computer {
    fn default() -> (computer: Self)
        ensures
            computer == Computer::Uncategorized,
    {
        Computer::Uncategorized
    }
}

impl MajorDeviceClass for Computer {
    open spec fn major_code() -> u32 {
        0x0100
    }

    /// Returns the major class for all `Computer` classes.
    fn major_device_class() -> (code: u32)
        ensures
            in_major_device_class_field(code),
    {
        0x0100
    }
}

impl MinorDeviceClass for Computer {
    open spec fn minor_code(&self) -> u32 {
        match self {
            Self::Uncategorized => 0x00,
            Self::DesktopWorkstation => 0x04,
            Self::ServerClassComputer => 0x08,
            Self::Laptop => 0x0C,
            Self::HandheldPcPda => 0x10,
            Self::PalmSizedPcPda => 0x14,
            Self::WearableComputer => 0x18,
            Self::Tablet => 0x1C,
        }
    }

    /// Converts this `Computer` class into a minor device class.
    fn minor_device_class(&self) -> (code: u32)
        ensures
            in_minor_device_class_field(code),
    {
        match self {
            Self::Uncategorized => 0x00,
            Self::DesktopWorkstation => 0x04,
            Self::ServerClassComputer => 0x08,
            Self::Laptop => 0x0C,
            Self::HandheldPcPda => 0x10,
            Self::PalmSizedPcPda => 0x14,
            Self::WearableComputer => 0x18,
            Self::Tablet => 0x1C,
        }
    }
}

} // verus!
