//! The two categories whose minor device class the caller supplies as a number.

use vstd::prelude::*;
use crate::class::{MajorDeviceClass, MinorDeviceClass};
use crate::field::in_major_device_class_field;

verus! {

/// A miscellaneous device. Its minor device class is used as it is given: a value with bits
/// outside bits 2 to 7 reaches into the other fields of a Class of Device.
pub struct Miscellaneous {
    pub minor_device_class: u32,
}

impl MajorDeviceClass for Miscellaneous {
    open spec fn major_code() -> u32 {
        0x0000
    }

    /// Returns the major class for all `Miscellaneous` classes.
    fn major_device_class() -> (code: u32)
        ensures
            in_major_device_class_field(code),
    {
        0x0000
    }
}

impl MinorDeviceClass for Miscellaneous {
    open spec fn minor_code(&self) -> u32 {
        self.minor_device_class
    }

    /// Converts this `Miscellaneous` class into a minor device class.
    fn minor_device_class(&self) -> (code: u32) {
        self.minor_device_class
    }
}

/// An uncategorized device. Its minor device class is used as it is given: a value with bits
/// outside bits 2 to 7 reaches into the other fields of a Class of Device.
#[derive(Clone, Copy, Debug, PartialEq, Eq, Structural)]
pub struct Uncategorized {
    pub minor_device_class: u32,
}

impl Default for Uncategorized {
    fn default() -> (uncategorized: Self)
        ensures
            uncategorized.minor_device_class == 0,
    {
        Uncategorized { minor_device_class: 0 }
    }
}

impl MajorDeviceClass for Uncategorized {
    open spec fn major_code() -> u32 {
        0x1F00
    }

    /// Returns the major class for all `Uncategorized` classes.
    fn major_device_class() -> (code: u32)
        ensures
            in_major_device_class_field(code),
    {
        0x1F00
    }
}

impl MinorDeviceClass for Uncategorized {
    open spec fn minor_code(&self) -> u32 {
        self.minor_device_class
    }

    /// Converts this `Uncategorized` class into a minor device class.
    fn minor_device_class(&self) -> (code: u32) {
        self.minor_device_class
    }
}

} // verus!
