//! Peripherals: a keyboard and pointer part in bits 6 and 7, and a device kind in bits 2 to 5.

use vstd::prelude::*;
use crate::class::{MajorDeviceClass, MinorDeviceClass};
use crate::field::{in_major_device_class_field, in_minor_device_class_field};

verus! {

/// The keyboard and pointer part of a peripheral.
#[derive(Clone, Copy, Debug, PartialEq, Eq, Structural)]
pub enum PeripheralUpper {
    Uncategorized,
    Keyboard,
    PointingDevice,
    ComboKeyboardPointingDevice,
}

impl Default for PeripheralUpper {
    fn default() -> (upper: Self)
        ensures
            upper == PeripheralUpper::Uncategorized,
    {
        PeripheralUpper::Uncategorized
    }
}

impl PeripheralUpper {
    /// The code of this part, in bits 6 and 7.
    pub open spec fn spec_code(&self) -> u32 {
        match self {
            Self::Uncategorized => 0x00,
            Self::Keyboard => 0x40,
            Self::PointingDevice => 0x80,
            Self::ComboKeyboardPointingDevice => 0xC0,
        }
    }

    /// Returns the code of this part. It sets no bit outside bits 6 and 7.
    #[verifier::when_used_as_spec(spec_code)]
    pub fn code(&self) -> (code: u32)
        ensures
            code == self.spec_code(),
            code % 0x40 == 0,
            code < 0x100,
    {
        match self {
            Self::Uncategorized => 0x00,
            Self::Keyboard => 0x40,
            Self::PointingDevice => 0x80,
            Self::ComboKeyboardPointingDevice => 0xC0,
        }
    }
}

/// The kind of device that a peripheral is.
#[derive(Clone, Copy, Debug, PartialEq, Eq, Structural)]
pub enum PeripheralLower {
    Uncategorized,
    Joystick,
    Gamepad,
    RemoteControl,
    SensingDevice,
    DigitizerTablet,
    CardReader,
    DigitalPen,
    HandheldScanner,
    HandheldGesturalInputDevice,
}

impl Default for PeripheralLower {
    fn default() -> (lower: Self)
        ensures
            lower == PeripheralLower::Uncategorized,
    {
        PeripheralLower::Uncategorized
    }
}

impl PeripheralLower {
    /// The code of this kind, in bits 2 to 5.
    pub open spec fn spec_code(&self) -> u32 {
        match self {
            Self::Uncategorized => 0x00,
            Self::Joystick => 0x04,
            Self::Gamepad => 0x08,
            Self::RemoteControl => 0x0C,
            Self::SensingDevice => 0x10,
            Self::DigitizerTablet => 0x14,
            Self::CardReader => 0x18,
            Self::DigitalPen => 0x1C,
            Self::HandheldScanner => 0x20,
            Self::HandheldGesturalInputDevice => 0x24,
        }
    }

    /// Returns the code of this kind. It sets no bit outside bits 2 to 5.
    #[verifier::when_used_as_spec(spec_code)]
    pub fn code(&self) -> (code: u32)
        ensures
            code == self.spec_code(),
            code % 4 == 0,
            code < 0x40,
    {
        match self {
            Self::Uncategorized => 0x00,
            Self::Joystick => 0x04,
            Self::Gamepad => 0x08,
            Self::RemoteControl => 0x0C,
            Self::SensingDevice => 0x10,
            Self::DigitizerTablet => 0x14,
            Self::CardReader => 0x18,
            Self::DigitalPen => 0x1C,
            Self::HandheldScanner => 0x20,
            Self::HandheldGesturalInputDevice => 0x24,
        }
    }
}

/// A peripheral: any keyboard and pointer part together with any kind of device.
#[derive(Clone, Copy, Debug, PartialEq, Eq, Structural)]
pub struct Peripheral {
    pub upper: PeripheralUpper,
    pub lower: PeripheralLower,
}

impl Default for Peripheral {
    fn default() -> (peripheral: Self)
        ensures
            peripheral.upper == PeripheralUpper::Uncategorized,
            peripheral.lower == PeripheralLower::Uncategorized,
    {
        Peripheral { upper: PeripheralUpper::Uncategorized, lower: PeripheralLower::Uncategorized }
    }
}

impl Peripheral {
    /// Constructs a new `Peripheral` from an upper and a lower part.
    pub fn new(upper: PeripheralUpper, lower: PeripheralLower) -> (peripheral: Self)
        ensures
            peripheral.upper == upper,
            peripheral.lower == lower,
    {
        Self { upper, lower }
    }

    /// The minor code is the bitwise OR of the codes of the two parts.
    pub proof fn lemma_minor_code_joins_parts(self)
        ensures
            self.minor_code() == self.upper.code() | self.lower.code(),
    {
        let upper: u32 = self.upper.code();
        let lower: u32 = self.lower.code();
        assert(upper | lower == upper + lower) by (bit_vector)
            requires
                upper % 0x40 == 0,
                upper < 0x100,
                lower < 0x40,
        ;
    }

    /// Different peripherals have different minor codes.
    pub proof fn lemma_minor_codes_differ(self, other: Self)
        requires
            self != other,
        ensures
            self.minor_code() != other.minor_code(),
    {
    }
}

impl MajorDeviceClass for Peripheral {
    open spec fn major_code() -> u32 {
        0x0500
    }

    /// Returns the major device class of all `Peripheral` classes.
    fn major_device_class() -> (code: u32)
        ensures
            in_major_device_class_field(code),
    {
        0x0500
    }
}

impl MinorDeviceClass for Peripheral {
    /// The two parts lie in different bits, so that their codes add up.
    open spec fn minor_code(&self) -> u32 {
        (self.upper.code() + self.lower.code()) as u32
    }

    /// Converts this `Peripheral` class into a minor device class.
    fn minor_device_class(&self) -> (code: u32)
        ensures
            code == self.upper.code() | self.lower.code(),
            in_minor_device_class_field(code),
    {
        proof {
            self.lemma_minor_code_joins_parts();
        }
        self.upper.code() | self.lower.code()
    }
}

} // verus!
