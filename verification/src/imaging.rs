//! Imaging devices: four capability flags in bits 4 to 7.

use vstd::prelude::*;
use crate::class::{MajorDeviceClass, MinorDeviceClass};
use crate::field::{
    flag_bit, flag_value, has_bit, in_major_device_class_field, in_minor_device_class_field,
    lemma_or_by_bits,
};

verus! {

/// What an imaging device can do, one flag each.
#[derive(Clone, Copy, Debug, PartialEq, Eq, Structural)]
pub struct Imaging {
    pub display: bool,
    pub camera: bool,
    pub scanner: bool,
    pub printer: bool,
}

impl Default for Imaging {
    /// The default imaging device has no capability.
    fn default() -> (imaging: Self)
        ensures
            !imaging.display,
            !imaging.camera,
            !imaging.scanner,
            !imaging.printer,
    {
        Imaging { display: false, camera: false, scanner: false, printer: false }
    }
}

impl MajorDeviceClass for Imaging {
    open spec fn major_code() -> u32 {
        0x0600
    }

    /// Returns the major class for all `Imaging` classes.
    fn major_device_class() -> (code: u32)
        ensures
            in_major_device_class_field(code),
    {
        0x0600
    }
}

impl MinorDeviceClass for Imaging {
    open spec fn minor_code(&self) -> u32 {
        imaging_value(self.display, self.camera, self.scanner, self.printer)
    }

    /// Converts this `Imaging` class into a minor device class: the bit of each flag that is
    /// set, and no other bit.
    fn minor_device_class(&self) -> (code: u32)
        ensures
            in_minor_device_class_field(code),
            forall|position: u32|
                #![trigger has_bit(code, position)]
                #![trigger self.flag_at(position)]
                position < 32 ==> has_bit(code, position) == self.flag_at(position),
    {
        proof {
            lemma_bits_add_up(self.display, self.camera, self.scanner, self.printer);
            assert forall|position: u32| position < 32 implies has_bit(
                self.minor_code(),
                position,
            ) == self.flag_at(position) by {
                self.lemma_minor_code_bits(position);
            }
        }
        (if self.display { 1u32 << 4 } else { 0 })
            | (if self.camera { 1u32 << 5 } else { 0 })
            | (if self.scanner { 1u32 << 6 } else { 0 })
            | (if self.printer { 1u32 << 7 } else { 0 })
    }
}

impl Imaging {
    /// The flag that is assigned to bit `position`; no flag lies outside bits 4 to 7.
    pub open spec fn flag_at(self, position: u32) -> bool {
        if position == 4 {
            self.display
        } else if position == 5 {
            self.camera
        } else if position == 6 {
            self.scanner
        } else if position == 7 {
            self.printer
        } else {
            false
        }
    }

    /// Bit `position` of the minor code is set exactly when the flag assigned to it is set: no
    /// flag touches the bit of another.
    pub proof fn lemma_minor_code_bits(self, position: u32)
        requires
            position < 32,
        ensures
            has_bit(self.minor_code(), position) == self.flag_at(position),
    {
        let a = self.display;
        let b = self.camera;
        let c = self.scanner;
        let d = self.printer;
        assert(has_bit(imaging_value(a, b, c, d), position) == (
            (position == 4 && a) || (position == 5 && b) || (position == 6 && c)
            || (position == 7 && d)
        )) by (bit_vector)
            requires
                position < 32,
        ;
    }

    /// An imaging device with no flag set has the minor code zero.
    pub proof fn lemma_no_flag(self)
        requires
            forall|position: u32| !self.flag_at(position),
        ensures
            self.minor_code() == 0,
    {
        self.lemma_flags_by_position();
    }

    /// An imaging device with a single flag set has the bit of that flag alone as its minor
    /// code.
    pub proof fn lemma_single_flag(self, position: u32)
        requires
            self.flag_at(position),
            forall|other: u32| other != position ==> !self.flag_at(other),
        ensures
            self.minor_code() == 1u32 << position,
    {
        self.lemma_flags_by_position();
        assert(
            (position == 4 ==> 1u32 << position == 0x10)
            && (position == 5 ==> 1u32 << position == 0x20)
            && (position == 6 ==> 1u32 << position == 0x40)
            && (position == 7 ==> 1u32 << position == 0x80)
        ) by (bit_vector);
    }

    /// Flags superpose: where `joined` has exactly the flags that `first` or `second` has, its
    /// minor code is the bitwise OR of their minor codes. Two devices of one flag each are the
    /// plainest case.
    pub proof fn lemma_superposition(joined: Self, first: Self, second: Self)
        requires
            forall|position: u32|
                joined.flag_at(position) == (first.flag_at(position) || second.flag_at(position)),
        ensures
            joined.minor_code() == first.minor_code() | second.minor_code(),
    {
        assert forall|position: u32| position < 32 implies has_bit(joined.minor_code(), position)
            == (has_bit(first.minor_code(), position) || has_bit(second.minor_code(), position)) by {
            joined.lemma_minor_code_bits(position);
            first.lemma_minor_code_bits(position);
            second.lemma_minor_code_bits(position);
        }
        lemma_or_by_bits(joined.minor_code(), first.minor_code(), second.minor_code());
    }

    /// Reading `flag_at` at each assigned position gives the four fields back.
    proof fn lemma_flags_by_position(self)
        ensures
            self.flag_at(4) == self.display,
            self.flag_at(5) == self.camera,
            self.flag_at(6) == self.scanner,
            self.flag_at(7) == self.printer,
    {
    }
}

/// The minor code of an imaging device with the given flags: the weights of those that are
/// set, added up. The weight of a flag is the value of its bit.
pub open spec fn imaging_value(display: bool, camera: bool, scanner: bool, printer: bool) -> u32 {
    (flag_value(display, 0x10) + flag_value(camera, 0x20) + flag_value(scanner, 0x40)
        + flag_value(printer, 0x80)) as u32
}

/// Setting the bit of each flag by bitwise OR gives the sum of the weights.
proof fn lemma_bits_add_up(a: bool, b: bool, c: bool, d: bool)
    by (bit_vector)
    ensures
        flag_bit(a, 4) | flag_bit(b, 5) | flag_bit(c, 6) | flag_bit(d, 7)
            == imaging_value(a, b, c, d),
{
}

} // verus!
