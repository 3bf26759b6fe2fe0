//! Toys.

use vstd::prelude::*;
use crate::class::{MajorDeviceClass, MinorDeviceClass};
use crate::field::{in_major_device_class_field, in_minor_device_class_field};

verus! {

/// The kinds of toy.
#[derive(Clone, Copy, Debug, PartialEq, Eq, Structural)]
pub enum Toy {
    Robot,
    Vehicle,
    DollActionFigure,
    Controller,
    Game,
}

impl MajorDeviceClass for Toy {
    open spec fn major_code() -> u32 {
        0x0800
    }

    /// Returns the major class of all `Toy` classes.
    fn major_device_class() -> (code: u32)
        ensures
            in_major_device_class_field(code),
    {
        0x0800
    }
}

impl MinorDeviceClass for Toy {
    open spec fn minor_code(&self) -> u32 {
        match self {
            Self::Robot => 0x04,
            Self::Vehicle => 0x08,
            Self::DollActionFigure => 0x0C,
            Self::Controller => 0x10,
            Self::Game => 0x14,
        }
    }

    /// Converts this `Toy` class into a minor device class.
    fn minor_device_class(&self) -> (code: u32)
        ensures
            in_minor_device_class_field(code),
    {
        match self {
            Self::Robot => 0x04,
            Self::Vehicle => 0x08,
            Self::DollActionFigure => 0x0C,
            Self::Controller => 0x10,
            Self::Game => 0x14,
        }
    }
}

} // verus!
