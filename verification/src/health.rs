//! Health devices.

use vstd::prelude::*;
use crate::class::{MajorDeviceClass, MinorDeviceClass};
use crate::field::{in_major_device_class_field, in_minor_device_class_field};

verus! {

/// The kinds of health device.
#[derive(Clone, Copy, Debug, PartialEq, Eq, Structural)]
pub enum Health {
    Undefined,
    BloodPressureMonitor,
    Thermometer,
    WeighingScale,
    GlucoseMeter,
    PulseOximeter,
    HeartPulseRateMonitor,
    HealthDataDisplay,
    StepCounter,
    BodyCompositionAnalyzer,
    PeakFlowMonitor,
    MedicationMonitor,
    KneeProsthesis,
    AnkleProsthesis,
    GenericHealthManager,
    PersonalMobilityDevice,
}

impl Default for Health {
    fn default() -> (health: Self)
        ensures
            health == Health::Undefined,
    {
        Health::Undefined
    }
}

impl MajorDeviceClass for Health {
    open spec fn major_code() -> u32 {
        0x0900
    }

    /// Returns the major class of all `Health` classes.
    fn major_device_class() -> (code: u32)
        ensures
            in_major_device_class_field(code),
    {
        0x0900
    }
}

impl MinorDeviceClass for Health {
    open spec fn minor_code(&self) -> u32 {
        match self {
            Self::Undefined => 0x00,
            Self::BloodPressureMonitor => 0x04,
            Self::Thermometer => 0x08,
            Self::WeighingScale => 0x0C,
            Self::GlucoseMeter => 0x10,
            Self::PulseOximeter => 0x14,
            Self::HeartPulseRateMonitor => 0x18,
            Self::HealthDataDisplay => 0x1C,
            Self::StepCounter => 0x20,
            Self::BodyCompositionAnalyzer => 0x24,
            Self::PeakFlowMonitor => 0x28,
            Self::MedicationMonitor => 0x2C,
            Self::KneeProsthesis => 0x30,
            Self::AnkleProsthesis => 0x34,
            Self::GenericHealthManager => 0x38,
            Self::PersonalMobilityDevice => 0x3C,
        }
    }

    /// Converts this `Health` class into a minor device class.
    fn minor_device_class(&self) -> (code: u32)
        ensures
            in_minor_device_class_field(code),
    {
        match self {
            Self::Undefined => 0x00,
            Self::BloodPressureMonitor => 0x04,
            Self::Thermometer => 0x08,
            Self::WeighingScale => 0x0C,
            Self::GlucoseMeter => 0x10,
            Self::PulseOximeter => 0x14,
            Self::HeartPulseRateMonitor => 0x18,
            Self::HealthDataDisplay => 0x1C,
            Self::StepCounter => 0x20,
            Self::BodyCompositionAnalyzer => 0x24,
            Self::PeakFlowMonitor => 0x28,
            Self::MedicationMonitor => 0x2C,
            Self::KneeProsthesis => 0x30,
            Self::AnkleProsthesis => 0x34,
            Self::GenericHealthManager => 0x38,
            Self::PersonalMobilityDevice => 0x3C,
        }
    }
}

} // verus!
