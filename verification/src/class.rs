//! The three capabilities of a device category and the rule that joins them with the major
//! service class.

use vstd::prelude::*;
use crate::field::{
    in_major_device_class_field, in_minor_device_class_field, MAJOR_DEVICE_CLASS_FIELD,
    MAJOR_SERVICE_CLASS_FIELD, MINOR_DEVICE_CLASS_FIELD,
};
use crate::service::MajorServiceClass;

verus! {

/// A device category. All its values carry one major device class code.
pub trait MajorDeviceClass {
    /// The major device class code of the category, placed in bits 8 to 12. It belongs to
    /// the category and to no value of it.
    spec fn major_code() -> u32;

    /// Returns the major device class code of the category.
    fn major_device_class() -> (code: u32)
        ensures
            code == Self::major_code(),
    ;
}

/// A value that determines a minor device class code.
pub trait MinorDeviceClass {
    /// The minor device class code of this value, placed in bits 2 to 7.
    spec fn minor_code(&self) -> u32;

    /// Returns the minor device class code of this value.
    fn minor_device_class(&self) -> (code: u32)
        ensures
            code == self.minor_code(),
    ;
}

/// Device class consisting of a major and a minor class.
pub trait DeviceClass {
    /// The major and minor device class codes of this value, joined.
    spec fn class_code(&self) -> u32;

    /// Returns the major and minor device class codes of this value, joined.
    fn device_class(&self) -> (code: u32)
        ensures
            code == self.class_code(),
    ;
}

/// Every type that has both a major and a minor device class has a device class.
impl<T: MajorDeviceClass + MinorDeviceClass> DeviceClass for T {
    open spec fn class_code(&self) -> u32 {
        T::major_code() | self.minor_code()
    }

    /// Joins the major device class of the category and the minor device class of this value.
    fn device_class(&self) -> (code: u32) {
        Self::major_device_class() | self.minor_device_class()
    }
}

/// Creates a Class of Device from the services and the category of a device.
pub fn make_class_of_device<C: DeviceClass>(
    major_service_class: MajorServiceClass,
    device_class: C,
) -> (class_of_device: u32)
    ensures
        class_of_device == major_service_class.bitmask() | device_class.class_code(),
{
    major_service_class.major_service_class() | device_class.device_class()
}

/// No part of a Class of Device runs into another where the major code keeps to its field and
/// the minor code stays below bit 8. Joining the parts then adds them up, and the major
/// service class and the major device class can be read back from the result, whatever the
/// value of the category is; so can a minor code that keeps to its field.
pub proof fn lemma_parts_keep_apart<C: MajorDeviceClass + MinorDeviceClass>(
    service: MajorServiceClass,
    device: C,
)
    requires
        in_major_device_class_field(C::major_code()),
        device.minor_code() < 0x100,
    ensures
        device.class_code() == C::major_code() + device.minor_code(),
        service.bitmask() | device.class_code() == service.bitmask() + C::major_code()
            + device.minor_code(),
        (service.bitmask() | device.class_code()) & MAJOR_SERVICE_CLASS_FIELD
            == service.bitmask(),
        (service.bitmask() | device.class_code()) & MAJOR_DEVICE_CLASS_FIELD == C::major_code(),
        in_minor_device_class_field(device.minor_code()) ==> (service.bitmask()
            | device.class_code()) & MINOR_DEVICE_CLASS_FIELD == device.minor_code(),
{
    let mask: u32 = service.bitmask();
    let major: u32 = C::major_code();
    let minor: u32 = device.minor_code();
    service.lemma_bitmask_in_field();
    assert(
        major | minor == major + minor
        && mask | (major | minor) == mask + major + minor
        && (mask | (major | minor)) & MAJOR_SERVICE_CLASS_FIELD == mask
        && (mask | (major | minor)) & MAJOR_DEVICE_CLASS_FIELD == major
        && (minor % 4 == 0 ==> (mask | (major | minor)) & MINOR_DEVICE_CLASS_FIELD == minor)
    ) by (bit_vector)
        requires
            mask % 0x2000 == 0,
            mask < 0x0100_0000,
            major % 0x100 == 0,
            major < 0x2000,
            minor < 0x100,
    ;
}

} // verus!
