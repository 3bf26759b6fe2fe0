//! The bit fields of a Class of Device value.

use vstd::prelude::*;

verus! {

/// Bits 13 to 23, which hold the major service class.
pub const MAJOR_SERVICE_CLASS_FIELD: u32 = 0x00FF_E000;

/// Bits 8 to 12, which hold the major device class.
pub const MAJOR_DEVICE_CLASS_FIELD: u32 = 0x0000_1F00;

/// Bits 2 to 7, which hold the minor device class.
pub const MINOR_DEVICE_CLASS_FIELD: u32 = 0x0000_00FC;

/// Whether bit `position` of `value` is set.
pub open spec fn has_bit(value: u32, position: u32) -> bool {
    (value >> position) & 1 == 1
}

/// What a flag contributes to an encoding: its weight where it is set, nothing otherwise.
pub open spec fn flag_value(set: bool, weight: u32) -> u32 {
    if set {
        weight
    } else {
        0
    }
}

/// The value that has bit `position` alone where `set` holds, and no bit otherwise.
pub open spec fn flag_bit(set: bool, position: u32) -> u32 {
    if set {
        1u32 << position
    } else {
        0
    }
}

/// Whether `mask` sets no bit outside the major service class field.
pub open spec fn in_major_service_class_field(mask: u32) -> bool {
    mask % 0x2000 == 0 && mask < 0x0100_0000
}

/// Whether `code` sets no bit outside the major device class field.
pub open spec fn in_major_device_class_field(code: u32) -> bool {
    code % 0x100 == 0 && code < 0x2000
}

/// Whether `code` sets no bit outside the minor device class field.
pub open spec fn in_minor_device_class_field(code: u32) -> bool {
    code % 4 == 0 && code < 0x100
}

/// The three field predicates say, in arithmetic, that a value keeps inside the field's mask.
pub proof fn lemma_field_masks(value: u32)
    ensures
        in_major_service_class_field(value) <==> value & !MAJOR_SERVICE_CLASS_FIELD == 0,
        in_major_device_class_field(value) <==> value & !MAJOR_DEVICE_CLASS_FIELD == 0,
        in_minor_device_class_field(value) <==> value & !MINOR_DEVICE_CLASS_FIELD == 0,
{
    assert((value % 0x2000 == 0 && value < 0x0100_0000)
        <==> value & !MAJOR_SERVICE_CLASS_FIELD == 0) by (bit_vector);
    assert((value % 0x100 == 0 && value < 0x2000)
        <==> value & !MAJOR_DEVICE_CLASS_FIELD == 0) by (bit_vector);
    assert((value % 4 == 0 && value < 0x100)
        <==> value & !MINOR_DEVICE_CLASS_FIELD == 0) by (bit_vector);
}

/// A value whose every bit is set exactly when one or both of two others have it set is
/// their bitwise OR.
pub proof fn lemma_or_by_bits(joined: u32, first: u32, second: u32)
    requires
        forall|position: u32|
            position < 32 ==> has_bit(joined, position)
                == (has_bit(first, position) || has_bit(second, position)),
    ensures
        joined == first | second,
{
    assert(joined == first | second) by (bit_vector)
        requires
            has_bit(joined, 0) == (has_bit(first, 0) || has_bit(second, 0)),
            has_bit(joined, 1) == (has_bit(first, 1) || has_bit(second, 1)),
            has_bit(joined, 2) == (has_bit(first, 2) || has_bit(second, 2)),
            has_bit(joined, 3) == (has_bit(first, 3) || has_bit(second, 3)),
            has_bit(joined, 4) == (has_bit(first, 4) || has_bit(second, 4)),
            has_bit(joined, 5) == (has_bit(first, 5) || has_bit(second, 5)),
            has_bit(joined, 6) == (has_bit(first, 6) || has_bit(second, 6)),
            has_bit(joined, 7) == (has_bit(first, 7) || has_bit(second, 7)),
            has_bit(joined, 8) == (has_bit(first, 8) || has_bit(second, 8)),
            has_bit(joined, 9) == (has_bit(first, 9) || has_bit(second, 9)),
            has_bit(joined, 10) == (has_bit(first, 10) || has_bit(second, 10)),
            has_bit(joined, 11) == (has_bit(first, 11) || has_bit(second, 11)),
            has_bit(joined, 12) == (has_bit(first, 12) || has_bit(second, 12)),
            has_bit(joined, 13) == (has_bit(first, 13) || has_bit(second, 13)),
            has_bit(joined, 14) == (has_bit(first, 14) || has_bit(second, 14)),
            has_bit(joined, 15) == (has_bit(first, 15) || has_bit(second, 15)),
            has_bit(joined, 16) == (has_bit(first, 16) || has_bit(second, 16)),
            has_bit(joined, 17) == (has_bit(first, 17) || has_bit(second, 17)),
            has_bit(joined, 18) == (has_bit(first, 18) || has_bit(second, 18)),
            has_bit(joined, 19) == (has_bit(first, 19) || has_bit(second, 19)),
            has_bit(joined, 20) == (has_bit(first, 20) || has_bit(second, 20)),
            has_bit(joined, 21) == (has_bit(first, 21) || has_bit(second, 21)),
            has_bit(joined, 22) == (has_bit(first, 22) || has_bit(second, 22)),
            has_bit(joined, 23) == (has_bit(first, 23) || has_bit(second, 23)),
            has_bit(joined, 24) == (has_bit(first, 24) || has_bit(second, 24)),
            has_bit(joined, 25) == (has_bit(first, 25) || has_bit(second, 25)),
            has_bit(joined, 26) == (has_bit(first, 26) || has_bit(second, 26)),
            has_bit(joined, 27) == (has_bit(first, 27) || has_bit(second, 27)),
            has_bit(joined, 28) == (has_bit(first, 28) || has_bit(second, 28)),
            has_bit(joined, 29) == (has_bit(first, 29) || has_bit(second, 29)),
            has_bit(joined, 30) == (has_bit(first, 30) || has_bit(second, 30)),
            has_bit(joined, 31) == (has_bit(first, 31) || has_bit(second, 31)),
    ;
}

} // verus!
